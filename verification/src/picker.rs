//! Lists to pick from, drawn as tables.

use ratatui::text::Line;
use vstd::prelude::*;

use crate::drafts::WizardControl;
use crate::duplicate::{owned, Duplicate};
#[allow(unused_imports)]
use crate::duplicate::{group_views, views};
use crate::geometry::Rect;
#[allow(unused_imports)]
use crate::geometry::rect_new;
use crate::records::HarnessKind;
use crate::screen::{add_button, blank_text, no_buttons, row_count, Button, TextLine, Tone};
#[allow(unused_imports)]
use crate::screen::{blanks, labelled, line, rows_of, span, ButtonView, TextLineView};
use crate::text::trim;
#[allow(unused_imports)]
use crate::text::trimmed;

verus! {

// --- Widths ---

/// How many terminal columns a line of text takes.
pub uninterp spec fn line_columns(text: Seq<char>) -> nat;

/// `Line::width` of `ratatui` on a line made of the text: the columns that it
/// takes. Which number that is follows from the Unicode tables behind it and
/// is not stated here; it is a function of the text alone.
#[verifier::external_body]
pub(crate) fn line_width(text: &str) -> (columns: usize)
    ensures
        columns == line_columns(text@),
{
    Line::raw(text).width()
}

// --- Rows ---

/// One cell of a picker table row.
#[derive(Debug, PartialEq, Eq)]
pub struct PickerCell {
    pub text: String,
    pub tone: Tone,
}

/// What a [`PickerCell`] holds.
#[verifier::ext_equal]
pub struct PickerCellView {
    pub text: Seq<char>,
    pub tone: Tone,
}

impl DeepView for PickerCell {
    type V = PickerCellView;

    open spec fn deep_view(&self) -> PickerCellView {
        PickerCellView {
            text: self.text.deep_view(),
            tone: self.tone.deep_view(),
        }
    }
}

impl View for PickerCell {
    type V = PickerCellView;

    open spec fn view(&self) -> PickerCellView {
        self.deep_view()
    }
}

impl Duplicate for PickerCell {
    fn duplicate(&self) -> (copy: PickerCell) {
        PickerCell {
            text: self.text.duplicate(),
            tone: self.tone.duplicate(),
        }
    }
}

/// One picker row. A disabled row stays in the list so that row numbers keep
/// matching the items; it is greyed out and refuses Enter. Rows of several
/// cells draw as a table: every cell but the row's last is padded to its
/// column, so the columns line up down the list.
#[derive(Debug, PartialEq, Eq)]
pub struct PickerChoice {
    pub cells: Vec<PickerCell>,
    pub disabled: bool,
    /// Heading rows name the columns and carry no item, so the picker leaves
    /// them out of its row map and item indexes keep naming their own rows.
    pub heading: bool,
}

/// What a [`PickerChoice`] holds.
#[verifier::ext_equal]
pub struct PickerChoiceView {
    pub cells: Seq<PickerCellView>,
    pub disabled: bool,
    pub heading: bool,
}

impl DeepView for PickerChoice {
    type V = PickerChoiceView;

    open spec fn deep_view(&self) -> PickerChoiceView {
        PickerChoiceView {
            cells: self.cells.deep_view(),
            disabled: self.disabled.deep_view(),
            heading: self.heading.deep_view(),
        }
    }
}

impl View for PickerChoice {
    type V = PickerChoiceView;

    open spec fn view(&self) -> PickerChoiceView {
        self.deep_view()
    }
}

impl Duplicate for PickerChoice {
    fn duplicate(&self) -> (copy: PickerChoice) {
        PickerChoice {
            cells: self.cells.duplicate(),
            disabled: self.disabled.duplicate(),
            heading: self.heading.duplicate(),
        }
    }
}

pub open spec fn cell(text: Seq<char>, tone: Tone) -> PickerCellView {
    PickerCellView { text, tone }
}

pub open spec fn table_row(cells: Seq<PickerCellView>) -> PickerChoiceView {
    PickerChoiceView { cells, disabled: false, heading: false }
}

/// A row of one plain cell.
pub open spec fn text_row(text: Seq<char>) -> PickerChoiceView {
    table_row(seq![cell(text, Tone::Plain)])
}

/// A greyed row that keeps its place in the list but refuses Enter.
pub open spec fn disabled_row(text: Seq<char>) -> PickerChoiceView {
    PickerChoiceView { disabled: true, ..text_row(text) }
}

/// The marker of a row that the footnote explains.
pub open spec fn marker_cell(warns: bool) -> PickerCellView {
    if warns {
        cell("⚠"@, Tone::Warning)
    } else {
        cell(""@, Tone::Plain)
    }
}

impl PickerCell {
    pub fn text(text: String) -> (r: PickerCell)
        ensures
            r@ == cell(text@, Tone::Plain),
    {
        PickerCell { text, tone: Tone::Plain }
    }

    pub fn styled(text: String, tone: Tone) -> (r: PickerCell)
        ensures
            r@ == cell(text@, tone),
    {
        PickerCell { text, tone }
    }

    /// Empty cell that keeps the columns after it aligned on rows that need
    /// no entry here.
    pub fn blank() -> (r: PickerCell)
        ensures
            r@ == marker_cell(false),
    {
        PickerCell { text: owned(""), tone: Tone::Plain }
    }

    /// The triangle that marks a row the picker footnote explains.
    pub fn warning_marker() -> (r: PickerCell)
        ensures
            r@ == marker_cell(true),
    {
        PickerCell { text: owned("⚠"), tone: Tone::Warning }
    }

    pub fn width(&self) -> (columns: usize)
        ensures
            columns == line_columns(self@.text),
    {
        line_width(self.text.as_str())
    }
}

impl PickerChoice {
    /// A single cell of plain, unstyled text.
    pub fn text(text: String) -> (r: PickerChoice)
        ensures
            r@ == text_row(text@),
    {
        broadcast use group_views;

        let mut cells: Vec<PickerCell> = Vec::new();
        cells.push(PickerCell::text(text));
        PickerChoice::table(cells)
    }

    /// A row of table cells padded into aligned columns.
    pub fn table(cells: Vec<PickerCell>) -> (r: PickerChoice)
        ensures
            r@ == table_row(cells.deep_view()),
    {
        PickerChoice { cells, disabled: false, heading: false }
    }

    /// A greyed row that keeps its place in the list but refuses Enter.
    pub fn disabled(text: String) -> (r: PickerChoice)
        ensures
            r@ == disabled_row(text@),
    {
        let mut r = PickerChoice::text(text);
        r.disabled = true;
        r
    }

    /// A row that names the columns and cannot be selected.
    pub fn heading(cells: Vec<PickerCell>) -> (r: PickerChoice)
        ensures
            r@ == (PickerChoiceView { heading: true, ..table_row(cells.deep_view()) }),
    {
        let mut r = PickerChoice::table(cells);
        r.heading = true;
        r
    }

    /// Adds a note after the padded columns.
    pub fn with_note(self, note: &str) -> (r: PickerChoice)
        ensures
            r@ == (PickerChoiceView {
                cells: self@.cells.push(cell(note@, Tone::Plain)),
                ..self@
            }),
    {
        broadcast use group_views;

        let mut r = self;
        r.cells.push(PickerCell::text(owned(note)));
        r
    }
}

// --- Columns ---

/// Blank cells between adjacent table columns.
pub const COLUMN_GAP: usize = 2;

/// The columns, each at least as wide as the row's cell in it.
pub open spec fn widened(widths: Seq<nat>, cells: Seq<PickerCellView>) -> Seq<nat> {
    Seq::new(
        if cells.len() > widths.len() {
            cells.len()
        } else {
            widths.len()
        },
        |i: int|
            {
                let own = if i < cells.len() {
                    line_columns(cells[i].text)
                } else {
                    0
                };
                if i < widths.len() && widths[i] > own {
                    widths[i]
                } else {
                    own
                }
            },
    )
}

/// Widest cell of every column across the rows.
pub open spec fn column_widths(choices: Seq<PickerChoiceView>) -> Seq<nat>
    decreases choices.len(),
{
    if choices.len() == 0 {
        seq![]
    } else {
        widened(column_widths(choices.drop_last()), choices.last().cells)
    }
}

/// Every cell has a column that is at least as wide as it.
pub proof fn law_cells_fit_columns(choices: Seq<PickerChoiceView>, row: int, index: int)
    requires
        0 <= row < choices.len(),
        0 <= index < choices[row].cells.len(),
    ensures
        index < column_widths(choices).len(),
        line_columns(choices[row].cells[index].text) <= column_widths(choices)[index],
    decreases choices.len(),
{
    if row < choices.len() - 1 {
        assert(choices.drop_last()[row] == choices[row]);
        law_cells_fit_columns(choices.drop_last(), row, index);
    }
}

/// Every column is as wide as some cell in it, so none is wider than it has
/// to be.
pub proof fn law_columns_tight(choices: Seq<PickerChoiceView>, index: int)
    requires
        0 <= index < column_widths(choices).len(),
    ensures
        exists|row: int|
            0 <= row < choices.len() && index < (#[trigger] choices[row]).cells.len()
                && line_columns(choices[row].cells[index].text) == column_widths(choices)[index],
    decreases choices.len(),
{
    let front = choices.drop_last();
    let before = column_widths(front);
    let own = choices.last().cells;
    if index < own.len() && line_columns(own[index].text) == column_widths(choices)[index] {
        assert(choices[choices.len() - 1] == choices.last());
    } else {
        law_columns_tight(front, index);
        let row = choose|row: int|
            0 <= row < front.len() && index < (#[trigger] front[row]).cells.len() && line_columns(
                front[row].cells[index].text,
            ) == before[index];
        assert(choices[row] == front[row]);
    }
}

/// The blanks after a cell: none after the row's last, else what fills its
/// column and the gap to the next.
pub open spec fn padding(width: nat, column: nat, last: bool) -> nat {
    let room = if column + COLUMN_GAP > usize::MAX {
        usize::MAX as int
    } else {
        column + COLUMN_GAP
    };
    if last || width > room {
        0
    } else {
        (room - width) as nat
    }
}

/// A cell and its padding fill the column and the gap.
pub proof fn law_padding_fills_column(choices: Seq<PickerChoiceView>, row: int, index: int)
    requires
        0 <= row < choices.len(),
        0 <= index < choices[row].cells.len() - 1,
    ensures
        ({
            let width = line_columns(choices[row].cells[index].text);
            let column = column_widths(choices)[index];
            column + COLUMN_GAP <= usize::MAX ==> width + padding(width, column, false) == column
                + COLUMN_GAP
        }),
{
    law_cells_fit_columns(choices, row, index);
}

/// The pieces of the first cells of a row, each padded to its column.
pub open spec fn row_spans(
    cells: Seq<PickerCellView>,
    widths: Seq<nat>,
    count: int,
) -> TextLineView
    decreases count,
{
    if count <= 0 {
        TextLineView { spans: Seq::empty() }
    } else {
        let before = row_spans(cells, widths, count - 1);
        let own = cells[count - 1];
        let pad = padding(line_columns(own.text), widths[count - 1], count == cells.len());
        let placed = before.spans.push(span(own.text, own.tone));
        TextLineView {
            spans: if pad > 0 {
                placed.push(span(blanks(pad), Tone::Plain))
            } else {
                placed
            },
        }
    }
}

/// The row as drawn.
pub open spec fn row_line(choice: PickerChoiceView, widths: Seq<nat>) -> TextLineView {
    row_spans(choice.cells, widths, choice.cells.len() as int)
}

/// The columns that the pieces of the first cells of a row take: each cell
/// its width, and its padding one for each blank.
pub open spec fn row_columns(cells: Seq<PickerCellView>, widths: Seq<nat>, count: int) -> nat
    decreases count,
{
    if count <= 0 {
        0
    } else {
        let width = line_columns(cells[count - 1].text);
        row_columns(cells, widths, count - 1) + width + padding(
            width,
            widths[count - 1],
            count == cells.len(),
        )
    }
}

/// Where a column of a table starts: after the columns before it, each with
/// its gap.
pub open spec fn column_start(widths: Seq<nat>, index: int) -> nat
    decreases index,
{
    if index <= 0 {
        0
    } else {
        column_start(widths, index - 1) + widths[index - 1] + COLUMN_GAP as nat
    }
}

/// Each of the first columns can be counted with its gap.
pub open spec fn columns_countable(widths: Seq<nat>, count: int) -> bool {
    forall|i: int| 0 <= i < count ==> #[trigger] widths[i] + COLUMN_GAP <= usize::MAX
}

/// The columns line up down the list: a cell is drawn after the pieces of the
/// cells before it, and these end where its column starts, in every row alike.
pub proof fn law_cells_line_up(choices: Seq<PickerChoiceView>, row: int, index: int)
    requires
        0 <= row < choices.len(),
        0 <= index < choices[row].cells.len(),
        columns_countable(column_widths(choices), index),
    ensures
        ({
            let cells = choices[row].cells;
            let widths = column_widths(choices);
            let before = row_spans(cells, widths, index).spans;
            let drawn = row_line(choices[row], widths).spans;
            &&& row_columns(cells, widths, index) == column_start(widths, index)
            &&& before.len() < drawn.len()
            &&& drawn.take(before.len() as int) == before
            &&& drawn[before.len() as int] == span(cells[index].text, cells[index].tone)
        }),
{
    let cells = choices[row].cells;
    let widths = column_widths(choices);
    lemma_starts_agree(choices, row, index);
    let before = row_spans(cells, widths, index).spans;
    let with_cell = row_spans(cells, widths, index + 1).spans;
    let drawn = row_line(choices[row], widths).spans;
    lemma_spans_begin(cells, widths, index, cells.len() as int);
    lemma_spans_begin(cells, widths, index + 1, cells.len() as int);
    assert(with_cell[before.len() as int] == span(cells[index].text, cells[index].tone));
    assert(drawn.take(with_cell.len() as int)[before.len() as int] == drawn[before.len() as int]);
}

/// Nothing is drawn after the last cell of a row.
pub proof fn law_last_cell_ends_row(choice: PickerChoiceView, widths: Seq<nat>)
    requires
        choice.cells.len() > 0,
    ensures
        row_line(choice, widths).spans.last() == span(
            choice.cells.last().text,
            choice.cells.last().tone,
        ),
{
}

proof fn lemma_starts_agree(choices: Seq<PickerChoiceView>, row: int, index: int)
    requires
        0 <= row < choices.len(),
        0 <= index < choices[row].cells.len(),
        columns_countable(column_widths(choices), index),
    ensures
        row_columns(choices[row].cells, column_widths(choices), index) == column_start(
            column_widths(choices),
            index,
        ),
    decreases index,
{
    if index > 0 {
        lemma_starts_agree(choices, row, index - 1);
        law_cells_fit_columns(choices, row, index - 1);
        law_padding_fills_column(choices, row, index - 1);
        assert(column_widths(choices)[index - 1] + COLUMN_GAP <= usize::MAX);
    }
}

/// The pieces of the first cells begin those of more cells.
proof fn lemma_spans_begin(cells: Seq<PickerCellView>, widths: Seq<nat>, count: int, all: int)
    requires
        0 <= count <= all,
    ensures
        ({
            let few = row_spans(cells, widths, count).spans;
            let many = row_spans(cells, widths, all).spans;
            few.len() <= many.len() && many.take(few.len() as int) == few
        }),
    decreases all - count,
{
    let few = row_spans(cells, widths, count).spans;
    let many = row_spans(cells, widths, all).spans;
    if count == all {
        assert(many.take(few.len() as int) =~= few);
    } else {
        lemma_spans_begin(cells, widths, count, all - 1);
        let most = row_spans(cells, widths, all - 1).spans;
        assert(many.take(most.len() as int) =~= most);
        assert(many.take(few.len() as int) =~= most.take(few.len() as int));
    }
}

/// The widths as numbers.
pub open spec fn widths_view(widths: Seq<usize>) -> Seq<nat> {
    Seq::new(widths.len(), |i: int| widths[i] as nat)
}

impl PickerChoice {
    /// The row as drawn in columns of the given widths.
    pub fn line(&self, widths: &Vec<usize>) -> (r: TextLine)
        requires
            self@.cells.len() <= widths.len(),
        ensures
            r@ == row_line(self@, widths_view(widths@)),
    {
        broadcast use group_views;

        let ghost cells = self@.cells;
        let ghost columns = widths_view(widths@);
        let mut r = TextLine::new();
        let mut i: usize = 0;
        while i < self.cells.len()
            invariant
                i <= self.cells.len() <= widths.len(),
                cells == self@.cells,
                cells == views(self.cells@),
                columns == widths_view(widths@),
                r@ == row_spans(cells, columns, i as int),
            decreases self.cells.len() - i,
        {
            let own = &self.cells[i];
            assert(cells[i as int] == own@);
            assert(columns[i as int] == widths@[i as int]);
            let last = i + 1 == self.cells.len();
            let width = own.width();
            let pad = if last {
                0
            } else {
                widths[i].saturating_add(COLUMN_GAP).saturating_sub(width)
            };
            r.add_span(own.text.duplicate(), own.tone);
            if pad > 0 {
                r.add_span(blank_text(pad), Tone::Plain);
            }
            i = i + 1;
        }
        r
    }
}

proof fn lemma_widened(widths: Seq<usize>, cells: Seq<PickerCellView>, after: Seq<usize>)
    requires
        after.len() == if cells.len() > widths.len() {
            cells.len()
        } else {
            widths.len()
        },
        forall|i: int|
            0 <= i < after.len() ==> #[trigger] after[i] == widened(widths_view(widths), cells)[i],
    ensures
        widths_view(after) == widened(widths_view(widths), cells),
{
    assert(widths_view(after) =~= widened(widths_view(widths), cells));
}

fn widen(widths: &mut Vec<usize>, choice: &PickerChoice)
    ensures
        widths_view(final(widths)@) == widened(widths_view(old(widths)@), choice@.cells),
{
    broadcast use group_views;

    let ghost start = widths@;
    let ghost cells = choice@.cells;
    let ghost goal = widened(widths_view(start), cells);
    let mut i: usize = 0;
    while i < choice.cells.len()
        invariant
            i <= choice.cells.len(),
            cells == choice@.cells,
            cells == views(choice.cells@),
            goal == widened(widths_view(start), cells),
            widths.len() == if i > start.len() {
                i as nat
            } else {
                start.len()
            },
            forall|j: int| 0 <= j < i ==> #[trigger] widths@[j] == goal[j],
            forall|j: int| i <= j < widths.len() ==> #[trigger] widths@[j] == start[j],
        decreases choice.cells.len() - i,
    {
        let width = choice.cells[i].width();
        assert(cells[i as int] == choice.cells@[i as int]@);
        if i < widths.len() {
            assert(widths_view(start)[i as int] == start[i as int]);
            if widths[i] < width {
                widths.set(i, width);
            }
        } else {
            widths.push(width);
        }
        i = i + 1;
    }
    proof {
        assert forall|j: int| 0 <= j < widths.len() implies #[trigger] widths@[j] == goal[j] by {
            if j >= cells.len() {
                assert(widths_view(start)[j] == start[j]);
            }
        }
        lemma_widened(start, cells, widths@);
    }
}

/// Widest cell of every column across the rows, so each cell can be padded to
/// its column.
pub fn picker_columns(choices: &Vec<PickerChoice>) -> (widths: Vec<usize>)
    ensures
        widths_view(widths@) == column_widths(choices.deep_view()),
{
    broadcast use group_views;

    let ghost all = choices.deep_view();
    let mut widths: Vec<usize> = Vec::new();
    let mut i: usize = 0;
    assert(widths_view(widths@) =~= Seq::empty());
    assert(all.take(0) =~= Seq::empty());
    while i < choices.len()
        invariant
            i <= choices.len(),
            all == choices.deep_view(),
            all == views(choices@),
            widths_view(widths@) == column_widths(all.take(i as int)),
        decreases choices.len() - i,
    {
        widen(&mut widths, &choices[i]);
        proof {
            assert(all[i as int] == choices@[i as int]@);
            assert(all.take(i + 1).drop_last() =~= all.take(i as int));
        }
        i = i + 1;
    }
    assert(all.take(all.len() as int) =~= all);
    widths
}

// --- Row maps ---

/// How many items there are among the first rows.
pub open spec fn item_count(choices: Seq<PickerChoiceView>) -> nat
    decreases choices.len(),
{
    if choices.len() == 0 {
        0
    } else {
        item_count(choices.drop_last()) + if choices.last().heading {
            0nat
        } else {
            1nat
        }
    }
}

/// The item in each row; none in a heading.
pub open spec fn row_items(choices: Seq<PickerChoiceView>) -> Seq<Option<usize>> {
    Seq::new(
        choices.len(),
        |i: int|
            if choices[i].heading {
                None
            } else {
                Some(item_count(choices.take(i)) as usize)
            },
    )
}

/// Under a table with one heading, item `i` is in the row after row `i`.
pub proof fn law_heading_shifts_items(choices: Seq<PickerChoiceView>, i: int)
    requires
        0 < i < choices.len() <= usize::MAX,
        choices[0].heading,
        forall|j: int| 0 < j < choices.len() ==> !(#[trigger] choices[j]).heading,
    ensures
        row_items(choices)[0] is None,
        row_items(choices)[i] == Some((i - 1) as usize),
{
    lemma_items_after_heading(choices, i);
}

proof fn lemma_items_after_heading(choices: Seq<PickerChoiceView>, i: int)
    requires
        0 < i <= choices.len(),
        choices[0].heading,
        forall|j: int| 0 < j < choices.len() ==> !(#[trigger] choices[j]).heading,
    ensures
        item_count(choices.take(i)) == i - 1,
    decreases i,
{
    let front = choices.take(i);
    if i == 1 {
        assert(front.drop_last() =~= Seq::empty());
        assert(front.last() == choices[0]);
        assert(item_count(Seq::<PickerChoiceView>::empty()) == 0);
    } else {
        assert(front.drop_last() =~= choices.take(i - 1));
        assert(front.last() == choices[i - 1]);
        lemma_items_after_heading(choices, i - 1);
    }
}

fn map_rows(choices: &Vec<PickerChoice>) -> (row_map: Vec<Option<usize>>)
    ensures
        row_map@ == row_items(choices.deep_view()),
{
    broadcast use group_views;

    let ghost all = choices.deep_view();
    let mut row_map: Vec<Option<usize>> = Vec::new();
    let mut items: usize = 0;
    let mut i: usize = 0;
    assert(all.take(0) =~= Seq::empty());
    while i < choices.len()
        invariant
            i <= choices.len(),
            all == choices.deep_view(),
            all == views(choices@),
            items <= i,
            items == item_count(all.take(i as int)),
            row_map.len() == i,
            forall|j: int| 0 <= j < i ==> #[trigger] row_map@[j] == row_items(all)[j],
        decreases choices.len() - i,
    {
        proof {
            assert(all[i as int] == choices@[i as int]@);
            assert(all.take(i + 1).drop_last() =~= all.take(i as int));
            assert(all.take(i + 1).last() == all[i as int]);
        }
        if choices[i].heading {
            row_map.push(None);
        } else {
            row_map.push(Some(items));
            items = items + 1;
        }
        i = i + 1;
    }
    assert(row_map@ =~= row_items(all));
    row_map
}

// --- Profile tables ---

/// Heading of the profile tables, in the same columns as their rows.
pub open spec fn headings() -> PickerChoiceView {
    PickerChoiceView {
        heading: true,
        ..table_row(
            seq![
                cell(""@, Tone::Plain),
                cell("PROFILE"@, Tone::MutedBold),
                cell("HARNESS"@, Tone::MutedBold),
                cell("WEEKLY"@, Tone::MutedBold),
                cell("5H"@, Tone::MutedBold),
            ],
        )
    }
}

pub fn profile_headings() -> (r: PickerChoice)
    ensures
        r@ == headings(),
{
    broadcast use group_views;

    let mut cells: Vec<PickerCell> = Vec::new();
    cells.push(PickerCell::blank());
    cells.push(PickerCell::styled(owned("PROFILE"), Tone::MutedBold));
    cells.push(PickerCell::styled(owned("HARNESS"), Tone::MutedBold));
    cells.push(PickerCell::styled(owned("WEEKLY"), Tone::MutedBold));
    cells.push(PickerCell::styled(owned("5H"), Tone::MutedBold));
    PickerChoice::heading(cells)
}

/// Profiles whose harness cannot guard risky actions.
pub open spec fn unguarded(harness: HarnessKind) -> bool {
    harness == HarnessKind::Kimi || harness == HarnessKind::Muse
}

/// Profiles whose harness cannot guard risky actions carry a warning triangle
/// in the table and have a footnote below it.
pub fn needs_guardian_warning(harness: HarnessKind) -> (r: bool)
    ensures
        r == unguarded(harness),
{
    harness == HarnessKind::Kimi || harness == HarnessKind::Muse
}

/// The marker cell of a profile row: the warning triangle for a harness that
/// cannot guard risky actions, and a blank cell that keeps the columns aligned
/// for one that can.
pub fn guardian_warning_marker(harness: HarnessKind) -> (r: PickerCell)
    ensures
        r@ == marker_cell(unguarded(harness)),
{
    if needs_guardian_warning(harness) {
        PickerCell::warning_marker()
    } else {
        PickerCell::blank()
    }
}

/// The row below a profile table that explains its warning triangles.
pub open spec fn footnote() -> TextLineView {
    TextLineView {
        spans: seq![
            span("⚠  "@, Tone::Warning),
            span(
                "No guardian approval mode; do not run on a raw, unsandboxed target."@,
                Tone::Muted,
            ),
        ],
    }
}

pub fn guardian_footnote() -> (r: TextLine)
    ensures
        r@ == footnote(),
{
    let mut r = TextLine::new();
    r.add_span(owned("⚠  "), Tone::Warning);
    r.add_span(
        owned("No guardian approval mode; do not run on a raw, unsandboxed target."),
        Tone::Muted,
    );
    r
}

/// The column headings followed by the rows; nothing for no rows, so that an
/// empty list keeps its hint.
pub open spec fn headed(rows: Seq<PickerChoiceView>) -> Seq<PickerChoiceView> {
    if rows.len() == 0 {
        rows
    } else {
        seq![headings()] + rows
    }
}

pub fn profile_table(rows: Vec<PickerChoice>) -> (table: Vec<PickerChoice>)
    ensures
        table.deep_view() == headed(rows.deep_view()),
{
    broadcast use group_views;

    if rows.len() == 0 {
        return rows;
    }
    let mut table = rows;
    table.insert(0, profile_headings());
    assert(table.deep_view() =~= seq![headings()] + rows.deep_view());
    table
}

// --- The picker ---

/// How a picker is moved about in.
#[derive(Debug, PartialEq, Eq)]
pub struct PickerNavigation {
    pub has_back: bool,
    /// Row the keyboard is on, highlighted while the content has focus.
    pub selected: usize,
    pub control: WizardControl,
    pub next_enabled: bool,
    /// A secondary action pinned to the right edge of the action row.
    pub pinned_action: Option<Button>,
    /// Muted line drawn in place of an empty list, so the step never shows a
    /// blank picker.
    pub empty_hint: Option<String>,
}

/// What a [`PickerNavigation`] holds.
#[verifier::ext_equal]
pub struct PickerNavigationView {
    pub has_back: bool,
    pub selected: usize,
    pub control: WizardControl,
    pub next_enabled: bool,
    pub pinned_action: Option<ButtonView>,
    pub empty_hint: Option<Seq<char>>,
}

impl DeepView for PickerNavigation {
    type V = PickerNavigationView;

    open spec fn deep_view(&self) -> PickerNavigationView {
        PickerNavigationView {
            has_back: self.has_back.deep_view(),
            selected: self.selected.deep_view(),
            control: self.control.deep_view(),
            next_enabled: self.next_enabled.deep_view(),
            pinned_action: self.pinned_action.deep_view(),
            empty_hint: self.empty_hint.deep_view(),
        }
    }
}

impl View for PickerNavigation {
    type V = PickerNavigationView;

    open spec fn view(&self) -> PickerNavigationView {
        self.deep_view()
    }
}

/// What a picker shows.
#[derive(Debug, PartialEq, Eq)]
pub struct PickerScreen {
    pub title: String,
    /// Rows of the popup.
    pub height: u16,
    pub rows: Vec<TextLine>,
    /// The item in each row; none in a heading.
    pub row_map: Vec<Option<usize>>,
    pub row_enabled: Vec<bool>,
    pub help: Vec<TextLine>,
    /// Drawn where there are no rows.
    pub hint: Option<String>,
    pub buttons: Vec<Button>,
    pub navigation: PickerNavigation,
}

/// What a [`PickerScreen`] holds.
#[verifier::ext_equal]
pub struct PickerScreenView {
    pub title: Seq<char>,
    pub height: u16,
    pub rows: Seq<TextLineView>,
    pub row_map: Seq<Option<usize>>,
    pub row_enabled: Seq<bool>,
    pub help: Seq<TextLineView>,
    pub hint: Option<Seq<char>>,
    pub buttons: Seq<ButtonView>,
    pub navigation: PickerNavigationView,
}

impl DeepView for PickerScreen {
    type V = PickerScreenView;

    open spec fn deep_view(&self) -> PickerScreenView {
        PickerScreenView {
            title: self.title.deep_view(),
            height: self.height.deep_view(),
            rows: self.rows.deep_view(),
            row_map: self.row_map.deep_view(),
            row_enabled: self.row_enabled.deep_view(),
            help: self.help.deep_view(),
            hint: self.hint.deep_view(),
            buttons: self.buttons.deep_view(),
            navigation: self.navigation.deep_view(),
        }
    }
}

impl View for PickerScreen {
    type V = PickerScreenView;

    open spec fn view(&self) -> PickerScreenView {
        self.deep_view()
    }
}

/// Rows of the popup: every choice, the help, and the frame, within limits.
pub open spec fn popup_rows(choices: nat, help: nat) -> nat {
    let wanted = choices % 65536 + help % 65536 + 6;
    if wanted < 9 {
        9
    } else if wanted > 19 {
        19
    } else {
        wanted
    }
}

/// A picker is as high as its rows and its help need, but no lower than nine
/// rows and no higher than 19.
pub proof fn law_popup_rows_within(choices: nat, help: nat)
    ensures
        9 <= popup_rows(choices, help) <= 19,
        3 <= choices + help <= 13 ==> popup_rows(choices, help) == choices + help + 6,
        choices + help < 3 ==> popup_rows(choices, help) == 9,
        13 < choices + help && choices < 65536 && help < 65536 ==> popup_rows(choices, help) == 19,
{
    assert(choices < 65536 ==> choices % 65536 == choices);
    assert(help < 65536 ==> help % 65536 == help);
}

/// Every row that is no heading holds an item, and the items are counted down
/// the rows from the first.
pub proof fn law_items_counted(choices: Seq<PickerChoiceView>, i: int)
    requires
        0 <= i < choices.len() <= usize::MAX,
        forall|j: int| 0 <= j < choices.len() ==> !(#[trigger] choices[j]).heading,
    ensures
        row_items(choices)[i] == Some(i as usize),
        row_items(choices).len() == choices.len(),
{
    lemma_plain_items_counted(choices.take(i));
}

proof fn lemma_plain_items_counted(choices: Seq<PickerChoiceView>)
    requires
        forall|j: int| 0 <= j < choices.len() ==> !(#[trigger] choices[j]).heading,
    ensures
        item_count(choices) == choices.len(),
    decreases choices.len(),
{
    if choices.len() > 0 {
        assert(!choices[choices.len() - 1].heading);
        lemma_plain_items_counted(choices.drop_last());
    }
}

/// The buttons that move between steps.
pub open spec fn navigation_buttons(has_back: bool, next_enabled: bool) -> Seq<ButtonView> {
    let list = Seq::empty().push(labelled(WizardControl::Cancel, "Cancel"@, true));
    let list = if has_back {
        list.push(labelled(WizardControl::Back, "Back"@, true))
    } else {
        list
    };
    list.push(labelled(WizardControl::Next, "Next"@, next_enabled))
}

/// What a picker shows, drawn in its columns.
pub open spec fn picker_screen(
    title: Seq<char>,
    choices: Seq<PickerChoiceView>,
    help: Seq<TextLineView>,
    navigation: PickerNavigationView,
) -> PickerScreenView {
    PickerScreenView {
        title: trimmed(title),
        height: popup_rows(choices.len(), help.len()) as u16,
        rows: Seq::new(choices.len(), |i: int| row_line(choices[i], column_widths(choices))),
        row_map: row_items(choices),
        row_enabled: Seq::new(choices.len(), |i: int| !choices[i].disabled),
        help,
        hint: if choices.len() == 0 {
            navigation.empty_hint
        } else {
            None
        },
        buttons: navigation_buttons(navigation.has_back, navigation.next_enabled),
        navigation,
    }
}

/// A picker shows a row for every choice, in their order, enabled where the
/// choice is; closing it is always possible, going back where there is a step
/// before, and going on where the selection allows it.
pub proof fn law_picker_shows_choices(
    title: Seq<char>,
    choices: Seq<PickerChoiceView>,
    help: Seq<TextLineView>,
    navigation: PickerNavigationView,
    i: int,
)
    requires
        0 <= i < choices.len(),
        choices[i].cells.len() > 0,
    ensures
        ({
            let screen = picker_screen(title, choices, help, navigation);
            &&& screen.rows.len() == choices.len() && screen.row_enabled.len() == choices.len()
            &&& screen.rows[i].spans.len() > 0
            &&& screen.rows[i].spans[0].text == choices[i].cells[0].text
            &&& screen.rows[i].spans.last().text == choices[i].cells.last().text
            &&& screen.row_enabled[i] == !choices[i].disabled
            &&& screen.help == help && screen.hint is None
            &&& screen.buttons[0].control == WizardControl::Cancel && screen.buttons[0].enabled
            &&& screen.buttons.last().control == WizardControl::Next
            &&& screen.buttons.last().enabled == navigation.next_enabled
            &&& navigation.has_back ==> screen.buttons.len() == 3 && screen.buttons[1].control
                == WizardControl::Back && screen.buttons[1].enabled
            &&& !navigation.has_back ==> screen.buttons.len() == 2
        }),
{
    let widths = column_widths(choices);
    let cells = choices[i].cells;
    lemma_first_span(cells, widths, cells.len() as int);
}

proof fn lemma_first_span(cells: Seq<PickerCellView>, widths: Seq<nat>, count: int)
    requires
        0 < count <= cells.len(),
    ensures
        row_spans(cells, widths, count).spans.len() > 0,
        row_spans(cells, widths, count).spans[0] == span(cells[0].text, cells[0].tone),
    decreases count,
{
    if count > 1 {
        lemma_first_span(cells, widths, count - 1);
    } else {
        assert(row_spans(cells, widths, 0).spans.len() == 0);
    }
}

fn draw_rows(choices: &Vec<PickerChoice>, widths: &Vec<usize>) -> (rows: Vec<TextLine>)
    requires
        widths_view(widths@) == column_widths(choices.deep_view()),
    ensures
        rows.deep_view() == Seq::new(
            choices.deep_view().len(),
            |i: int| row_line(choices.deep_view()[i], column_widths(choices.deep_view())),
        ),
{
    broadcast use group_views;

    let ghost all = choices.deep_view();
    let mut rows: Vec<TextLine> = Vec::new();
    let mut i: usize = 0;
    while i < choices.len()
        invariant
            i <= choices.len(),
            all == choices.deep_view(),
            all == views(choices@),
            widths_view(widths@) == column_widths(all),
            rows.len() == i,
            forall|j: int|
                0 <= j < i ==> (#[trigger] rows@[j])@ == row_line(all[j], column_widths(all)),
        decreases choices.len() - i,
    {
        proof {
            let own = all[i as int];
            assert(own == choices@[i as int]@);
            if own.cells.len() > 0 {
                law_cells_fit_columns(all, i as int, own.cells.len() - 1);
            }
            assert(widths_view(widths@).len() == widths.len());
        }
        rows.push(choices[i].line(widths));
        i = i + 1;
    }
    rows
}

fn enabled_rows(choices: &Vec<PickerChoice>) -> (enabled: Vec<bool>)
    ensures
        enabled@ == Seq::new(choices.deep_view().len(), |i: int| !choices.deep_view()[i].disabled),
{
    broadcast use group_views;

    let ghost all = choices.deep_view();
    let mut enabled: Vec<bool> = Vec::new();
    let mut i: usize = 0;
    while i < choices.len()
        invariant
            i <= choices.len(),
            all == choices.deep_view(),
            all == views(choices@),
            enabled.len() == i,
            forall|j: int| 0 <= j < i ==> #[trigger] enabled@[j] == !all[j].disabled,
        decreases choices.len() - i,
    {
        assert(all[i as int] == choices@[i as int]@);
        enabled.push(!choices[i].disabled);
        i = i + 1;
    }
    enabled
}

/// Lays a picker out: its rows in their columns, what each row stands for,
/// and its buttons.
pub fn render_picker(
    title: &str,
    choices: &Vec<PickerChoice>,
    help: Vec<TextLine>,
    navigation: PickerNavigation,
) -> (screen: PickerScreen)
    requires
        choices.len() % 65536 + help.len() % 65536 + 6 <= 65535,
    ensures
        screen@ == picker_screen(title@, choices.deep_view(), help.deep_view(), navigation@),
{
    broadcast use group_views;

    let widths = picker_columns(choices);
    let wanted = choices.len() % 65536 + help.len() % 65536 + 6;
    let height: u16 = if wanted < 9 {
        9
    } else if wanted > 19 {
        19
    } else {
        wanted as u16
    };
    let mut buttons = no_buttons();
    add_button(&mut buttons, WizardControl::Cancel, "Cancel", true);
    if navigation.has_back {
        add_button(&mut buttons, WizardControl::Back, "Back", true);
    }
    add_button(&mut buttons, WizardControl::Next, "Next", navigation.next_enabled);
    let hint = if choices.len() == 0 {
        navigation.empty_hint.duplicate()
    } else {
        None
    };
    PickerScreen {
        title: trim(title),
        height,
        rows: draw_rows(choices, &widths),
        row_map: map_rows(choices),
        row_enabled: enabled_rows(choices),
        help,
        hint,
        buttons,
        navigation,
    }
}

// --- Where it goes ---

/// The rows that a picker's list takes of its content: its rows, or one for
/// the hint, as far as the help and the buttons leave room.
pub open spec fn list_rows(content: Rect, rows: nat, hint: bool, help: nat) -> nat {
    let wanted = if rows == 0 && hint {
        1
    } else {
        rows_of(rows)
    };
    let room = if content.height > help + 2 {
        (content.height - help - 2) as nat
    } else {
        0
    };
    if wanted > room {
        room
    } else {
        wanted
    }
}

/// The rows that a picker's help takes below its list.
pub open spec fn help_rows(content: Rect, list: nat, help: nat) -> nat {
    let room = if content.height > list + 1 {
        (content.height - list - 1) as nat
    } else {
        0
    };
    if help > room {
        room
    } else {
        help
    }
}

/// Where the list and the help of a picker go within its content.
pub fn picker_layout(content: Rect, rows: usize, hint: bool, help: usize) -> (areas: (Rect, Rect))
    requires
        content.y + content.height < 65535,
        content.fits(),
        help + 2 <= 65535,
    ensures
        ({
            let list = list_rows(content, rows as nat, hint, help as nat);
            &&& areas.0 == rect_new(content.x, content.y, content.width, list as u16)
            &&& areas.1 == rect_new(
                content.x,
                (content.y + list) as u16,
                content.width,
                help_rows(content, list, help as nat) as u16,
            )
        }),
{
    let help = help as u16;
    let least: u16 = if rows == 0 && hint {
        1
    } else {
        0
    };
    let count = row_count(rows);
    let wanted = if count < least {
        least
    } else {
        count
    };
    let room = content.height.saturating_sub(help + 2);
    let height = if wanted > room {
        room
    } else {
        wanted
    };
    let list = Rect::new(content.x, content.y, content.width, height);
    let help_y = list.y.saturating_add(list.height);
    let bottom = content.y.saturating_add(content.height);
    let left = bottom.saturating_sub(help_y + 1);
    let help_height = if help > left {
        left
    } else {
        help
    };
    (list, Rect::new(content.x, help_y, content.width, help_height))
}

/// A list that has room is shown whole, with its help whole below it where that
/// has room too.
pub proof fn law_picker_shows_rows(content: Rect, rows: nat, hint: bool, help: nat)
    requires
        rows + help + 2 <= content.height,
        rows > 0,
    ensures
        list_rows(content, rows, hint, help) == rows,
        help_rows(content, rows, help) == help,
{
}

/// The list and the help leave the last row of the content to the buttons.
/// The list and the help leave the last row of the content to the buttons.
pub proof fn law_picker_leaves_button_row(content: Rect, rows: nat, hint: bool, help: nat)
    requires
        content.height > 0,
    ensures
        ({
            let list = list_rows(content, rows, hint, help);
            list + help_rows(content, list, help) < content.height
        }),
{
}

/// The columns of a row of buttons: each its label and its frame, with a
/// blank between two.
pub open spec fn buttons_width(buttons: Seq<ButtonView>) -> nat
    decreases buttons.len(),
{
    if buttons.len() == 0 {
        0
    } else {
        buttons_width(buttons.drop_last()) + line_columns(buttons.last().label) + 4 + if buttons.len()
            == 1 {
            0nat
        } else {
            1nat
        }
    }
}

/// The pinned action fits beside the others.
pub open spec fn pins(buttons: Seq<ButtonView>, pinned: ButtonView, width: u16) -> bool {
    buttons_width(buttons) + 1 + line_columns(pinned.label) + 4 <= width
}

/// The buttons of a row, and the one that is pinned to its right edge. An
/// action that does not fit there goes before the last of the others.
pub open spec fn arranged(buttons: Seq<ButtonView>, pinned: Option<ButtonView>, width: u16) -> (
    Seq<ButtonView>,
    Option<ButtonView>,
) {
    match pinned {
        Some(action) => if pins(buttons, action, width) {
            (buttons, Some(action))
        } else {
            (buttons.insert(buttons.len() - 1, action), None)
        },
        None => (buttons, None),
    }
}

/// No button is lost: one that is to be pinned is pinned where the row has
/// columns for all of them, and otherwise stands before the last.
pub proof fn law_buttons_arranged(buttons: Seq<ButtonView>, pinned: ButtonView, width: u16)
    requires
        buttons.len() > 0,
    ensures
        arranged(buttons, None, width) == (buttons, None::<ButtonView>),
        ({
            let (row, right) = arranged(buttons, Some(pinned), width);
            let columns = buttons_width(buttons) + line_columns(pinned.label) + 5;
            &&& columns <= width ==> row == buttons && right == Some(pinned)
            &&& columns > width ==> {
                &&& right is None && row.len() == buttons.len() + 1
                &&& row[buttons.len() - 1] == pinned && row.last() == buttons.last()
                &&& forall|i: int| 0 <= i < buttons.len() - 1 ==> #[trigger] row[i] == buttons[i]
            }
        }),
{
}

/// A row of buttons takes the columns of their labels, four for each frame, and
/// one between two.
pub proof fn law_button_columns(buttons: Seq<ButtonView>, next: ButtonView)
    ensures
        buttons.len() == 0 ==> buttons_width(buttons.push(next)) == line_columns(next.label) + 4,
        buttons.len() > 0 ==> buttons_width(buttons.push(next)) == buttons_width(buttons) + 1
            + line_columns(next.label) + 4,
{
    assert(buttons.push(next).drop_last() =~= buttons);
    assert(buttons_width(Seq::empty()) == 0);
    if buttons.len() == 0 {
        assert(buttons =~= Seq::empty());
    }
}

fn width_of_buttons(buttons: &Vec<Button>) -> (width: usize)
    ensures
        width == if buttons_width(buttons.deep_view()) > usize::MAX {
            usize::MAX as nat
        } else {
            buttons_width(buttons.deep_view())
        },
{
    broadcast use group_views;

    let ghost all = buttons.deep_view();
    let mut width: usize = 0;
    let mut i: usize = 0;
    assert(all.take(0) =~= Seq::empty());
    while i < buttons.len()
        invariant
            i <= buttons.len(),
            all == buttons.deep_view(),
            all == views(buttons@),
            width == if buttons_width(all.take(i as int)) > usize::MAX {
                usize::MAX as nat
            } else {
                buttons_width(all.take(i as int))
            },
        decreases buttons.len() - i,
    {
        proof {
            assert(all[i as int] == buttons@[i as int]@);
            assert(all.take(i + 1).drop_last() =~= all.take(i as int));
        }
        let own = line_width(buttons[i].label.as_str());
        width = width.saturating_add(own).saturating_add(4);
        if i > 0 {
            width = width.saturating_add(1);
        }
        i = i + 1;
    }
    assert(all.take(all.len() as int) =~= all);
    width
}

/// Arranges the buttons of a picker in a row of `width` columns.
pub fn arrange_buttons(buttons: Vec<Button>, pinned: Option<Button>, width: u16) -> (row: (
    Vec<Button>,
    Option<Button>,
))
    requires
        buttons.len() > 0,
    ensures
        (row.0.deep_view(), row.1.deep_view()) == arranged(
            buttons.deep_view(),
            pinned.deep_view(),
            width,
        ),
{
    broadcast use group_views;

    let mut buttons = buttons;
    match pinned {
        Some(action) => {
            let taken = width_of_buttons(&buttons).saturating_add(1).saturating_add(
                line_width(action.label.as_str()),
            ).saturating_add(4);
            if taken <= width as usize {
                return (buttons, Some(action));
            }
            let last = buttons.len() - 1;
            buttons.insert(last, action);
            (buttons, None)
        },
        None => (buttons, None),
    }
}

} // verus!
