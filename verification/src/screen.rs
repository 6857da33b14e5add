//! Text and buttons as a screen shows them.

use vstd::prelude::*;

use crate::drafts::WizardControl;
use crate::duplicate::{owned, Duplicate};
#[allow(unused_imports)]
use crate::duplicate::group_views;

verus! {

/// How a piece of text is set off.
#[derive(Debug, Clone, Copy, PartialEq, Eq, Structural)]
pub enum Tone {
    Plain,
    Muted,
    MutedBold,
    Text,
    TextBold,
    SecondaryBold,
    Accent,
    Warning,
    Error,
    ErrorBold,
    /// As the number in a heading.
    Title,
    /// As the row that has the focus.
    Selection,
}

impl DeepView for Tone {
    type V = Tone;

    open spec fn deep_view(&self) -> Tone {
        *self
    }
}

impl Duplicate for Tone {
    fn duplicate(&self) -> (copy: Tone) {
        *self
    }
}

/// A piece of text in one tone.
#[derive(Debug, PartialEq, Eq)]
pub struct Span {
    pub text: String,
    pub tone: Tone,
}

/// What a [`Span`] holds.
#[verifier::ext_equal]
pub struct SpanView {
    pub text: Seq<char>,
    pub tone: Tone,
}

impl DeepView for Span {
    type V = SpanView;

    open spec fn deep_view(&self) -> SpanView {
        SpanView {
            text: self.text.deep_view(),
            tone: self.tone.deep_view(),
        }
    }
}

impl View for Span {
    type V = SpanView;

    open spec fn view(&self) -> SpanView {
        self.deep_view()
    }
}

impl Duplicate for Span {
    fn duplicate(&self) -> (copy: Span) {
        Span {
            text: self.text.duplicate(),
            tone: self.tone.duplicate(),
        }
    }
}

/// A line of text.
#[derive(Debug, PartialEq, Eq)]
pub struct TextLine {
    pub spans: Vec<Span>,
}

/// What a [`TextLine`] holds.
#[verifier::ext_equal]
pub struct TextLineView {
    pub spans: Seq<SpanView>,
}

impl DeepView for TextLine {
    type V = TextLineView;

    open spec fn deep_view(&self) -> TextLineView {
        TextLineView {
            spans: self.spans.deep_view(),
        }
    }
}

impl View for TextLine {
    type V = TextLineView;

    open spec fn view(&self) -> TextLineView {
        self.deep_view()
    }
}

impl Duplicate for TextLine {
    fn duplicate(&self) -> (copy: TextLine) {
        TextLine {
            spans: self.spans.duplicate(),
        }
    }
}

/// A button.
#[derive(Debug, PartialEq, Eq)]
pub struct Button {
    pub control: WizardControl,
    pub label: String,
    pub enabled: bool,
}

/// What a [`Button`] holds.
#[verifier::ext_equal]
pub struct ButtonView {
    pub control: WizardControl,
    pub label: Seq<char>,
    pub enabled: bool,
}

impl DeepView for Button {
    type V = ButtonView;

    open spec fn deep_view(&self) -> ButtonView {
        ButtonView {
            control: self.control.deep_view(),
            label: self.label.deep_view(),
            enabled: self.enabled.deep_view(),
        }
    }
}

impl View for Button {
    type V = ButtonView;

    open spec fn view(&self) -> ButtonView {
        self.deep_view()
    }
}

impl Duplicate for Button {
    fn duplicate(&self) -> (copy: Button) {
        Button {
            control: self.control.duplicate(),
            label: self.label.duplicate(),
            enabled: self.enabled.duplicate(),
        }
    }
}

/// A checkbox on a row of its dialog.
#[derive(Debug, PartialEq, Eq)]
pub struct Checkbox {
    pub row: u16,
    pub label: String,
    pub checked: bool,
    pub enabled: bool,
}

/// What a [`Checkbox`] holds.
#[verifier::ext_equal]
pub struct CheckboxView {
    pub row: u16,
    pub label: Seq<char>,
    pub checked: bool,
    pub enabled: bool,
}

impl DeepView for Checkbox {
    type V = CheckboxView;

    open spec fn deep_view(&self) -> CheckboxView {
        CheckboxView {
            row: self.row,
            label: self.label.deep_view(),
            checked: self.checked,
            enabled: self.enabled,
        }
    }
}

impl View for Checkbox {
    type V = CheckboxView;

    open spec fn view(&self) -> CheckboxView {
        self.deep_view()
    }
}

pub open spec fn span(text: Seq<char>, tone: Tone) -> SpanView {
    SpanView { text, tone }
}

/// A line in one tone.
pub open spec fn line(text: Seq<char>, tone: Tone) -> TextLineView {
    TextLineView { spans: seq![span(text, tone)] }
}

pub open spec fn labelled(control: WizardControl, label: Seq<char>, enabled: bool) -> ButtonView {
    ButtonView { control, label, enabled }
}

/// A number of blanks.
pub open spec fn blanks(count: nat) -> Seq<char> {
    Seq::new(count, |i: int| ' ')
}

impl TextLine {
    pub fn new() -> (empty: TextLine)
        ensures
            empty@ == (TextLineView { spans: Seq::empty() }),
    {
        broadcast use group_views;

        TextLine { spans: Vec::new() }
    }

    pub fn styled(text: String, tone: Tone) -> (r: TextLine)
        ensures
            r@ == line(text@, tone),
    {
        let mut r = TextLine::new();
        r.add_span(text, tone);
        r
    }

    pub fn add_span(&mut self, text: String, tone: Tone)
        ensures
            final(self)@ == (TextLineView { spans: old(self)@.spans.push(span(text@, tone)) }),
    {
        broadcast use group_views;

        self.spans.push(Span { text, tone });
    }
}

/// Adds a line in one tone.
pub fn add_line(list: &mut Vec<TextLine>, text: String, tone: Tone)
    ensures
        final(list).deep_view() == old(list).deep_view().push(line(text@, tone)),
{
    broadcast use group_views;

    list.push(TextLine::styled(text, tone));
}

/// Adds a line of fixed text.
pub fn add_text(list: &mut Vec<TextLine>, text: &str, tone: Tone)
    ensures
        final(list).deep_view() == old(list).deep_view().push(line(text@, tone)),
{
    add_line(list, owned(text), tone);
}

/// Adds a line of several pieces.
pub fn add_spans(list: &mut Vec<TextLine>, added: TextLine)
    ensures
        final(list).deep_view() == old(list).deep_view().push(added@),
{
    broadcast use group_views;

    list.push(added);
}

/// Adds a button.
pub fn add_button(list: &mut Vec<Button>, control: WizardControl, label: &str, enabled: bool)
    ensures
        final(list).deep_view() == old(list).deep_view().push(labelled(control, label@, enabled)),
{
    broadcast use group_views;

    list.push(Button { control, label: owned(label), enabled });
}

/// The list followed by a line for each of some items.
pub open spec fn followed<A>(
    list: Seq<TextLineView>,
    items: Seq<A>,
    shown: spec_fn(int, A) -> TextLineView,
) -> Seq<TextLineView>
    decreases items.len(),
{
    if items.len() == 0 {
        list
    } else {
        followed(list, items.drop_last(), shown).push(shown(items.len() - 1, items.last()))
    }
}

/// Each item has a line of its own, in order, after those that were there.
pub proof fn law_followed_lines<A>(
    list: Seq<TextLineView>,
    items: Seq<A>,
    shown: spec_fn(int, A) -> TextLineView,
    i: int,
)
    ensures
        followed(list, items, shown).len() == list.len() + items.len(),
        0 <= i < list.len() ==> followed(list, items, shown)[i] == list[i],
        0 <= i < items.len() ==> followed(list, items, shown)[list.len() + i] == shown(i, items[i]),
    decreases items.len(),
{
    if items.len() > 0 {
        law_followed_lines(list, items.drop_last(), shown, i);
    }
}

/// No lines.
pub fn no_lines() -> (list: Vec<TextLine>)
    ensures
        list.deep_view() == Seq::<TextLineView>::empty(),
{
    broadcast use group_views;

    Vec::new()
}

/// No buttons.
pub fn no_buttons() -> (list: Vec<Button>)
    ensures
        list.deep_view() == Seq::<ButtonView>::empty(),
{
    broadcast use group_views;

    Vec::new()
}

pub fn blank_text(count: usize) -> (text: String)
    ensures
        text@ == blanks(count as nat),
{
    let mut text = String::new();
    let mut i: usize = 0;
    proof {
        reveal_strlit(" ");
    }
    assert(text@ =~= blanks(0));
    while i < count
        invariant
            i <= count,
            text@ == blanks(i as nat),
            " "@ == seq![' '],
        decreases count - i,
    {
        text.append(" ");
        i = i + 1;
        assert(text@ =~= blanks(i as nat));
    }
    text
}

/// A length as rows of a screen, as many as there can be.
pub open spec fn rows_of(len: nat) -> nat {
    if len > 65535 {
        65535
    } else {
        len
    }
}

pub fn row_count(len: usize) -> (rows: u16)
    ensures
        rows == rows_of(len as nat),
{
    if len > 65535 {
        65535
    } else {
        len as u16
    }
}

/// A sum of rows, as many as there can be.
pub open spec fn rows_and(a: nat, b: nat) -> nat {
    rows_of(a + b)
}

} // verus!
