//! Cutting text to a line and to a width.

use unicode_width::{UnicodeWidthChar, UnicodeWidthStr};
use vstd::prelude::*;

verus! {

// --- Widths ---

/// How many terminal columns a text takes.
pub uninterp spec fn display_width(text: Seq<char>) -> nat;

/// How many terminal columns a character takes; nothing for a control
/// character.
pub uninterp spec fn char_columns(c: char) -> Option<nat>;

/// `UnicodeWidthStr::width` of `unicode-width`: the columns of a text. Which
/// number that is follows from the Unicode tables of that crate and is not
/// stated here; it is a function of the text alone.
#[verifier::external_body]
pub(crate) fn text_width(text: &str) -> (columns: usize)
    ensures
        columns == display_width(text@),
{
    UnicodeWidthStr::width(text)
}

/// `UnicodeWidthChar::width` of `unicode-width`: the columns of one
/// character, or nothing for a control character. Which number that is follows
/// from the Unicode tables of that crate and is not stated here; it is a
/// function of the character alone.
#[verifier::external_body]
pub(crate) fn char_width(c: char) -> (columns: Option<usize>)
    ensures
        columns.is_some() == char_columns(c).is_some(),
        columns matches Some(w) ==> char_columns(c) == Some(w as nat),
{
    UnicodeWidthChar::width(c)
}

/// The columns a character is counted with.
pub open spec fn counted_columns(c: char) -> nat {
    match char_columns(c) {
        Some(w) => w,
        None => 0,
    }
}

/// The columns of the characters of a text, one by one.
pub open spec fn char_widths(text: Seq<char>) -> Seq<nat> {
    Seq::new(text.len(), |i: int| counted_columns(text[i]))
}

/// The columns taken together.
pub open spec fn total_width(widths: Seq<nat>) -> nat
    decreases widths.len(),
{
    if widths.len() == 0 {
        0
    } else {
        widths[0] + total_width(widths.drop_first())
    }
}

/// How many of the widths, from the first on, take at most `columns`.
pub open spec fn kept_count(widths: Seq<nat>, columns: nat) -> nat
    decreases widths.len(),
{
    if widths.len() == 0 || widths[0] > columns {
        0
    } else {
        1 + kept_count(widths.drop_first(), (columns - widths[0]) as nat)
    }
}

/// `text`, which takes `columns` and its characters `widths`, cut to `width`
/// columns: unchanged where it fits, else its beginning and three dots, or its
/// beginning alone where three dots leave no room.
pub open spec fn cut_measured(
    text: Seq<char>,
    columns: nat,
    widths: Seq<nat>,
    width: nat,
) -> Seq<char> {
    if columns <= width {
        text
    } else if width > 3 {
        text.take(kept_count(widths, (width - 3) as nat) as int) + seq!['.', '.', '.']
    } else {
        text.take(kept_count(widths, width) as int)
    }
}

/// `text` cut to `width` columns.
pub open spec fn truncated(text: Seq<char>, width: nat) -> Seq<char> {
    cut_measured(text, display_width(text), char_widths(text), width)
}

/// A text that fits is shown whole. A longer one is shown from its start, with
/// three dots behind it where they leave room for more than themselves.
pub proof fn law_truncation_shows_start(text: Seq<char>, width: nat)
    ensures
        ({
            let shown = truncated(text, width);
            &&& display_width(text) <= width ==> shown == text
            &&& display_width(text) > width > 3 ==> {
                &&& shown.len() >= 3
                &&& shown.len() - 3 <= text.len()
                &&& shown.take(shown.len() - 3) == text.take(shown.len() - 3)
                &&& shown.skip(shown.len() - 3) == seq!['.', '.', '.']
            }
            &&& display_width(text) > width && width <= 3 ==> shown.is_prefix_of(text)
        }),
{
    let widths = char_widths(text);
    let dots = seq!['.', '.', '.'];
    if display_width(text) > width {
        if width > 3 {
            law_kept_fits(widths, (width - 3) as nat);
            let start = text.take(kept_count(widths, (width - 3) as nat) as int);
            assert((start + dots).take(start.len() as int) =~= start);
            assert((start + dots).skip(start.len() as int) =~= dots);
        } else {
            law_kept_fits(widths, width);
        }
    }
}

/// What is kept takes no more columns than it was given, and with one
/// character more it would.
pub proof fn law_kept_fits(widths: Seq<nat>, columns: nat)
    ensures
        kept_count(widths, columns) <= widths.len(),
        total_width(widths.take(kept_count(widths, columns) as int)) <= columns,
        kept_count(widths, columns) < widths.len() ==> total_width(
            widths.take(1 + kept_count(widths, columns) as int),
        ) > columns,
    decreases widths.len(),
{
    let kept = kept_count(widths, columns);
    if widths.len() > 0 && widths[0] <= columns {
        let rest = widths.drop_first();
        law_kept_fits(rest, (columns - widths[0]) as nat);
        assert(widths.take(kept as int).drop_first() =~= rest.take(kept - 1));
        if kept < widths.len() {
            assert(widths.take(1 + kept as int).drop_first() =~= rest.take(kept as int));
        }
    } else {
        assert(widths.take(0) =~= Seq::empty());
        if widths.len() > 0 {
            assert(widths.take(1)[0] == widths[0]);
        }
    }
}

/// The widths as numbers.
pub open spec fn width_numbers(widths: Seq<usize>) -> Seq<nat> {
    Seq::new(widths.len(), |i: int| widths[i] as nat)
}

fn count_kept(widths: &Vec<usize>, columns: usize) -> (count: usize)
    ensures
        count == kept_count(width_numbers(widths@), columns as nat),
        count <= widths.len(),
{
    let ghost all = width_numbers(widths@);
    let mut left: usize = columns;
    let mut i: usize = 0;
    assert(all.skip(0) =~= all);
    while i < widths.len()
        invariant
            i <= widths.len(),
            all == width_numbers(widths@),
            i + kept_count(all.skip(i as int), left as nat) == kept_count(all, columns as nat),
        decreases widths.len() - i,
    {
        assert(all.skip(i as int)[0] == widths@[i as int]);
        if widths[i] > left {
            return i;
        }
        assert(all.skip(i as int).drop_first() =~= all.skip(i + 1));
        left = left - widths[i];
        i = i + 1;
    }
    i
}

/// `line` cut to `width` columns, given the columns that it takes and those of
/// each of its characters, with three dots where something was left out and
/// there is room for them.
pub fn cut_to_width(line: String, columns: usize, widths: &Vec<usize>, width: u16) -> (text: String)
    requires
        widths.len() == line@.len(),
    ensures
        text@ == cut_measured(line@, columns as nat, width_numbers(widths@), width as nat),
{
    let cap = width as usize;
    if columns <= cap {
        return line;
    }
    if cap > 3 {
        let kept = count_kept(widths, cap - 3);
        let mut out = line.as_str().substring_char(0, kept).to_owned();
        proof {
            reveal_strlit("...");
            assert(line@.subrange(0, kept as int) =~= line@.take(kept as int));
            assert("..."@ =~= seq!['.', '.', '.']);
        }
        out.append("...");
        out
    } else {
        let kept = count_kept(widths, cap);
        assert(line@.subrange(0, kept as int) =~= line@.take(kept as int));
        line.as_str().substring_char(0, kept).to_owned()
    }
}

fn measure_chars(text: &str) -> (widths: Vec<usize>)
    ensures
        width_numbers(widths@) == char_widths(text@),
{
    let len = text.unicode_len();
    let mut widths: Vec<usize> = Vec::new();
    let mut i: usize = 0;
    while i < len
        invariant
            len == text@.len(),
            i <= len,
            widths.len() == i,
            forall|j: int| 0 <= j < i ==> #[trigger] widths@[j] == counted_columns(text@[j]),
        decreases len - i,
    {
        let w: usize = match char_width(text.get_char(i)) {
            Some(w) => w,
            None => 0,
        };
        widths.push(w);
        i = i + 1;
    }
    assert(width_numbers(widths@) =~= char_widths(text@));
    widths
}

/// `line` cut to `width` columns, with three dots where something was left
/// out and there is room for them.
pub fn truncate_text_to_width(line: String, width: u16) -> (text: String)
    ensures
        text@ == truncated(line@, width as nat),
{
    let columns = text_width(line.as_str());
    let widths = measure_chars(line.as_str());
    assert(width_numbers(widths@).len() == widths.len());
    cut_to_width(line, columns, &widths, width)
}

// --- White space ---

/// The characters of the Unicode property White_Space.
pub open spec fn white_space(c: char) -> bool {
    ||| '\u{9}' <= c <= '\u{d}'
    ||| c == '\u{20}'
    ||| c == '\u{85}'
    ||| c == '\u{a0}'
    ||| c == '\u{1680}'
    ||| '\u{2000}' <= c <= '\u{200a}'
    ||| c == '\u{2028}'
    ||| c == '\u{2029}'
    ||| c == '\u{202f}'
    ||| c == '\u{205f}'
    ||| c == '\u{3000}'
}

fn is_white_space(c: char) -> (r: bool)
    ensures
        r == white_space(c),
{
    ('\u{9}' <= c && c <= '\u{d}') || c == '\u{20}' || c == '\u{85}' || c == '\u{a0}' || c
        == '\u{1680}' || ('\u{2000}' <= c && c <= '\u{200a}') || c == '\u{2028}' || c == '\u{2029}'
        || c == '\u{202f}' || c == '\u{205f}' || c == '\u{3000}'
}

/// `text` without the white space before its first other character.
pub open spec fn trimmed_start(text: Seq<char>) -> Seq<char>
    decreases text.len(),
{
    if text.len() > 0 && white_space(text[0]) {
        trimmed_start(text.drop_first())
    } else {
        text
    }
}

/// `text` without the white space after its last other character.
pub open spec fn trimmed_end(text: Seq<char>) -> Seq<char>
    decreases text.len(),
{
    if text.len() > 0 && white_space(text.last()) {
        trimmed_end(text.drop_last())
    } else {
        text
    }
}

/// `text` without white space at either end.
pub open spec fn trimmed(text: Seq<char>) -> Seq<char> {
    trimmed_end(trimmed_start(text))
}

/// Blanks, tabs and ends of lines are white space; what is printed of ASCII is
/// not.
pub proof fn law_white_space(c: char)
    ensures
        white_space(' '),
        white_space('\t'),
        white_space('\n'),
        white_space('\r'),
        '!' <= c <= '~' ==> !white_space(c),
{
}

/// What is trimmed off at the start is white space, and what is left does not
/// start with any.
proof fn lemma_start_trimmed(text: Seq<char>) -> (from: int)
    ensures
        0 <= from <= text.len(),
        trimmed_start(text) == text.skip(from),
        forall|i: int| 0 <= i < from ==> white_space(#[trigger] text[i]),
        from < text.len() ==> !white_space(text[from]),
    decreases text.len(),
{
    if text.len() > 0 && white_space(text[0]) {
        let rest = text.drop_first();
        let inner = lemma_start_trimmed(rest);
        assert(rest.skip(inner) =~= text.skip(inner + 1));
        assert forall|i: int| 0 <= i < inner + 1 implies white_space(#[trigger] text[i]) by {
            if i > 0 {
                assert(rest[i - 1] == text[i]);
            }
        }
        if inner + 1 < text.len() {
            assert(rest[inner] == text[inner + 1]);
        }
        inner + 1
    } else {
        assert(text.skip(0) =~= text);
        0
    }
}

/// What is trimmed off at the end is white space, and what is left does not end
/// with any.
proof fn lemma_end_trimmed(text: Seq<char>) -> (to: int)
    ensures
        0 <= to <= text.len(),
        trimmed_end(text) == text.take(to),
        forall|i: int| to <= i < text.len() ==> white_space(#[trigger] text[i]),
        to > 0 ==> !white_space(text[to - 1]),
    decreases text.len(),
{
    if text.len() > 0 && white_space(text.last()) {
        let rest = text.drop_last();
        let inner = lemma_end_trimmed(rest);
        assert(rest.take(inner) =~= text.take(inner));
        assert forall|i: int| inner <= i < text.len() implies white_space(#[trigger] text[i]) by {
            if i < rest.len() {
                assert(rest[i] == text[i]);
            }
        }
        if inner > 0 {
            assert(rest[inner - 1] == text[inner - 1]);
        }
        inner
    } else {
        assert(text.take(text.len() as int) =~= text);
        text.len() as int
    }
}

/// Trimming takes off white space at both ends and nothing else: what is left
/// stands together in the text, all around it is white space, and neither its
/// first nor its last character is.
pub proof fn law_trimming_takes_white_space(text: Seq<char>)
    ensures
        exists|from: int, to: int|
            0 <= from <= to <= text.len() && trimmed(text) == #[trigger] text.subrange(from, to)
                && (forall|i: int|
                0 <= i < text.len() && !(from <= i < to) ==> white_space(#[trigger] text[i]))
                && (from < to ==> !white_space(text[from]) && !white_space(text[to - 1])),
{
    let from = lemma_start_trimmed(text);
    let rest = text.skip(from);
    let left = lemma_end_trimmed(rest);
    let to = from + left;
    assert(rest.take(left) =~= text.subrange(from, to));
    assert forall|i: int| 0 <= i < text.len() && !(from <= i < to) implies white_space(
        #[trigger] text[i],
    ) by {
        if i >= to {
            assert(rest[i - from] == text[i]);
        }
    }
    if from < to {
        assert(rest[0] == text[from]);
        assert(rest[left - 1] == text[to - 1]);
    }
    assert(trimmed(text) == text.subrange(from, to));
}

/// Trimming what was trimmed changes nothing.
pub proof fn law_trimming_twice(text: Seq<char>)
    ensures
        trimmed(trimmed(text)) == trimmed(text),
{
    let from = lemma_start_trimmed(text);
    let rest = text.skip(from);
    let left = lemma_end_trimmed(rest);
    let once = rest.take(left);
    if left > 0 {
        assert(once[0] == text[from]);
        assert(once[once.len() - 1] == rest[left - 1]);
    }
}

/// The part of `text` from `from` on without white space at either end.
fn trim_range(text: &str, from: usize, to: usize) -> (r: (usize, usize))
    requires
        from <= to <= text@.len(),
    ensures
        from <= r.0 <= r.1 <= to,
        text@.subrange(r.0 as int, r.1 as int) == trimmed(
            text@.subrange(from as int, to as int),
        ),
{
    let ghost whole = text@.subrange(from as int, to as int);
    let mut start: usize = from;
    while start < to && is_white_space(text.get_char(start))
        invariant
            from <= start <= to <= text@.len(),
            trimmed_start(text@.subrange(start as int, to as int)) == trimmed_start(whole),
        decreases to - start,
    {
        assert(text@.subrange(start as int, to as int).drop_first() =~= text@.subrange(
            start + 1,
            to as int,
        ));
        start = start + 1;
    }
    let ghost tail = text@.subrange(start as int, to as int);
    assert(tail == trimmed_start(whole)) by {
        if start < to {
            assert(tail[0] == text@[start as int]);
        }
    }
    let mut end: usize = to;
    while end > start && is_white_space(text.get_char(end - 1))
        invariant
            from <= start <= end <= to <= text@.len(),
            trimmed_end(text@.subrange(start as int, end as int)) == trimmed_end(tail),
        decreases end - start,
    {
        assert(text@.subrange(start as int, end as int).drop_last() =~= text@.subrange(
            start as int,
            end - 1,
        ));
        end = end - 1;
    }
    (start, end)
}

/// `text` without white space at either end.
pub fn trim(text: &str) -> (r: String)
    ensures
        r@ == trimmed(text@),
{
    let len = text.unicode_len();
    let (start, end) = trim_range(text, 0, len);
    assert(text@.subrange(0, len as int) =~= text@);
    text.substring_char(start, end).to_owned()
}

/// Whether `text` holds nothing but white space.
pub fn is_blank(text: &str) -> (r: bool)
    ensures
        r == (trimmed(text@).len() == 0),
{
    let len = text.unicode_len();
    let (start, end) = trim_range(text, 0, len);
    assert(text@.subrange(0, len as int) =~= text@);
    start == end
}

// --- Lines ---

/// `text` up to its first line feed.
pub open spec fn opening_line(text: Seq<char>) -> Seq<char>
    decreases text.len(),
{
    if text.len() == 0 || text[0] == '\n' {
        seq![]
    } else {
        seq![text[0]] + opening_line(text.drop_first())
    }
}

/// The first line of `text` without white space at its ends, cut to `max`
/// characters with an ellipsis as the last one. Where there is no room for the
/// ellipsis either, nothing is left.
pub open spec fn shortened_line(text: Seq<char>, max: nat) -> Seq<char> {
    let line = trimmed(opening_line(text));
    if line.len() <= max {
        line
    } else if max == 0 {
        seq![]
    } else {
        line.take(max - 1).push('…')
    }
}

/// The opening line is the text up to its first end of a line, or all of it.
pub proof fn law_opening_line_ends(text: Seq<char>)
    ensures
        opening_line(text).is_prefix_of(text),
        !opening_line(text).contains('\n'),
        opening_line(text).len() < text.len() ==> text[opening_line(text).len() as int] == '\n',
    decreases text.len(),
{
    let line = opening_line(text);
    if text.len() > 0 && text[0] != '\n' {
        let rest = text.drop_first();
        law_opening_line_ends(rest);
        let tail = opening_line(rest);
        assert forall|i: int| 0 <= i < line.len() implies line[i] == text[i] && line[i] != '\n' by {
            if i > 0 {
                assert(line[i] == tail[i - 1]);
                assert(tail.contains(tail[i - 1]));
                assert(tail == rest.take(tail.len() as int));
                assert(rest[i - 1] == text[i]);
            }
        }
        assert(line =~= text.take(line.len() as int));
        if line.len() < text.len() {
            assert(rest[tail.len() as int] == text[line.len() as int]);
        }
    } else {
        assert(line =~= text.take(0));
    }
}

/// A line that fits is shown whole; a longer one is shown from its start, as
/// far as it goes, with an ellipsis at the end.
pub proof fn law_shortened_line_shows_start(text: Seq<char>, max: nat)
    ensures
        ({
            let line = trimmed(opening_line(text));
            let shown = shortened_line(text, max);
            &&& line.len() <= max ==> shown == line
            &&& line.len() > max > 0 ==> {
                &&& shown.len() == max && shown.last() == '…'
                &&& forall|i: int| 0 <= i < max - 1 ==> #[trigger] shown[i] == line[i]
            }
            &&& line.len() > max == 0 ==> shown.len() == 0
        }),
{
}

/// A shortened line has at most `max` characters, and no more than the line
/// had.
pub proof fn law_shortened_line_length(text: Seq<char>, max: nat)
    ensures
        shortened_line(text, max).len() <= max,
        shortened_line(text, max).len() <= trimmed(opening_line(text)).len(),
{
}

fn opening_line_length(text: &str) -> (count: usize)
    ensures
        count <= text@.len(),
        text@.take(count as int) == opening_line(text@),
{
    let len = text.unicode_len();
    let mut i: usize = 0;
    assert(text@.take(0) =~= Seq::empty());
    assert(text@.skip(0) =~= text@);
    while i < len
        invariant
            len == text@.len(),
            i <= len,
            text@.take(i as int) + opening_line(text@.skip(i as int)) == opening_line(text@),
        decreases len - i,
    {
        let c = text.get_char(i);
        assert(text@.skip(i as int)[0] == c);
        if c == '\n' {
            assert(text@.take(i as int) + Seq::<char>::empty() =~= text@.take(i as int));
            return i;
        }
        assert(text@.skip(i as int).drop_first() =~= text@.skip(i + 1));
        assert(text@.take(i as int) + (seq![c] + opening_line(text@.skip(i + 1))) =~= text@.take(
            i + 1,
        ) + opening_line(text@.skip(i + 1)));
        i = i + 1;
    }
    assert(text@.skip(len as int).len() == 0);
    assert(text@.take(len as int) + Seq::<char>::empty() =~= text@.take(len as int));
    i
}

/// First line of `text`, hard-capped at `max` characters with an ellipsis.
pub fn first_line(text: &str, max: usize) -> (line: String)
    ensures
        line@ == shortened_line(text@, max as nat),
{
    let count = opening_line_length(text);
    let (start, end) = trim_range(text, 0, count);
    proof {
        assert(text@.subrange(0, count as int) =~= text@.take(count as int));
        reveal_strlit("…");
        assert("…"@ =~= seq!['…']);
    }
    let ghost whole = text@.subrange(start as int, end as int);
    if end - start <= max {
        text.substring_char(start, end).to_owned()
    } else if max == 0 {
        String::new()
    } else {
        let mut cut = text.substring_char(start, start + (max - 1)).to_owned();
        assert(cut@ =~= whole.take(max - 1));
        cut.append("…");
        assert(cut@ =~= whole.take(max - 1).push('…'));
        cut
    }
}

} // verus!
