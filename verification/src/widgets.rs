//! Small texts and sizes shared by the dashboard, dialogs, and wizards.

use vstd::arithmetic::power2::lemma2_to64;
use vstd::prelude::*;

use crate::decimal::{decimal_text, signed_text};
#[allow(unused_imports)]
use crate::decimal::{decimal, signed_decimal};
use crate::rounding::{nearest_even_of, round_to_bits_of};
#[allow(unused_imports)]
use crate::rounding::{law_nearest_within_half, lemma_round_bounded, nearest_even, round_to_bits};

verus! {

/// The rows that a text takes, wrapped at word boundaries to a width, with or
/// without the white space that a wrapped row starts with.
pub uninterp spec fn wrapped_rows(text: Seq<char>, trim: bool, width: u16) -> usize;

/// Calls `ratatui::widgets::Paragraph::line_count` on a wrapped paragraph
/// without a frame. The count depends on the text, the trimming and the width
/// alone, and there are no rows where there is no width. The columns are
/// summed in 16 bits: a sum holds up to four widths, and no more than three
/// columns for each character of the text.
#[verifier::external_body]
fn line_count(text: &str, trim: bool, width: u16) -> (rows: usize)
    requires
        width <= 16383 || text@.len() <= 21845,
    ensures
        rows == wrapped_rows(text@, trim, width),
        width == 0 ==> rows == 0,
{
    ratatui::widgets::Paragraph::new(text).wrap(ratatui::widgets::Wrap { trim }).line_count(width)
}

/// The height for a number of lines: at least the nominal height.
pub open spec fn height_for(lines: nat, nominal: u16) -> u16 {
    if lines > 65535 {
        65535
    } else if lines > nominal {
        lines as u16
    } else {
        nominal
    }
}

/// A popup is as high as its lines, and never lower than it is meant to be.
pub proof fn law_height_shows_lines(lines: nat, nominal: u16)
    ensures
        height_for(lines, nominal) >= nominal,
        lines <= 65535 ==> height_for(lines, nominal) >= lines,
        height_for(lines, nominal) == nominal || height_for(lines, nominal) == lines || lines
            > 65535,
{
}

/// The height of a popup with a number of lines, never below the nominal
/// height.
pub fn height_of_lines(lines: usize, nominal: u16) -> (height: u16)
    ensures
        height == height_for(lines as nat, nominal),
{
    let wrapped: u16 = if lines > 65535 {
        65535
    } else {
        lines as u16
    };
    if wrapped > nominal {
        wrapped
    } else {
        nominal
    }
}

/// Popup height that keeps every wrapped line of a text visible in a popup of
/// a width, never shrinking below the dialog's nominal height.
pub fn popup_height(text: &str, trim: bool, popup_width: u16, nominal: u16) -> (height: u16)
    requires
        popup_width <= 16385 || text@.len() <= 21845,
    ensures
        ({
            let inner = if popup_width >= 2 {
                (popup_width - 2) as u16
            } else {
                0
            };
            height == height_for(wrapped_rows(text@, trim, inner) as nat, nominal)
        }),
        popup_width <= 2 ==> height == nominal,
{
    let inner: u16 = if popup_width >= 2 {
        popup_width - 2
    } else {
        0
    };
    height_of_lines(line_count(text, trim, inner), nominal)
}

// --- Sizes in bytes ---

/// `tenths` as a number with one decimal place.
pub open spec fn one_place(tenths: nat) -> Seq<char> {
    decimal(tenths / 10) + seq!['.'] + decimal(tenths % 10)
}

/// A size in the largest unit that is not larger than it, to one decimal
/// place. Halves of a tenth go to the even tenth. From a tebibyte on the
/// size is first rounded to the 53 bits of a double.
pub open spec fn resource_bytes(bytes: nat) -> Seq<char> {
    if bytes < 1024 {
        decimal(bytes).push('B')
    } else if bytes < 0x10_0000 {
        one_place(nearest_even(bytes * 10, 0x400)).push('K')
    } else if bytes < 0x4000_0000 {
        one_place(nearest_even(bytes * 10, 0x10_0000)).push('M')
    } else if bytes < 0x100_0000_0000 {
        one_place(nearest_even(bytes * 10, 0x4000_0000)).push('G')
    } else {
        one_place(nearest_even(round_to_bits(bytes, 53) * 10, 0x100_0000_0000)).push('T')
    }
}

/// A number of tenths and a unit, as they are shown.
pub open spec fn shows(text: Seq<char>, tenths: nat, unit: char) -> bool {
    text == (decimal(tenths / 10) + seq!['.'] + decimal(tenths % 10)).push(unit)
}

/// The size of `unit` in bytes, which `bytes` are `tenths` tenths of to the
/// nearest tenth.
pub open spec fn to_nearest_tenth(bytes: nat, tenths: nat, unit: nat) -> bool {
    &&& 2 * (10 * bytes - tenths * unit) <= unit
    &&& 2 * (tenths * unit - 10 * bytes) <= unit
}

/// A size is shown in the largest unit that it reaches, to the nearest tenth;
/// below a kibibyte it is shown exactly.
pub proof fn law_size_shown_to_tenth(bytes: nat)
    ensures
        bytes < 1024 ==> resource_bytes(bytes) == decimal(bytes).push('B'),
        1024 <= bytes < 1024 * 1024 ==> exists|tenths: nat| #[trigger]
            shows(resource_bytes(bytes), tenths, 'K') && to_nearest_tenth(bytes, tenths, 1024),
        1024 * 1024 <= bytes < 1024 * 1024 * 1024 ==> exists|tenths: nat| #[trigger]
            shows(resource_bytes(bytes), tenths, 'M') && to_nearest_tenth(
                bytes,
                tenths,
                1024 * 1024,
            ),
        1024 * 1024 * 1024 <= bytes < 1024 * 1024 * 1024 * 1024 ==> exists|tenths: nat| #[trigger]
            shows(resource_bytes(bytes), tenths, 'G') && to_nearest_tenth(
                bytes,
                tenths,
                1024 * 1024 * 1024,
            ),
{
    if 1024 <= bytes < 1024 * 1024 {
        let tenths = nearest_even(bytes * 10, 0x400);
        law_nearest_within_half(bytes * 10, 0x400);
        assert(shows(resource_bytes(bytes), tenths, 'K'));
    } else if 1024 * 1024 <= bytes < 1024 * 1024 * 1024 {
        let tenths = nearest_even(bytes * 10, 0x10_0000);
        law_nearest_within_half(bytes * 10, 0x10_0000);
        assert(shows(resource_bytes(bytes), tenths, 'M'));
    } else if 1024 * 1024 * 1024 <= bytes < 1024 * 1024 * 1024 * 1024 {
        let tenths = nearest_even(bytes * 10, 0x4000_0000);
        law_nearest_within_half(bytes * 10, 0x4000_0000);
        assert(shows(resource_bytes(bytes), tenths, 'G'));
    }
}

/// From a tebibyte on a size is shown in tebibytes, to the nearest tenth of
/// what a double holds of it.
pub proof fn law_large_size_shown(bytes: nat)
    requires
        bytes >= 0x100_0000_0000,
    ensures
        exists|tenths: nat| #[trigger]
            shows(resource_bytes(bytes), tenths, 'T') && to_nearest_tenth(
                round_to_bits(bytes, 53),
                tenths,
                0x100_0000_0000,
            ),
{
    let held = round_to_bits(bytes, 53);
    let tenths = nearest_even(held * 10, 0x100_0000_0000);
    law_nearest_within_half(held * 10, 0x100_0000_0000);
    assert(shows(resource_bytes(bytes), tenths, 'T'));
}

fn in_unit(bytes: u128, unit: u128, suffix: &str) -> (text: String)
    requires
        bytes <= 0x1_0000_0000_0000_0000,
        0 < unit <= 0x100_0000_0000,
    ensures
        text@ == one_place(nearest_even(bytes as nat * 10, unit as nat)) + suffix@,
{
    let tenths = nearest_even_of(bytes * 10, unit);
    let mut text = decimal_text(tenths / 10);
    proof {
        reveal_strlit(".");
        assert("."@ =~= seq!['.']);
    }
    text.append(".");
    text.append(decimal_text(tenths % 10).as_str());
    text.append(suffix);
    text
}

/// A size in bytes, kibibytes, mebibytes, gibibytes or tebibytes.
pub fn format_resource_bytes(bytes: u64) -> (text: String)
    ensures
        text@ == resource_bytes(bytes as nat),
{
    proof {
        reveal_strlit("B");
        reveal_strlit("K");
        reveal_strlit("M");
        reveal_strlit("G");
        reveal_strlit("T");
        lemma2_to64();
        lemma_round_bounded(bytes as nat, 53, 64);
    }
    let size = bytes as u128;
    if bytes < 1024 {
        let mut text = decimal_text(size);
        text.append("B");
        assert(text@ =~= resource_bytes(bytes as nat));
        text
    } else if bytes < 0x10_0000 {
        let text = in_unit(size, 0x400, "K");
        assert(text@ =~= resource_bytes(bytes as nat));
        text
    } else if bytes < 0x4000_0000 {
        let text = in_unit(size, 0x10_0000, "M");
        assert(text@ =~= resource_bytes(bytes as nat));
        text
    } else if bytes < 0x100_0000_0000 {
        let text = in_unit(size, 0x4000_0000, "G");
        assert(text@ =~= resource_bytes(bytes as nat));
        text
    } else {
        let text = in_unit(round_to_bits_of(size, 53), 0x100_0000_0000, "T");
        assert(text@ =~= resource_bytes(bytes as nat));
        text
    }
}

// --- Counts ---

/// A number that things are counted with.
pub trait Count: Sized {
    /// The number itself.
    spec fn number(self) -> int;

    /// The number in decimal.
    fn text(&self) -> (text: String)
        ensures
            text@ == signed_decimal(self.number()),
    ;

    /// Whether the number is one.
    fn is_one(&self) -> (r: bool)
        ensures
            r == (self.number() == 1),
    ;
}

impl Count for usize {
    open spec fn number(self) -> int {
        self as int
    }

    fn text(&self) -> (text: String) {
        decimal_text(*self as u128)
    }

    fn is_one(&self) -> (r: bool) {
        *self == 1
    }
}

impl Count for u64 {
    open spec fn number(self) -> int {
        self as int
    }

    fn text(&self) -> (text: String) {
        decimal_text(*self as u128)
    }

    fn is_one(&self) -> (r: bool) {
        *self == 1
    }
}

impl Count for i64 {
    open spec fn number(self) -> int {
        self as int
    }

    fn text(&self) -> (text: String) {
        signed_text(*self)
    }

    fn is_one(&self) -> (r: bool) {
        *self == 1
    }
}

/// A count and its noun.
pub open spec fn counted_text(count: int, singular: Seq<char>, plural: Seq<char>) -> Seq<char> {
    signed_decimal(count) + seq![' '] + if count == 1 {
        singular
    } else {
        plural
    }
}

/// The noun behind a count is singular for one thing alone.
pub proof fn law_noun_agrees(count: int, singular: Seq<char>, plural: Seq<char>)
    ensures
        count == 1 ==> counted_text(count, singular, plural) == seq!['1', ' '] + singular,
        count != 1 ==> plural.is_suffix_of(counted_text(count, singular, plural)),
        signed_decimal(count).is_prefix_of(counted_text(count, singular, plural)),
{
    let text = counted_text(count, singular, plural);
    if count == 1 {
        assert(decimal(1) =~= seq!['1']);
        assert(text =~= seq!['1', ' '] + singular);
    } else {
        assert(plural.is_suffix_of(text));
    }
    assert(signed_decimal(count).is_prefix_of(text));
}

/// `count` and the noun that agrees with it: `1 command`, `2 commands`,
/// `0 entries`. Counts the dashboard prints go through this, so none reads
/// "1 commands".
pub fn counted<T: Count>(count: T, singular: &str, plural: &str) -> (text: String)
    ensures
        text@ == counted_text(count.number(), singular@, plural@),
{
    let mut text = count.text();
    proof {
        reveal_strlit(" ");
        assert(" "@ =~= seq![' ']);
    }
    text.append(" ");
    if count.is_one() {
        text.append(singular);
    } else {
        text.append(plural);
    }
    text
}

} // verus!
