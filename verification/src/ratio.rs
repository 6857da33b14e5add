//! The share a split gives to its first half.
//!
//! A ratio is an IEEE 754 single-precision number held as its bits. What the
//! layout does with one (take a share of a length, keep it between a tenth
//! and nine tenths, move it by a step) is computed on integers: every finite
//! single is a whole number of units of `2^-149`, so each result is the exact
//! one, rounded as the format rounds it.

use vstd::arithmetic::div_mod::{
    lemma_fundamental_div_mod, lemma_fundamental_div_mod_converse, lemma_mod_bound,
};
use vstd::arithmetic::power2::{
    lemma2_to64, lemma2_to64_rest, lemma_pow2_adds, lemma_pow2_pos, lemma_pow2_strictly_increases,
    lemma_pow2_unfold, pow2,
};
use vstd::prelude::*;

use crate::rounding::{
    bit_length_of, lemma_bit_length_bounds, lemma_bit_length_unique, lemma_round_bounded,
    lemma_round_scaled, nearest_even_of, power_of_two, round_to_bits_of,
};
#[allow(unused_imports)]
use crate::rounding::{bit_length, nearest_even, round_to_bits};

verus! {

/// A single-precision number, by its bits.
#[derive(Debug, Clone, Copy, PartialEq, Eq, Structural)]
pub struct Ratio {
    pub bits: u32,
}

/// One tenth: the least share a split may give.
#[verifier::allow_in_spec]
pub fn least_share() -> Ratio
    returns
        (Ratio { bits: 0x3DCC_CCCD }),
{
    Ratio { bits: 0x3DCC_CCCD }
}

/// Nine tenths: the greatest share a split may give.
#[verifier::allow_in_spec]
pub fn greatest_share() -> Ratio
    returns
        (Ratio { bits: 0x3F66_6666 }),
{
    Ratio { bits: 0x3F66_6666 }
}

/// One half: an even split.
#[verifier::allow_in_spec]
pub fn even_share() -> Ratio
    returns
        (Ratio { bits: 0x3F00_0000 }),
{
    Ratio { bits: 0x3F00_0000 }
}

/// How many significant bits a single carries.
pub open spec fn precision() -> nat {
    24
}

impl Ratio {
    pub open spec fn negative(self) -> bool {
        self.bits >= 0x8000_0000
    }

    /// The number without its sign.
    pub open spec fn unsigned(self) -> Ratio {
        Ratio { bits: (self.bits % 0x8000_0000) as u32 }
    }

    pub open spec fn exponent(self) -> nat {
        (self.bits as nat / 0x80_0000) % 256
    }

    pub open spec fn fraction(self) -> nat {
        self.bits as nat % 0x80_0000
    }

    pub open spec fn nan(self) -> bool {
        self.exponent() == 255 && self.fraction() != 0
    }

    pub open spec fn infinite(self) -> bool {
        self.exponent() == 255 && self.fraction() == 0
    }

    pub open spec fn finite(self) -> bool {
        self.exponent() != 255
    }

    pub open spec fn zero(self) -> bool {
        self.bits == 0 || self.bits == 0x8000_0000
    }

    /// The two are one number: NaN is equal to nothing, and the two zeros are
    /// equal.
    pub open spec fn equals(self, other: Ratio) -> bool {
        !self.nan() && !other.nan() && (self == other || self.zero() && other.zero())
    }

    /// The integer that the stored digits denote.
    pub open spec fn significand(self) -> nat {
        if self.exponent() == 0 {
            self.fraction()
        } else {
            self.fraction() + 0x80_0000
        }
    }

    /// How many times the significand is doubled to get units of `2^-149`.
    pub open spec fn shift(self) -> nat {
        if self.exponent() == 0 {
            0
        } else {
            (self.exponent() - 1) as nat
        }
    }

    /// The absolute value of a finite number, in units of `2^-149`.
    pub open spec fn magnitude(self) -> nat {
        self.significand() * pow2(self.shift())
    }

    /// The value of a number that is not NaN, in units of `2^-149`; an
    /// infinity is `2^278` of them, beyond every finite value.
    pub open spec fn units(self) -> int {
        let size = if self.infinite() {
            pow2(278)
        } else {
            self.magnitude()
        };
        if self.negative() {
            -size
        } else {
            size as int
        }
    }

    /// A share that a split keeps: between a tenth and nine tenths.
    pub open spec fn is_share(self) -> bool {
        !self.nan() && least_share().units() <= self.units() <= greatest_share().units()
    }
}

/// `value` rounded to what a single can hold, in the same units.
pub open spec fn rounded(value: int) -> int {
    if value >= 0 {
        round_to_bits(value as nat, precision()) as int
    } else {
        -(round_to_bits((-value) as nat, precision()) as int)
    }
}

/// The share of `length` cells that `ratio` gives: the product as a single
/// holds it, to the nearest cell with halves going up, at most 65535. What is
/// not a positive number gives none.
pub open spec fn share_of(length: nat, ratio: Ratio) -> nat {
    if ratio.nan() || ratio.negative() || length == 0 {
        0
    } else if ratio.infinite() {
        65535
    } else {
        let cells = (round_to_bits(length * ratio.magnitude(), precision()) + pow2(148)) / pow2(
            149,
        );
        if cells > 65535 {
            65535
        } else {
            cells
        }
    }
}

/// `ratio` brought between a tenth and nine tenths; NaN stays NaN.
pub open spec fn clamped(ratio: Ratio) -> Ratio {
    if ratio.nan() {
        ratio
    } else if ratio.units() < least_share().units() {
        least_share()
    } else if ratio.units() > greatest_share().units() {
        greatest_share()
    } else {
        ratio
    }
}

/// The sum of `current` and `step`, the latter negated unless `grows`, is not
/// a number.
pub open spec fn step_undefined(current: Ratio, step: Ratio, grows: bool) -> bool {
    ||| current.nan()
    ||| step.nan()
    ||| current.infinite() && step.infinite() && (current.negative() == step.negative()) != grows
}

/// `current` moved by `step`, up when `grows` and down otherwise, as a single
/// holds it.
pub open spec fn stepped_units(current: Ratio, step: Ratio, grows: bool) -> int {
    if current.infinite() {
        current.units()
    } else if step.infinite() {
        if grows {
            step.units()
        } else {
            -step.units()
        }
    } else {
        rounded(
            current.units() + if grows {
                step.units()
            } else {
                -step.units()
            },
        )
    }
}

/// `value` brought between `low` and `high`.
pub open spec fn between(value: int, low: int, high: int) -> int {
    if value < low {
        low
    } else if value > high {
        high
    } else {
        value
    }
}

proof fn lemma_significand_bounds(r: Ratio)
    requires
        r.finite(),
    ensures
        r.significand() < 0x100_0000,
        r.shift() <= 253,
        r.shift() > 0 ==> r.significand() >= 0x80_0000,
        r.exponent() > 0 ==> r.significand() >= 0x80_0000,
{
}

/// Among non-negative numbers that are not NaN, the bits are ordered as the
/// values are.
pub proof fn lemma_units_follow_bits(a: Ratio, b: Ratio)
    requires
        !a.nan(),
        !b.nan(),
        !a.negative(),
        !b.negative(),
        a.bits < b.bits,
    ensures
        0 <= a.units() < b.units(),
{
    lemma2_to64();
    assert(a.bits == a.exponent() * 0x80_0000 + a.fraction());
    assert(b.bits == b.exponent() * 0x80_0000 + b.fraction());
    assert(a.finite());
    lemma_significand_bounds(a);
    let ma = a.significand();
    let ka = a.shift();
    lemma_pow2_pos(ka);
    let pa = pow2(ka);
    assert(ma * pa >= 0) by (nonlinear_arith);
    lemma_pow2_adds(24, ka);
    assert(ma * pa < 0x100_0000 * pa) by (nonlinear_arith)
        requires
            ma < 0x100_0000,
            pa > 0,
    ;
    if b.infinite() {
        if 24 + ka < 278 {
            lemma_pow2_strictly_increases(24 + ka, 278);
        }
    } else {
        lemma_significand_bounds(b);
        let mb = b.significand();
        let kb = b.shift();
        let pb = pow2(kb);
        lemma_pow2_pos(kb);
        if ka == kb {
            assert(ma < mb);
            assert(ma * pa < mb * pb) by (nonlinear_arith)
                requires
                    ma < mb,
                    pa == pb,
                    pa > 0,
            ;
        } else {
            assert(ka < kb);
            lemma_pow2_unfold(ka + 1);
            if ka + 1 < kb {
                lemma_pow2_strictly_increases(ka + 1, kb);
            }
            assert(mb >= 0x80_0000);
            assert(0x100_0000 * pa <= mb * pb) by (nonlinear_arith)
                requires
                    mb >= 0x80_0000,
                    pb >= 2 * pa,
                    pa > 0,
            ;
        }
    }
}

/// A value that is a share has one representation.
pub proof fn law_share_unique(a: Ratio, b: Ratio)
    requires
        a.is_share(),
        b.is_share(),
        a.units() == b.units(),
    ensures
        a == b,
{
    lemma_share_bounds();
    lemma_share_positive(a);
    lemma_share_positive(b);
    if a.bits < b.bits {
        lemma_units_follow_bits(a, b);
    } else if b.bits < a.bits {
        lemma_units_follow_bits(b, a);
    }
}

proof fn lemma_share_positive(a: Ratio)
    requires
        a.is_share(),
    ensures
        !a.negative(),
        a.finite(),
{
    lemma_share_bounds();
    if a.negative() {
        lemma_pow2_pos(278);
        assert(a.magnitude() >= 0);
    }
    if a.infinite() {
        lemma_units_follow_bits(greatest_share(), a);
    }
}

/// The least and the greatest share, unfolded.
pub proof fn lemma_share_bounds()
    ensures
        least_share().units() == 0xCC_CCCD * pow2(122),
        greatest_share().units() == 0xE6_6666 * pow2(125),
        0 < least_share().units() < even_share().units() < greatest_share().units(),
        least_share().is_share(),
        even_share().is_share(),
        greatest_share().is_share(),
{
    lemma_units_follow_bits(least_share(), even_share());
    lemma_units_follow_bits(even_share(), greatest_share());
    lemma_units_follow_bits(Ratio { bits: 0 }, least_share());
}

/// Bringing a number between the bounds gives a share.
pub proof fn lemma_clamped_is_share(ratio: Ratio)
    requires
        !ratio.nan(),
    ensures
        clamped(ratio).is_share(),
{
    lemma_share_bounds();
}

/// A share never takes more cells than there are.
pub proof fn lemma_share_within(length: nat, ratio: Ratio)
    requires
        ratio.is_share(),
        length <= 65535,
    ensures
        share_of(length, ratio) <= length,
{
    lemma_share_positive(ratio);
    if length > 0 {
        lemma_share_bounds();
        lemma2_to64();
        // The product stays below the length itself, which a single holds
        // exactly, so rounding does not lift it past the length.
        let exact = length * ratio.magnitude();
        let whole = length * pow2(149);
        lemma_pow2_adds(24, 125);
        lemma_pow2_pos(125);
        let p125 = pow2(125);
        assert(ratio.magnitude() < pow2(149)) by {
            assert(0xE6_6666 * p125 < 0x100_0000 * p125) by (nonlinear_arith)
                requires
                    p125 > 0,
            ;
        }
        let size = ratio.magnitude();
        let top = pow2(149);
        assert(exact <= whole) by (nonlinear_arith)
            requires
                exact == length * size,
                whole == length * top,
                size <= top,
                length >= 0,
        ;
        lemma_rounding_monotone(exact, whole, 24);
        crate::rounding::lemma_round_exact(length, 24, 149);
        lemma_pow2_strictly_increases(16, 24);
        let rounded_units = round_to_bits(exact, 24);
        lemma_pow2_unfold(149);
        let half = pow2(148);
        lemma_pow2_pos(148);
        assert(rounded_units + half < (length + 1) * top) by (nonlinear_arith)
            requires
                rounded_units <= length * top,
                half < top,
        ;
        let cells = (rounded_units + half) / top;
        lemma_fundamental_div_mod((rounded_units + half) as int, top as int);
        let rest = (rounded_units + half) % top;
        assert(cells <= length) by (nonlinear_arith)
            requires
                rounded_units + half == top * cells + rest,
                rest >= 0,
                rounded_units + half < (length + 1) * top,
                top > 0,
        ;
    }
}

/// Rounding to a single changes a product of cells and a share by at most a
/// 512th of a cell.
proof fn lemma_round_error(n: nat)
    requires
        n < pow2(165),
    ensures
        -(pow2(140) as int) <= round_to_bits(n, 24) - n <= pow2(140),
{
    lemma_pow2_pos(140);
    let len = bit_length(n);
    lemma_bit_length_bounds(n);
    if len > 24 {
        assert(len <= 165) by {
            if 165 < len {
                if 165 < len - 1 {
                    lemma_pow2_strictly_increases(165, (len - 1) as nat);
                }
            }
        }
        let d = (len - 24) as nat;
        let step = pow2(d);
        lemma_pow2_pos(d);
        lemma_pow2_unfold(141);
        if d < 141 {
            lemma_pow2_strictly_increases(d, 141);
        }
        let q = n / step;
        let r = n % step;
        lemma_fundamental_div_mod(n as int, step as int);
        let up = nearest_even(n, step);
        assert(up == q || up == q + 1);
        if up == q {
            assert(q * step == step * q) by (nonlinear_arith);
            assert(2 * r <= step);
        } else {
            assert((q + 1) * step == step * q + step) by (nonlinear_arith);
            assert(2 * r >= step);
            lemma_mod_bound(n as int, step as int);
        }
    }
}

/// The units of a share are less than those of one, and what it gives of a
/// length can be rounded to a single.
proof fn lemma_share_product(length: nat, ratio: Ratio)
    requires
        ratio.is_share(),
        length <= 65535,
    ensures
        ratio.magnitude() == ratio.units(),
        10 * ratio.magnitude() <= 9 * pow2(149),
        length * ratio.magnitude() < pow2(165),
        share_of(length, ratio) == (round_to_bits(length * ratio.magnitude(), 24) + pow2(148))
            / pow2(149),
{
    lemma_share_positive(ratio);
    lemma_share_bounds();
    lemma2_to64();
    lemma_pow2_adds(24, 125);
    lemma_pow2_adds(16, 149);
    lemma_pow2_pos(125);
    lemma_pow2_pos(149);
    lemma_pow2_pos(148);
    lemma_pow2_unfold(149);
    let p = pow2(125);
    let top = pow2(149);
    let m = ratio.magnitude();
    assert(10 * m <= 9 * top) by (nonlinear_arith)
        requires
            m <= 0xE6_6666 * p,
            top == 0x100_0000 * p,
            p > 0,
    ;
    assert(length * m < 65536 * top) by (nonlinear_arith)
        requires
            length <= 65535,
            m <= top,
            m >= 0,
            top > 0,
    ;
    assert(pow2(16) * top == 65536 * top) by {
        assert(pow2(16) == 65536);
    }
    if length == 0 {
        assert(0 * m == 0) by (nonlinear_arith);
        assert(bit_length(0) == 0);
        assert(round_to_bits(0, 24) == 0);
        let half = pow2(148);
        assert(half / top == 0) by (nonlinear_arith)
            requires
                half < top,
                half >= 0,
        ;
    } else {
        lemma_share_within(length, ratio);
        let cells = (round_to_bits(length * m, 24) + pow2(148)) / top;
        if cells > 65535 {
            // Rounding cannot lift the product past the whole length.
            let whole = length * top;
            assert(length * m <= whole) by (nonlinear_arith)
                requires
                    whole == length * top,
                    m <= top,
                    length >= 0,
            ;
            lemma_rounding_monotone(length * m, whole, 24);
            lemma_pow2_strictly_increases(16, 24);
            crate::rounding::lemma_round_exact(length, 24, 149);
            let sum = round_to_bits(length * m, 24) + pow2(148);
            lemma_fundamental_div_mod(sum as int, top as int);
            let rest = sum % top;
            let half = pow2(148);
            assert(cells <= 65535) by (nonlinear_arith)
                requires
                    sum == top * cells + rest,
                    rest >= 0,
                    sum <= length * top + half,
                    half < top,
                    length <= 65535,
                    top > 0,
            ;
        }
    }
}

/// What a share gives is the nearest number of cells to the exact product,
/// but for the 512th of a cell that a single cannot tell.
pub proof fn law_share_nearest(length: nat, ratio: Ratio)
    requires
        ratio.is_share(),
        length <= 65535,
    ensures
        ({
            let cell = pow2(149) as int;
            let exact = length * ratio.units();
            let given = share_of(length, ratio) * cell;
            -257 * cell <= 512 * (given - exact) <= 257 * cell
        }),
{
    lemma_share_product(length, ratio);
    let n = length * ratio.magnitude();
    lemma_round_error(n);
    lemma2_to64();
    lemma_pow2_adds(9, 140);
    lemma_pow2_unfold(149);
    lemma_pow2_pos(148);
    let cell = pow2(149);
    let sum = round_to_bits(n, 24) + pow2(148);
    lemma_fundamental_div_mod(sum as int, cell as int);
    lemma_mod_bound(sum as int, cell as int);
    let given = share_of(length, ratio);
    assert(given * cell == cell * given) by (nonlinear_arith);
}

/// A longer stretch is given at least as much, and keeps at least as much
/// back: neither half of a split shrinks when the split grows.
pub proof fn law_share_grows_with_length(a: nat, b: nat, ratio: Ratio)
    requires
        ratio.is_share(),
        a <= b <= 65535,
    ensures
        share_of(a, ratio) <= share_of(b, ratio),
        a - share_of(a, ratio) <= b - share_of(b, ratio),
    decreases b - a,
{
    if a < b {
        let c = (b - 1) as nat;
        law_share_grows_with_length(a, c, ratio);
        lemma_share_step(c, ratio);
    }
}

proof fn lemma_share_step(c: nat, ratio: Ratio)
    requires
        ratio.is_share(),
        c < 65535,
    ensures
        share_of(c, ratio) <= share_of(c + 1, ratio) <= share_of(c, ratio) + 1,
{
    lemma_share_product(c, ratio);
    lemma_share_product(c + 1, ratio);
    let m = ratio.magnitude();
    let low = c * m;
    let high = (c + 1) * m;
    assert(high == low + m) by (nonlinear_arith)
        requires
            low == c * m,
            high == (c + 1) * m,
    ;
    lemma_rounding_monotone(low, high, 24);
    lemma_round_error(low);
    lemma_round_error(high);
    lemma2_to64();
    lemma_pow2_adds(9, 140);
    lemma_pow2_pos(149);
    let cell = pow2(149);
    let x = round_to_bits(low, 24) + pow2(148);
    let y = round_to_bits(high, 24) + pow2(148);
    assert(y <= x + cell);
    lemma_fundamental_div_mod(x as int, cell as int);
    lemma_fundamental_div_mod(y as int, cell as int);
    lemma_mod_bound(x as int, cell as int);
    lemma_mod_bound(y as int, cell as int);
    let qx = x / cell;
    let qy = y / cell;
    assert(qx <= qy <= qx + 1) by (nonlinear_arith)
        requires
            cell > 0,
            x <= y <= x + cell,
            x == cell * qx + x % cell,
            y == cell * qy + y % cell,
            0 <= x % cell < cell,
            0 <= y % cell < cell,
    ;
}

/// A greater share gives at least as much of the same length.
pub proof fn law_share_grows_with_ratio(length: nat, lesser: Ratio, greater: Ratio)
    requires
        lesser.is_share(),
        greater.is_share(),
        lesser.units() <= greater.units(),
        length <= 65535,
    ensures
        share_of(length, lesser) <= share_of(length, greater),
{
    lemma_share_product(length, lesser);
    lemma_share_product(length, greater);
    let a = lesser.magnitude();
    let b = greater.magnitude();
    assert(length * a <= length * b) by (nonlinear_arith)
        requires
            a <= b,
            length >= 0,
    ;
    lemma_rounding_monotone(length * a, length * b, 24);
    lemma_pow2_pos(149);
    let cell = pow2(149);
    let x = round_to_bits(length * a, 24) + pow2(148);
    let y = round_to_bits(length * b, 24) + pow2(148);
    lemma_fundamental_div_mod(x as int, cell as int);
    lemma_fundamental_div_mod(y as int, cell as int);
    lemma_mod_bound(x as int, cell as int);
    lemma_mod_bound(y as int, cell as int);
    let qx = x / cell;
    let qy = y / cell;
    assert(qx <= qy) by (nonlinear_arith)
        requires
            cell > 0,
            x <= y,
            x == cell * qx + x % cell,
            y == cell * qy + y % cell,
            0 <= x % cell < cell,
            0 <= y % cell < cell,
    ;
}

/// An even split gives the first half the odd cell.
pub proof fn law_even_share_halves(length: nat)
    requires
        length <= 65535,
    ensures
        share_of(length, even_share()) == (length + 1) / 2,
{
    lemma_share_bounds();
    lemma_share_product(length, even_share());
    lemma2_to64();
    lemma_pow2_adds(23, 125);
    lemma_pow2_strictly_increases(16, 24);
    crate::rounding::lemma_round_exact(length, 24, 148);
    lemma_pow2_unfold(149);
    lemma_pow2_pos(148);
    let half = pow2(148);
    let cell = pow2(149);
    assert(even_share().magnitude() == half) by {
        assert(even_share().significand() == 0x80_0000);
        assert(even_share().shift() == 125);
    }
    let sum = length * half + half;
    let quotient = (length + 1) / 2;
    let rest = ((length + 1) % 2) * half;
    assert(sum == cell * quotient + rest) by (nonlinear_arith)
        requires
            sum == length * half + half,
            cell == 2 * half,
            length + 1 == 2 * quotient + (length + 1) % 2,
            rest == ((length + 1) % 2) * half,
    ;
    assert(0 <= rest < cell) by (nonlinear_arith)
        requires
            rest == ((length + 1) % 2) * half,
            0 <= (length + 1) % 2 < 2,
            cell == 2 * half,
            half > 0,
    ;
    lemma_fundamental_div_mod_converse(sum as int, cell as int, quotient as int, rest as int);
}

/// A step up never lowers a share, and a step down never raises it.
pub proof fn law_step_follows_sign(current: Ratio, step: Ratio, grows: bool)
    requires
        current.is_share(),
        step.finite(),
        step.units() >= 0,
    ensures
        grows ==> stepped_units(current, step, grows) >= current.units(),
        !grows ==> stepped_units(current, step, grows) <= current.units(),
{
    lemma_share_positive(current);
    lemma_share_bounds();
    lemma_significand_bounds(current);
    lemma2_to64();
    crate::rounding::lemma_round_exact(current.significand(), 24, current.shift());
    let own = current.magnitude();
    assert(round_to_bits(own, 24) == own);
    if grows {
        lemma_rounding_monotone(own, (own + step.units()) as nat, 24);
    } else if own >= step.units() {
        lemma_rounding_monotone((own - step.units()) as nat, own, 24);
    }
}

/// Rounding to significant bits keeps the order.
pub proof fn lemma_rounding_monotone(a: nat, b: nat, bits: nat)
    requires
        a <= b,
        bits > 0,
    ensures
        round_to_bits(a, bits) <= round_to_bits(b, bits),
{
    lemma_bit_length_bounds(a);
    lemma_bit_length_bounds(b);
    let la = bit_length(a);
    let lb = bit_length(b);
    if a == 0 {
        assert(bit_length(0) == 0);
        assert(round_to_bits(0, bits) == 0);
    } else {
        assert(la <= lb) by {
            if lb < la {
                if lb < la - 1 {
                    lemma_pow2_strictly_increases(lb, (la - 1) as nat);
                }
            }
        }
        if la == lb {
            if la > bits {
                let step = pow2((la - bits) as nat);
                lemma_pow2_pos((la - bits) as nat);
                lemma_nearest_monotone(a, b, step);
                let qa = nearest_even(a, step);
                let qb = nearest_even(b, step);
                assert(qa * step <= qb * step) by (nonlinear_arith)
                    requires
                        qa <= qb,
                ;
            }
        } else {
            // A shorter number rounds to at most the power of two that a
            // longer one already reaches.
            lemma_round_bounded(a, bits, la);
            lemma_round_reaches(b, bits);
            if la < lb - 1 {
                lemma_pow2_strictly_increases(la, (lb - 1) as nat);
            }
        }
    }
}

/// Rounding never falls below the leading power of two.
proof fn lemma_round_reaches(n: nat, bits: nat)
    requires
        n > 0,
        bits > 0,
    ensures
        round_to_bits(n, bits) >= pow2((bit_length(n) - 1) as nat),
{
    lemma_bit_length_bounds(n);
    let len = bit_length(n);
    if len > bits {
        let d = (len - bits) as nat;
        let step = pow2(d);
        lemma_pow2_pos(d);
        lemma_pow2_adds((bits - 1) as nat, d);
        let low = pow2((bits - 1) as nat);
        let q = n / step;
        lemma_fundamental_div_mod(n as int, step as int);
        let r = n % step;
        assert(q >= low) by (nonlinear_arith)
            requires
                n == step * q + r,
                r < step,
                n >= low * step,
                step > 0,
        ;
        let chosen = nearest_even(n, step);
        assert(chosen * step >= low * step) by (nonlinear_arith)
            requires
                chosen >= low,
        ;
    }
}

proof fn lemma_nearest_monotone(a: nat, b: nat, step: nat)
    requires
        a <= b,
        step > 0,
    ensures
        nearest_even(a, step) <= nearest_even(b, step),
{
    let qa = a / step;
    let ra = a % step;
    let qb = b / step;
    let rb = b % step;
    lemma_fundamental_div_mod(a as int, step as int);
    lemma_fundamental_div_mod(b as int, step as int);
    assert(qa <= qb) by (nonlinear_arith)
        requires
            a == step * qa + ra,
            b == step * qb + rb,
            a <= b,
            0 <= ra,
            rb < step,
            step > 0,
    ;
    if qa == qb {
        assert(ra <= rb) by (nonlinear_arith)
            requires
                a == step * qa + ra,
                b == step * qb + rb,
                a <= b,
                qa == qb,
        ;
    }
}

/// A small disturbance of a full-precision number rounds away.
proof fn lemma_round_near(m: nat, k: nat, disturbance: nat, added: bool)
    requires
        0x80_0000 <= m < 0x100_0000,
        k >= 2,
        disturbance < pow2((k - 2) as nat),
    ensures
        m * pow2(k) >= disturbance,
        round_to_bits(
            if added {
                m * pow2(k) + disturbance
            } else {
                (m * pow2(k) - disturbance) as nat
            },
            24,
        ) == m * pow2(k),
{
    lemma2_to64();
    assert(((24 + k) - 24) as nat == k);
    let p = pow2(k);
    let delta = disturbance;
    lemma_pow2_pos(k);
    lemma_pow2_unfold(k);
    lemma_pow2_unfold((k - 1) as nat);
    lemma_pow2_adds(24, k);
    lemma_pow2_adds(23, k);
    lemma_pow2_adds(22, k);
    assert(4 * delta < p);
    let whole = m * p;
    assert(0x80_0000 * p <= whole <= 0xFF_FFFF * p) by (nonlinear_arith)
        requires
            whole == m * p,
            0x80_0000 <= m <= 0xFF_FFFF,
            p > 0,
    ;
    if added {
        let n = whole + delta;
        lemma_bit_length_unique(n, 24 + k);
        assert(n == p * m + delta) by (nonlinear_arith)
            requires
                n == m * p + delta,
        ;
        lemma_fundamental_div_mod_converse(n as int, p as int, m as int, delta as int);
        assert(nearest_even(n, p) == m);
    } else if delta == 0 {
        crate::rounding::lemma_round_exact(m, 24, k);
    } else {
        let n = (whole - delta) as nat;
        if m > 0x80_0000 {
            assert((m - 1) * p >= 0x80_0000 * p) by (nonlinear_arith)
                requires
                    m - 1 >= 0x80_0000,
                    p > 0,
            ;
            assert((m - 1) * p == whole - p) by (nonlinear_arith)
                requires
                    whole == m * p,
            ;
            lemma_bit_length_unique(n, 24 + k);
            assert(n == p * (m - 1) + (p - delta)) by (nonlinear_arith)
                requires
                    n == m * p - delta,
            ;
            lemma_fundamental_div_mod_converse(n as int, p as int, m - 1, p - delta);
            assert(nearest_even(n, p) == m);
        } else {
            assert(m == 0x80_0000);
            let h = pow2((k - 1) as nat);
            assert(p == 2 * h);
            lemma_bit_length_unique(n, 23 + k);
            assert(n == h * 0xFF_FFFF + (h - delta)) by (nonlinear_arith)
                requires
                    n == 0x80_0000 * p - delta,
                    p == 2 * h,
            ;
            lemma_fundamental_div_mod_converse(n as int, h as int, 0xFF_FFFF, h - delta);
            assert(nearest_even(n, h) == 0x100_0000);
            let chosen = nearest_even(n, h);
            assert(chosen * h == 0x80_0000 * p) by (nonlinear_arith)
                requires
                    chosen == 0x100_0000,
                    p == 2 * h,
            ;
            assert(whole == 0x80_0000 * p);
            assert(((23 + k) - 24) as nat == (k - 1) as nat);
            assert(round_to_bits(n, 24) == chosen * h);
        }
    }
}

/// A number of full precision is what its bits say.
proof fn lemma_encoded(m: nat, k: nat, r: Ratio)
    requires
        0x80_0000 <= m < 0x100_0000,
        k <= 253,
        r.bits == (k + 1) * 0x80_0000 + (m - 0x80_0000),
    ensures
        !r.negative(),
        r.finite(),
        r.significand() == m,
        r.shift() == k,
        r.units() == m * pow2(k),
{
    lemma_fundamental_div_mod_converse(r.bits as int, 0x80_0000, (k + 1) as int, m - 0x80_0000);
}

/// The product of a positive number and a scale is ordered as the scales are.
proof fn lemma_beyond_bounds(m: nat, k: int)
    requires
        0x80_0000 <= m < 0x100_0000,
        k >= 0,
    ensures
        k < 122 ==> m * pow2(k as nat) < least_share().units(),
        k > 125 ==> m * pow2(k as nat) > greatest_share().units(),
{
    lemma_share_bounds();
    let e = k as nat;
    let p = pow2(e);
    lemma_pow2_pos(e);
    if k < 122 {
        lemma_pow2_unfold(e + 1);
        if e + 1 < 122 {
            lemma_pow2_strictly_increases(e + 1, 122);
        }
        let t = pow2(122);
        assert(m * p < 0xCC_CCCD * t) by (nonlinear_arith)
            requires
                m < 0x100_0000,
                2 * p <= t,
                p > 0,
        ;
    }
    if k > 125 {
        lemma_pow2_unfold(126);
        if 126 < e {
            lemma_pow2_strictly_increases(126, e);
        }
        let t = pow2(125);
        lemma_pow2_pos(125);
        assert(m * p > 0xE6_6666 * t) by (nonlinear_arith)
            requires
                m >= 0x80_0000,
                p >= 2 * t,
                t > 0,
        ;
    }
}

proof fn lemma_share_division(r: nat, k: nat)
    ensures
        k >= 149 ==> (r * pow2(k) + pow2(148)) / pow2(149) == r * pow2((k - 149) as nat),
        k < 149 ==> (r * pow2(k) + pow2(148)) / pow2(149) == (r + pow2((148 - k) as nat)) / pow2(
            (149 - k) as nat,
        ),
{
    let top = pow2(149);
    let half = pow2(148);
    lemma_pow2_unfold(149);
    lemma_pow2_pos(148);
    if k >= 149 {
        let g = (k - 149) as nat;
        lemma_pow2_adds(g, 149);
        let q = r * pow2(g);
        assert(r * pow2(k) + half == q * top + half) by (nonlinear_arith)
            requires
                q == r * pow2(g),
                pow2(k) == pow2(g) * top,
        ;
        lemma_fundamental_div_mod_converse(
            (r * pow2(k) + half) as int,
            top as int,
            q as int,
            half as int,
        );
    } else {
        let d = (149 - k) as nat;
        let p = pow2(k);
        let s = pow2(d);
        let t = pow2((148 - k) as nat);
        lemma_pow2_pos(k);
        lemma_pow2_pos(d);
        lemma_pow2_adds(k, d);
        lemma_pow2_adds(k, (148 - k) as nat);
        let n = r + t;
        lemma_fundamental_div_mod(n as int, s as int);
        let q = n / s;
        let rest = n % s;
        assert(r * p + half == q * top + rest * p && 0 <= rest * p < top) by (nonlinear_arith)
            requires
                half == p * t,
                top == p * s,
                r + t == s * q + rest,
                0 <= rest < s,
                p > 0,
        ;
        lemma_fundamental_div_mod_converse(
            (r * p + half) as int,
            top as int,
            q as int,
            (rest * p) as int,
        );
    }
}

impl Ratio {
    /// The number whose bits are `bits`.
    pub fn from_bits(bits: u32) -> (r: Ratio)
        ensures
            r.bits == bits,
    {
        Ratio { bits }
    }

    /// The bits of the number.
    pub fn to_bits(self) -> (bits: u32)
        ensures
            bits == self.bits,
    {
        self.bits
    }

    fn exponent_bits(self) -> (e: u32)
        ensures
            e == self.exponent(),
    {
        (self.bits / 0x80_0000) % 256
    }

    fn fraction_bits(self) -> (f: u32)
        ensures
            f == self.fraction(),
    {
        self.bits % 0x80_0000
    }

    /// Whether the number is NaN.
    pub fn is_nan(self) -> (r: bool)
        ensures
            r == self.nan(),
    {
        self.exponent_bits() == 255 && self.fraction_bits() != 0
    }

    /// Whether the two are one number.
    pub fn same_number(self, other: Ratio) -> (r: bool)
        ensures
            r == self.equals(other),
    {
        !self.is_nan() && !other.is_nan() && (self.bits == other.bits || ((self.bits == 0
            || self.bits == 0x8000_0000) && (other.bits == 0 || other.bits == 0x8000_0000)))
    }

    /// Whether the number is neither NaN nor an infinity.
    pub fn is_finite(self) -> (r: bool)
        ensures
            r == self.finite(),
    {
        self.exponent_bits() != 255
    }

    fn parts(self) -> (r: (u32, u32))
        requires
            self.finite(),
        ensures
            r.0 == self.significand(),
            r.1 == self.shift(),
            r.0 < 0x100_0000,
            r.1 <= 253,
    {
        let e = self.exponent_bits();
        let f = self.fraction_bits();
        if e == 0 {
            (f, 0)
        } else {
            (f + 0x80_0000, e - 1)
        }
    }

    /// The number with the other sign.
    pub fn negated(self) -> (r: Ratio)
        ensures
            r.negative() == !self.negative(),
            r.exponent() == self.exponent(),
            r.fraction() == self.fraction(),
            r.units() == -self.units(),
    {
        if self.bits >= 0x8000_0000 {
            Ratio { bits: self.bits - 0x8000_0000 }
        } else {
            Ratio { bits: self.bits + 0x8000_0000 }
        }
    }

    /// Whether two numbers are equal as numbers: NaN equals nothing, and the
    /// two zeros are one.
    pub fn same_value(self, other: Ratio) -> (r: bool)
        ensures
            r == (!self.nan() && !other.nan() && self.units() == other.units()),
    {
        if self.is_nan() || other.is_nan() {
            return false;
        }
        proof {
            lemma_same_value(self, other);
        }
        self.bits == other.bits || (self.bits % 0x8000_0000 == 0 && other.bits % 0x8000_0000 == 0)
    }

    /// The share of `length` cells that this ratio gives.
    pub fn share(self, length: u16) -> (cells: u16)
        ensures
            cells == share_of(length as nat, self),
    {
        if self.is_nan() || self.bits >= 0x8000_0000 || length == 0 {
            return 0;
        }
        if !self.is_finite() {
            return 65535;
        }
        let (m, k) = self.parts();
        proof {
            lemma2_to64();
            lemma2_to64_rest();
            let lm = length as nat * m as nat;
            assert(lm < 0x100_0000_0000) by (nonlinear_arith)
                requires
                    lm == length as nat * m as nat,
                    length <= 0xFFFF,
                    m < 0x100_0000,
            ;
            let p = pow2(k as nat);
            assert(length as nat * (m as nat * p) == lm * p) by (nonlinear_arith)
                requires
                    lm == length as nat * m as nat,
            ;
            lemma_round_scaled(lm, 24, k as nat);
            lemma_round_bounded(lm, 24, 40);
            lemma_share_division(round_to_bits(lm, 24), k as nat);
        }
        let product: u128 = length as u128 * m as u128;
        let r = round_to_bits_of(product, 24);
        if k >= 149 {
            proof {
                let lm = length as nat * m as nat;
                assert(lm > 0) by (nonlinear_arith)
                    requires
                        lm == length as nat * m as nat,
                        length > 0,
                        m > 0,
                ;
                lemma_round_reaches(lm, 24);
                lemma_bit_length_bounds(lm);
                lemma_pow2_pos((bit_length(lm) - 1) as nat);
            }
            if k - 149 >= 16 {
                proof {
                    let g = (k - 149) as nat;
                    if g > 16 {
                        lemma_pow2_strictly_increases(16, g);
                    }
                    let q = pow2(g);
                    assert(r as nat * q >= 65536) by (nonlinear_arith)
                        requires
                            r >= 1,
                            q >= 65536,
                    ;
                }
                65535
            } else {
                let scale = power_of_two(k - 149);
                proof {
                    if k - 149 < 16 {
                        lemma_pow2_strictly_increases((k - 149) as nat, 16);
                    }
                    assert(r as nat * scale as nat <= 0x100_0000_0000 * 0x1_0000)
                        by (nonlinear_arith)
                        requires
                            r <= 0x100_0000_0000,
                            scale <= 0x1_0000,
                    ;
                }
                let cells = r * scale;
                if cells > 65535 {
                    65535
                } else {
                    cells as u16
                }
            }
        } else if k < 100 {
            proof {
                let t = pow2((148 - k) as nat);
                lemma_pow2_unfold((149 - k) as nat);
                if 148 - k > 48 {
                    lemma_pow2_strictly_increases(48, (148 - k) as nat);
                }
                assert(r < t);
                lemma_fundamental_div_mod_converse(
                    (r + t) as int,
                    pow2((149 - k) as nat) as int,
                    0,
                    (r + t) as int,
                );
            }
            0
        } else {
            let half = power_of_two(148 - k);
            let step = power_of_two(149 - k);
            proof {
                if 148 - k < 48 {
                    lemma_pow2_strictly_increases((148 - k) as nat, 48);
                }
                lemma_pow2_pos((149 - k) as nat);
            }
            let cells = (r + half) / step;
            if cells > 65535 {
                65535
            } else {
                cells as u16
            }
        }
    }

    /// The ratio brought between a tenth and nine tenths.
    pub fn clamp_share(self) -> (r: Ratio)
        ensures
            r == clamped(self),
    {
        proof {
            lemma_share_bounds();
        }
        if self.is_nan() {
            self
        } else if self.bits >= 0x8000_0000 {
            proof {
                lemma_pow2_pos(278);
            }
            least_share()
        } else if self.bits < least_share().bits {
            proof {
                lemma_units_follow_bits(self, least_share());
            }
            least_share()
        } else if self.bits > greatest_share().bits {
            proof {
                lemma_units_follow_bits(greatest_share(), self);
            }
            greatest_share()
        } else {
            proof {
                if least_share().bits < self.bits {
                    lemma_units_follow_bits(least_share(), self);
                }
                if self.bits < greatest_share().bits {
                    lemma_units_follow_bits(self, greatest_share());
                }
            }
            self
        }
    }
}

/// Equal values have equal bits, but for the two zeros.
proof fn lemma_same_value(a: Ratio, b: Ratio)
    requires
        !a.nan(),
        !b.nan(),
    ensures
        (a.units() == b.units()) == (a.bits == b.bits || (a.bits % 0x8000_0000 == 0 && b.bits
            % 0x8000_0000 == 0)),
{
    let pa = a.unsigned();
    let pb = b.unsigned();
    let (ua, ub) = (a.units(), b.units());
    let (va, vb) = (pa.units(), pb.units());
    lemma_unsigned(a);
    lemma_unsigned(b);
    lemma_zero_units(pa);
    lemma_zero_units(pb);
    assert((va == vb) == (pa.bits == pb.bits)) by {
        if pa.bits < pb.bits {
            lemma_units_follow_bits(pa, pb);
        } else if pb.bits < pa.bits {
            lemma_units_follow_bits(pb, pa);
        } else {
            assert(pa == pb);
        }
    }
    lemma_signed_equal(a.bits, b.bits, va, vb, ua, ub);
}

/// Numbers of two sizes with their signs are the same where the sizes and the
/// signs are, or where both are zero.
proof fn lemma_signed_equal(x: u32, y: u32, px: int, py: int, sx: int, sy: int)
    requires
        px >= 0,
        py >= 0,
        (px == py) == (x % 0x8000_0000 == y % 0x8000_0000),
        (px == 0) == (x % 0x8000_0000 == 0),
        (py == 0) == (y % 0x8000_0000 == 0),
        sx == if x >= 0x8000_0000 {
            -px
        } else {
            px
        },
        sy == if y >= 0x8000_0000 {
            -py
        } else {
            py
        },
    ensures
        (sx == sy) == (x == y || (x % 0x8000_0000 == 0 && y % 0x8000_0000 == 0)),
{
}

/// A number is its size with its sign.
proof fn lemma_unsigned(a: Ratio)
    requires
        !a.nan(),
    ensures
        !a.unsigned().nan(),
        !a.unsigned().negative(),
        a.units() == if a.negative() {
            -a.unsigned().units()
        } else {
            a.unsigned().units()
        },
{
    let pa = a.unsigned();
    assert(pa.exponent() == a.exponent() && pa.fraction() == a.fraction());
}

/// A number is zero exactly when everything but its sign is.
proof fn lemma_zero_units(a: Ratio)
    requires
        !a.nan(),
    ensures
        (a.units() == 0) == (a.bits % 0x8000_0000 == 0),
        a.negative() ==> a.units() <= 0,
        !a.negative() ==> a.units() >= 0,
{
    lemma_unsigned(a);
    let pa = a.unsigned();
    let zero = Ratio { bits: 0 };
    assert(zero.units() == 0) by {
        assert(0 * pow2(0) == 0) by (nonlinear_arith);
    }
    if pa.bits > 0 {
        lemma_units_follow_bits(zero, pa);
    }
}

/// The positive number `n * 2^k`, rounded and brought between a tenth and
/// nine tenths.
fn share_from_sum(n: u128, k: u32) -> (r: Ratio)
    requires
        0 < n < 0x4000_0000_0000_0000_0000_0000_0000_0000,
        k <= 253,
    ensures
        r.is_share(),
        r.units() == between(
            round_to_bits(n as nat * pow2(k as nat), 24) as int,
            least_share().units(),
            greatest_share().units(),
        ),
{
    let ghost value = round_to_bits(n as nat * pow2(k as nat), 24);
    proof {
        lemma2_to64();
        lemma_share_bounds();
        lemma_round_scaled(n as nat, 24, k as nat);
        lemma_bit_length_bounds(n as nat);
        lemma_126(n as nat);
    }
    let len = bit_length_of(n);
    // The value is `m * 2^(k + up - down)` with a full significand `m`.
    let m: u128;
    let up: u32;
    let down: u32;
    if len <= 24 {
        let scale = power_of_two(24 - len);
        proof {
            let low = pow2((len - 1) as nat);
            lemma_pow2_adds((len - 1) as nat, (24 - len) as nat);
            lemma_pow2_adds(len as nat, (24 - len) as nat);
            let high = pow2(len as nat);
            assert(low * scale <= n * scale < high * scale) by (nonlinear_arith)
                requires
                    low <= n < high,
                    scale > 0,
            ;
        }
        m = n * scale;
        up = 0;
        down = 24 - len;
        proof {
            assert(m as nat * pow2((k + up) as nat) == value * pow2(down as nat))
                by (nonlinear_arith)
                requires
                    m as nat == n as nat * pow2(down as nat),
                    value == n as nat * pow2(k as nat),
                    up == 0,
            ;
        }
    } else {
        let step = power_of_two(len - 24);
        let q = nearest_even_of(n, step);
        down = 0;
        proof {
            lemma_round_reaches(n as nat, 24);
            lemma_round_bounded(n as nat, 24, len as nat);
            lemma_pow2_adds(23, (len - 24) as nat);
            lemma_pow2_adds(24, (len - 24) as nat);
            assert(0x80_0000 <= q <= 0x100_0000) by (nonlinear_arith)
                requires
                    0x80_0000 * step <= q * step <= 0x100_0000 * step,
                    step > 0,
            ;
            lemma_pow2_pos(0);
        }
        if q == 0x100_0000 {
            m = 0x80_0000;
            up = len - 23;
            proof {
                lemma_pow2_unfold((len - 23) as nat);
                lemma_pow2_adds(k as nat, (len - 23) as nat);
                assert(m as nat * (pow2(k as nat) * pow2((len - 23) as nat)) == value * 1)
                    by (nonlinear_arith)
                    requires
                        m == 0x80_0000,
                        value == 0x100_0000 * step as nat * pow2(k as nat),
                        pow2((len - 23) as nat) == 2 * step as nat,
                ;
            }
        } else {
            m = q;
            up = len - 24;
            proof {
                lemma_pow2_adds(k as nat, (len - 24) as nat);
                assert(m as nat * (pow2(k as nat) * pow2((len - 24) as nat)) == value * 1)
                    by (nonlinear_arith)
                    requires
                        m == q,
                        value == q as nat * step as nat * pow2(k as nat),
                        pow2((len - 24) as nat) == step as nat,
                ;
            }
        }
    }
    let ghost f = (k + up) - down;
    if k + up < down {
        proof {
            // value * 2^down == m * 2^(k + up) with the exponent below `down`.
            lemma_pow2_strictly_increases((k + up) as nat, down as nat);
            let a = pow2((k + up) as nat);
            let b = pow2(down as nat);
            assert(value < 0x100_0000) by (nonlinear_arith)
                requires
                    m as nat * a == value * b,
                    m < 0x100_0000,
                    a < b,
                    a > 0,
                    b > 0,
            ;
            lemma_pow2_pos(122);
            let t = pow2(122);
            lemma_pow2_strictly_increases(24, 122);
            assert(0xCC_CCCD * t > t) by (nonlinear_arith)
                requires
                    t > 0,
            ;
        }
        return least_share();
    }
    let e = k + up - down;
    proof {
        lemma_pow2_adds(e as nat, down as nat);
        lemma_pow2_pos(down as nat);
        let a = pow2(e as nat);
        let b = pow2(down as nat);
        assert(value == m as nat * a) by (nonlinear_arith)
            requires
                m as nat * (a * b) == value * b,
                b > 0,
        ;
        lemma_beyond_bounds(m as nat, e as int);
    }
    if e < 122 {
        least_share()
    } else if e > 125 {
        greatest_share()
    } else {
        let r = Ratio { bits: (e + 1) * 0x80_0000 + (m as u32 - 0x80_0000) };
        proof {
            lemma_encoded(m as nat, e as nat, r);
            lemma_clamped_is_share(r);
        }
        r.clamp_share()
    }
}

proof fn lemma_126(n: nat)
    requires
        n < 0x4000_0000_0000_0000_0000_0000_0000_0000,
    ensures
        bit_length(n) <= 126,
{
    lemma2_to64();
    lemma2_to64_rest();
    lemma_pow2_adds(63, 63);
    lemma_bit_length_bounds(n);
    if bit_length(n) > 126 {
        if bit_length(n) - 1 > 126 {
            lemma_pow2_strictly_increases(126, (bit_length(n) - 1) as nat);
        }
    }
}

/// The sum of two finite numbers, rounded and brought between a tenth and
/// nine tenths. `high` is the one with the coarser digits.
fn sum_share(high: Ratio, low: Ratio) -> (r: Ratio)
    requires
        high.finite(),
        low.finite(),
        high.shift() >= low.shift(),
    ensures
        r.is_share(),
        r.units() == between(
            rounded(high.units() + low.units()),
            least_share().units(),
            greatest_share().units(),
        ),
{
    proof {
        lemma_share_bounds();
    }
    let (mh, kh) = high.parts();
    let (ml, kl) = low.parts();
    let ghost pl = pow2(kl as nat);
    let ghost ph = pow2(kh as nat);
    let opposed = (high.bits >= 0x8000_0000) != (low.bits >= 0x8000_0000);
    proof {
        lemma2_to64();
        lemma2_to64_rest();
        lemma_pow2_pos(kl as nat);
        lemma_pow2_pos(kh as nat);
    }
    if kh - kl > 40 {
        proof {
            lemma_far_apart(high, low);
            lemma_clamped_is_share(high);
        }
        return high.clamp_share();
    }
    let lift = power_of_two(kh - kl);
    proof {
        if kh - kl < 40 {
            lemma_pow2_strictly_increases((kh - kl) as nat, 40);
        }
        lemma_pow2_adds((kh - kl) as nat, kl as nat);
        assert(mh as nat * lift as nat <= 0x100_0000 * 0x100_0000_0000) by (nonlinear_arith)
            requires
                mh < 0x100_0000,
                lift <= 0x100_0000_0000,
        ;
        assert(mh as nat * (lift as nat * pl) == (mh as nat * lift as nat) * pl)
            by (nonlinear_arith);
    }
    let lifted: u128 = mh as u128 * lift;
    let small: u128 = ml as u128;
    let high_negative = high.bits >= 0x8000_0000;
    let low_negative = low.bits >= 0x8000_0000;
    let plus: u128 = if high_negative {
        0
    } else {
        lifted
    } + if low_negative {
        0
    } else {
        small
    };
    let minus: u128 = if high_negative {
        lifted
    } else {
        0
    } + if low_negative {
        small
    } else {
        0
    };
    let ghost total = high.units() + low.units();
    proof {
        lemma_signed_total(
            lifted as int,
            small as int,
            pl as int,
            high_negative,
            low_negative,
            total,
        );
    }
    if plus <= minus {
        proof {
            lemma_scaled_sign(plus - minus, pl as int);
            assert(bit_length(0) == 0);
        }
        return least_share();
    }
    proof {
        lemma_scaled_sign(plus - minus, pl as int);
    }
    share_from_sum(plus - minus, kl)
}

proof fn lemma_scaled_sign(x: int, p: int)
    requires
        p > 0,
    ensures
        x <= 0 ==> x * p <= 0,
        x >= 0 ==> x * p >= 0,
{
    assert(x <= 0 ==> x * p <= 0) by (nonlinear_arith)
        requires
            p > 0,
    ;
    assert(x >= 0 ==> x * p >= 0) by (nonlinear_arith)
        requires
            p > 0,
    ;
}

proof fn lemma_signed_total(a: int, b: int, p: int, a_negative: bool, b_negative: bool, total: int)
    requires
        total == (if a_negative {
            -(a * p)
        } else {
            a * p
        }) + (if b_negative {
            -(b * p)
        } else {
            b * p
        }),
    ensures
        total == (((if a_negative {
            0
        } else {
            a
        }) + (if b_negative {
            0
        } else {
            b
        })) - ((if a_negative {
            a
        } else {
            0
        }) + (if b_negative {
            b
        } else {
            0
        }))) * p,
{
    assert((a + b) * p == a * p + b * p) by (nonlinear_arith);
    assert((a - b) * p == a * p - b * p) by (nonlinear_arith);
    assert((b - a) * p == b * p - a * p) by (nonlinear_arith);
    assert((0 - (a + b)) * p == -(a * p) - b * p) by (nonlinear_arith);
}

/// Where the digits of two numbers do not come near each other, their sum
/// rounds to the larger one.
proof fn lemma_far_apart(high: Ratio, low: Ratio)
    requires
        high.finite(),
        low.finite(),
        high.shift() > low.shift() + 40,
    ensures
        rounded(high.units() + low.units()) == high.units(),
{
    lemma2_to64();
    lemma_significand_bounds(high);
    lemma_significand_bounds(low);
    let kl = low.shift();
    let kh = high.shift();
    let pl = pow2(kl);
    let ml = low.significand();
    let d = low.magnitude();
    lemma_pow2_pos(kl);
    lemma_pow2_adds(24, kl);
    if 24 + kl < kh - 2 {
        lemma_pow2_strictly_increases(24 + kl, (kh - 2) as nat);
    }
    assert(d < 0x100_0000 * pl) by (nonlinear_arith)
        requires
            d == ml * pl,
            ml < 0x100_0000,
            pl > 0,
    ;
    lemma_round_near(high.significand(), kh, d, high.negative() == low.negative());
    lemma_zero_units(high);
    lemma_pow2_pos(kh);
    let mh = high.significand();
    let ph = pow2(kh);
    assert(mh * ph > 0) by (nonlinear_arith)
        requires
            mh > 0,
            ph > 0,
    ;
}

/// `current + step`, or `current - step` unless `grows`, brought between a
/// tenth and nine tenths. A sum that is not a number changes nothing.
pub fn step_share(current: Ratio, step: Ratio, grows: bool) -> (r: Ratio)
    ensures
        r.is_share(),
        step_undefined(current, step, grows) ==> r == split_ratio(current),
        !step_undefined(current, step, grows) ==> r.units() == between(
            stepped_units(current, step, grows),
            least_share().units(),
            greatest_share().units(),
        ),
{
    proof {
        lemma_share_bounds();
        lemma_zero_units(least_share());
    }
    if current.is_nan() || step.is_nan() {
        return valid_split_ratio(current);
    }
    let other = if grows {
        step
    } else {
        step.negated()
    };
    proof {
        lemma_clamped_is_share(current);
        lemma_clamped_is_share(other);
    }
    let current_finite = current.is_finite();
    let other_finite = other.is_finite();
    if !current_finite {
        if !other_finite && (current.bits >= 0x8000_0000) != (other.bits >= 0x8000_0000) {
            return valid_split_ratio(current);
        }
        return current.clamp_share();
    }
    if !other_finite {
        return other.clamp_share();
    }
    proof {
        assert(step_undefined(current, step, grows) == false);
        assert(stepped_units(current, step, grows) == rounded(current.units() + other.units()));
    }
    let (_, current_shift) = current.parts();
    let (_, other_shift) = other.parts();
    if current_shift >= other_shift {
        sum_share(current, other)
    } else {
        sum_share(other, current)
    }
}

/// The ratio a new split starts with: the one asked for, brought between a
/// tenth and nine tenths, or an even split when what was asked for is not a
/// finite number.
pub open spec fn split_ratio(ratio: Ratio) -> Ratio {
    if ratio.finite() {
        clamped(ratio)
    } else {
        even_share()
    }
}

/// The ratio of a split that has `current` and is asked for `asked`: what was
/// asked for, brought between a tenth and nine tenths. What is not a number
/// changes nothing.
pub open spec fn settled_ratio(current: Ratio, asked: Ratio) -> Ratio {
    if asked.nan() {
        split_ratio(current)
    } else {
        clamped(asked)
    }
}

/// A ratio between a tenth and nine tenths is kept as it is asked for; one
/// below becomes a tenth, and one above nine tenths.
pub proof fn law_asked_ratio_kept(current: Ratio, asked: Ratio)
    requires
        !asked.nan(),
    ensures
        ({
            let settled = settled_ratio(current, asked);
            &&& asked.is_share() ==> settled == asked
            &&& asked.units() < least_share().units() ==> settled == least_share()
            &&& asked.units() > greatest_share().units() ==> settled == greatest_share()
        }),
{
    lemma_share_bounds();
}

/// A split's ratio ends between a tenth and nine tenths, whatever is asked
/// for, and one that is there already stays where a number is not.
pub proof fn law_settled_is_share(current: Ratio, asked: Ratio)
    ensures
        settled_ratio(current, asked).is_share(),
        split_ratio(asked).is_share(),
        current.is_share() && asked.nan() ==> settled_ratio(current, asked) == current,
        asked.is_share() ==> settled_ratio(current, asked) == asked,
{
    lemma_share_bounds();
    if !asked.nan() {
        lemma_clamped_is_share(asked);
    }
    if !current.nan() {
        lemma_clamped_is_share(current);
    }
    if current.is_share() {
        lemma_share_positive(current);
    }
}

pub fn settle_ratio(current: Ratio, asked: Ratio) -> (r: Ratio)
    ensures
        r == settled_ratio(current, asked),
        r.is_share(),
{
    proof {
        law_settled_is_share(current, asked);
    }
    if asked.is_nan() {
        valid_split_ratio(current)
    } else {
        asked.clamp_share()
    }
}

pub fn valid_split_ratio(ratio: Ratio) -> (r: Ratio)
    ensures
        r == split_ratio(ratio),
        r.is_share(),
{
    proof {
        lemma_share_bounds();
        if ratio.finite() {
            lemma_clamped_is_share(ratio);
        }
    }
    if ratio.is_finite() {
        ratio.clamp_share()
    } else {
        even_share()
    }
}

} // verus!
