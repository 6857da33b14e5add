//! Rounding of natural numbers to a number of significant bits.
//!
//! Layout shares and byte sizes are shown the way binary floating point
//! computes them. Every such value is an integer number of some power of two,
//! so the rounding is stated and computed on integers here: to the nearest
//! representable value, ties to the even one.

use vstd::arithmetic::div_mod::{
    lemma_fundamental_div_mod, lemma_fundamental_div_mod_converse, lemma_mod_bound,
};
use vstd::arithmetic::power2::{
    lemma_pow2_adds, lemma_pow2_pos, lemma_pow2_strictly_increases, lemma_pow2_unfold, pow2,
};
use vstd::prelude::*;

verus! {

/// How many binary digits `n` has; zero has none.
pub open spec fn bit_length(n: nat) -> nat
    decreases n,
{
    if n == 0 {
        0
    } else {
        1 + bit_length(n / 2)
    }
}

/// `n / step` rounded to the nearest integer, a tie going to the even one.
pub open spec fn nearest_even(n: nat, step: nat) -> nat {
    let quotient = n / step;
    let rest = n % step;
    if 2 * rest > step || (2 * rest == step && quotient % 2 == 1) {
        quotient + 1
    } else {
        quotient
    }
}

/// The rounded quotient is within half a step, and even where it is exactly
/// half a step off.
pub proof fn law_nearest_within_half(n: nat, step: nat)
    requires
        step > 0,
    ensures
        2 * (n - nearest_even(n, step) * step) <= step,
        2 * (nearest_even(n, step) * step - n) <= step,
        2 * (n - nearest_even(n, step) * step) == step || 2 * (nearest_even(n, step) * step - n)
            == step ==> nearest_even(n, step) % 2 == 0,
{
    let quotient = n / step;
    lemma_fundamental_div_mod(n as int, step as int);
    assert(step * quotient == quotient * step) by (nonlinear_arith);
    assert((quotient + 1) * step == quotient * step + step) by (nonlinear_arith);
    lemma_mod_bound(n as int, step as int);
}

/// The value nearest to `n` among those with at most `bits` significant bits,
/// a tie going to the value whose last significant bit is zero.
pub open spec fn round_to_bits(n: nat, bits: nat) -> nat {
    if bit_length(n) <= bits {
        n
    } else {
        let step = pow2((bit_length(n) - bits) as nat);
        nearest_even(n, step) * step
    }
}

/// A positive number lies between the powers of two around its bit length.
pub proof fn lemma_bit_length_bounds(n: nat)
    ensures
        n < pow2(bit_length(n)),
        n > 0 ==> pow2((bit_length(n) - 1) as nat) <= n,
    decreases n,
{
    if n == 0 {
        lemma_pow2_pos(0);
    } else {
        lemma_bit_length_bounds(n / 2);
        lemma_pow2_unfold(bit_length(n));
        if n / 2 > 0 {
            lemma_pow2_unfold((bit_length(n) - 1) as nat);
        } else {
            assert(n == 1);
            assert(bit_length(0) == 0);
            vstd::arithmetic::power2::lemma2_to64();
        }
    }
}

/// The powers of two around a number determine its bit length.
pub proof fn lemma_bit_length_unique(n: nat, len: nat)
    requires
        len > 0,
        pow2((len - 1) as nat) <= n < pow2(len),
    ensures
        bit_length(n) == len,
{
    lemma_pow2_pos((len - 1) as nat);
    lemma_bit_length_bounds(n);
    let own = bit_length(n);
    assert(own > 0) by {
        assert(n > 0);
    }
    if own < len {
        if own < len - 1 {
            lemma_pow2_strictly_increases(own, (len - 1) as nat);
        }
    } else if own > len {
        if len < own - 1 {
            lemma_pow2_strictly_increases(len, (own - 1) as nat);
        }
    }
}

/// Doubling `k` times adds `k` to the bit length.
pub proof fn lemma_bit_length_scaled(n: nat, k: nat)
    requires
        n > 0,
    ensures
        bit_length(n * pow2(k)) == bit_length(n) + k,
{
    let len = bit_length(n);
    lemma_bit_length_bounds(n);
    lemma_pow2_pos(k);
    lemma_pow2_adds(len, k);
    lemma_pow2_adds((len - 1) as nat, k);
    let low = pow2((len - 1) as nat);
    let high = pow2(len);
    let scale = pow2(k);
    assert(low * scale <= n * scale < high * scale) by (nonlinear_arith)
        requires
            low <= n < high,
            scale > 0,
    ;
    lemma_bit_length_unique(n * scale, len + k);
}

/// Rounding to a step commutes with scaling both by the same factor.
pub proof fn lemma_nearest_even_scaled(n: nat, step: nat, scale: nat)
    requires
        step > 0,
        scale > 0,
    ensures
        nearest_even(n * scale, step * scale) == nearest_even(n, step),
{
    let q = n / step;
    let r = n % step;
    lemma_fundamental_div_mod(n as int, step as int);
    assert(n * scale == q * (step * scale) + r * scale) by (nonlinear_arith)
        requires
            n == step * q + r,
    ;
    assert(0 <= r * scale < step * scale) by (nonlinear_arith)
        requires
            r < step,
            scale > 0,
    ;
    lemma_fundamental_div_mod_converse(
        (n * scale) as int,
        (step * scale) as int,
        q as int,
        (r * scale) as int,
    );
    assert((2 * r > step) == (2 * (r * scale) > step * scale)) by (nonlinear_arith)
        requires
            scale > 0,
    ;
    assert((2 * r == step) == (2 * (r * scale) == step * scale)) by (nonlinear_arith)
        requires
            scale > 0,
    ;
}

/// Scaling by a power of two commutes with rounding to significant bits.
pub proof fn lemma_round_scaled(n: nat, bits: nat, k: nat)
    ensures
        round_to_bits(n * pow2(k), bits) == round_to_bits(n, bits) * pow2(k),
{
    let scale = pow2(k);
    lemma_pow2_pos(k);
    if n == 0 {
        assert(0 * scale == 0) by (nonlinear_arith);
    } else {
        lemma_bit_length_scaled(n, k);
        let len = bit_length(n);
        if len + k <= bits {
        } else if len <= bits {
            // The scaled value is a multiple of its rounding step.
            let big = (len + k - bits) as nat;
            let gap = (bits - len) as nat;
            let step = pow2(big);
            lemma_pow2_adds(big, gap);
            lemma_pow2_pos(big);
            assert(big + gap == k);
            let q = n * pow2(gap);
            assert(n * scale == q * step + 0) by (nonlinear_arith)
                requires
                    scale == step * pow2(gap),
                    q == n * pow2(gap),
            ;
            lemma_fundamental_div_mod_converse((n * scale) as int, step as int, q as int, 0);
        } else {
            let step = pow2((len - bits) as nat);
            lemma_pow2_pos((len - bits) as nat);
            lemma_pow2_adds((len - bits) as nat, k);
            lemma_nearest_even_scaled(n, step, scale);
            let q = nearest_even(n, step);
            assert(q * (step * scale) == (q * step) * scale) by (nonlinear_arith);
        }
    }
}

/// A number already of at most `bits` significant bits is its own rounding.
pub proof fn lemma_round_exact(m: nat, bits: nat, k: nat)
    requires
        m < pow2(bits),
    ensures
        round_to_bits(m * pow2(k), bits) == m * pow2(k),
{
    lemma_round_scaled(m, bits, k);
    if bit_length(m) > bits {
        lemma_bit_length_bounds(m);
        assert(m > 0);
        if bits < bit_length(m) - 1 {
            lemma_pow2_strictly_increases(bits, (bit_length(m) - 1) as nat);
        }
    }
}

/// Rounding a number of at most `len` bits stays within `2^len`.
pub proof fn lemma_round_bounded(n: nat, bits: nat, len: nat)
    requires
        bits > 0,
        n < pow2(len),
    ensures
        round_to_bits(n, bits) <= pow2(len),
{
    let own = bit_length(n);
    lemma_bit_length_bounds(n);
    if own > len {
        if len < own - 1 {
            lemma_pow2_strictly_increases(len, (own - 1) as nat);
        }
        assert(n > 0);
        assert(false);
    }
    if own > bits {
        let d = (own - bits) as nat;
        let step = pow2(d);
        lemma_pow2_pos(d);
        let q = n / step;
        let r = n % step;
        lemma_fundamental_div_mod(n as int, step as int);
        lemma_pow2_adds(bits, d);
        let top = pow2(bits);
        assert(q < top) by (nonlinear_arith)
            requires
                n == step * q + r,
                r >= 0,
                n < top * step,
                step > 0,
        ;
        assert((q + 1) * step <= top * step) by (nonlinear_arith)
            requires
                q + 1 <= top,
                step > 0,
        ;
        assert(q * step <= (q + 1) * step) by (nonlinear_arith)
            requires
                step > 0,
        ;
        assert(round_to_bits(n, bits) <= pow2(own));
    }
    if own < len {
        lemma_pow2_strictly_increases(own, len);
    }
}

/// `2^e` as a machine word.
pub fn power_of_two(e: u32) -> (r: u128)
    requires
        e < 127,
    ensures
        r == pow2(e as nat),
        0 < r <= 0x4000_0000_0000_0000_0000_0000_0000_0000,
{
    let mut value: u128 = 1;
    let mut i: u32 = 0;
    proof {
        vstd::arithmetic::power2::lemma2_to64();
        lemma_pow2_126();
    }
    while i < e
        invariant
            i <= e < 127,
            value == pow2(i as nat),
            pow2(126) == 0x4000_0000_0000_0000_0000_0000_0000_0000,
        decreases e - i,
    {
        proof {
            lemma_pow2_unfold((i + 1) as nat);
            if i + 1 < 126 {
                lemma_pow2_strictly_increases((i + 1) as nat, 126);
            }
        }
        value = value * 2;
        i = i + 1;
    }
    proof {
        lemma_pow2_pos(e as nat);
        if e < 126 {
            lemma_pow2_strictly_increases(e as nat, 126);
        }
    }
    value
}

/// The bit length of a machine word.
pub fn bit_length_of(n: u128) -> (r: u32)
    ensures
        r == bit_length(n as nat),
        r <= 128,
{
    let mut rest: u128 = n;
    let mut len: u32 = 0;
    proof {
        lemma_bit_length_bounds(n as nat);
        lemma_pow2_126();
        lemma_pow2_unfold(127);
        lemma_pow2_unfold(128);
        if bit_length(n as nat) > 129 {
            lemma_pow2_strictly_increases(128, (bit_length(n as nat) - 1) as nat);
        }
    }
    while rest > 0
        invariant
            len + bit_length(rest as nat) == bit_length(n as nat),
            len + bit_length(rest as nat) <= 128,
        decreases rest,
    {
        rest = rest / 2;
        len = len + 1;
    }
    len
}

/// `n / step` to the nearest integer, ties to even.
pub fn nearest_even_of(n: u128, step: u128) -> (r: u128)
    requires
        0 < step <= 0x4000_0000_0000_0000_0000_0000_0000_0000,
        n < 0x8000_0000_0000_0000_0000_0000_0000_0000,
    ensures
        r == nearest_even(n as nat, step as nat),
{
    let quotient = n / step;
    let rest = n % step;
    proof {
        lemma_fundamental_div_mod(n as int, step as int);
        assert(quotient <= n) by (nonlinear_arith)
            requires
                n == step * quotient + rest,
                rest >= 0,
                quotient >= 0,
                step >= 1,
        ;
    }
    if 2 * rest > step || (2 * rest == step && quotient % 2 == 1) {
        quotient + 1
    } else {
        quotient
    }
}

/// `n` to `bits` significant bits, ties to even.
pub fn round_to_bits_of(n: u128, bits: u32) -> (r: u128)
    requires
        0 < bits,
        n < 0x4000_0000_0000_0000_0000_0000_0000_0000,
    ensures
        r == round_to_bits(n as nat, bits as nat),
{
    let len = bit_length_of(n);
    if len <= bits {
        n
    } else {
        proof {
            lemma_pow2_126();
            lemma_bit_length_bounds(n as nat);
            if len > 126 {
                if len - 1 > 126 {
                    lemma_pow2_strictly_increases(126, (len - 1) as nat);
                }
            }
            lemma_round_bounded(n as nat, bits as nat, 126);
        }
        let step = power_of_two(len - bits);
        let count = nearest_even_of(n, step);
        count * step
    }
}

proof fn lemma_pow2_126()
    ensures
        pow2(126) == 0x4000_0000_0000_0000_0000_0000_0000_0000,
{
    vstd::arithmetic::power2::lemma2_to64();
    vstd::arithmetic::power2::lemma2_to64_rest();
    lemma_pow2_adds(63, 63);
}

} // verus!
