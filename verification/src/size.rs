//! Human-readable byte sizes, as the health and backup pages show them.
//!
//! Sizes of a KiB and more are printed with two decimals, the way Rust prints
//! an `f64` with `{:.2}`: the quotient is taken of the nearest `f64` to the
//! byte count and rounded to two places, half to even. The arithmetic below
//! does this exactly with integers.

use vstd::prelude::*;
use crate::text::{nat_decimal, digit_char, u64_decimal};

verus! {

pub open spec fn pow2(k: nat) -> nat
    decreases k,
{
    if k == 0 {
        1
    } else {
        2 * pow2((k - 1) as nat)
    }
}

/// How many low bits of `b` an `f64` (53-bit significand) cannot hold.
pub open spec fn excess_bits(b: nat) -> nat
    decreases b,
{
    if b < 9007199254740992 {
        0
    } else {
        1 + excess_bits(b / 2)
    }
}

/// The integer value of the `f64` nearest to `b` (ties to even), that is
/// `b as f64`.
pub open spec fn nearest_f64(b: nat) -> nat {
    let unit = pow2(excess_bits(b));
    let rem = b % unit;
    let lo = (b - rem) as nat;
    if rem * 2 > unit || (rem * 2 == unit && (lo / unit) % 2 == 1) {
        lo + unit
    } else {
        lo
    }
}

/// `n / d` rounded to the nearest integer, ties to even.
pub open spec fn div_round_half_even(n: nat, d: nat) -> nat
    recommends
        d > 0,
{
    let q = n / d;
    let r = n % d;
    if r * 2 > d || (r * 2 == d && q % 2 == 1) {
        q + 1
    } else {
        q
    }
}

/// A count of hundredths printed with two decimals.
pub open spec fn hundredths_text(h: nat) -> Seq<char> {
    nat_decimal(h / 100) + seq!['.', digit_char((h % 100) / 10), digit_char(h % 10)]
}

/// What `format_size` prints for a byte count.
pub open spec fn format_size_text(b: nat) -> Seq<char> {
    if b < 1024 {
        nat_decimal(b) + " B"@
    } else if b < 1048576 {
        hundredths_text(div_round_half_even(b * 100, 1024)) + " KB"@
    } else {
        hundredths_text(div_round_half_even(nearest_f64(b) * 100, 1048576)) + " MB"@
    }
}

fn div_round_half_even_u128(n: u128, d: u128) -> (r: u128)
    requires
        d > 0,
        d <= 0x1_0000_0000,
        n < 0x1_0000_0000_0000_0000_0000_0000,
    ensures
        r == div_round_half_even(n as nat, d as nat),
{
    let q = n / d;
    let r = n % d;
    assert(q <= n) by (nonlinear_arith)
        requires q == n / d, d > 0;
    if r * 2 > d || (r * 2 == d && q % 2 == 1) {
        q + 1
    } else {
        q
    }
}

fn nearest_f64_of(b: u64) -> (r: u128)
    requires
        b >= 1,
    ensures
        r == nearest_f64(b as nat),
        r <= 2 * (b as nat),
{
    let mut cur: u64 = b;
    let mut unit: u128 = 1;
    let ghost mut k: nat = 0;
    while cur >= 9007199254740992
        invariant
            excess_bits(b as nat) == k + excess_bits(cur as nat),
            unit == pow2(k),
            unit * cur <= b,
            unit >= 1,
            cur >= 1,
        decreases cur,
    {
        let next = cur / 2;
        assert(unit * 2 * next <= unit * cur) by (nonlinear_arith)
            requires next == cur / 2, unit >= 1;
        assert(unit <= b) by (nonlinear_arith)
            requires unit * cur <= b, cur >= 1;
        cur = next;
        unit = unit * 2;
        proof {
            k = k + 1;
        }
    }
    assert(unit <= b) by (nonlinear_arith)
        requires unit * cur <= b, unit >= 1, cur >= 1;
    let rem = (b as u128) % unit;
    let lo = (b as u128) - rem;
    assert(lo / unit * unit == lo) by (nonlinear_arith)
        requires lo == b - rem, rem == (b as u128) % unit, unit >= 1;
    if rem * 2 > unit || (rem * 2 == unit && (lo / unit) % 2 == 1) {
        assert(rem * 2 > 0);
        lo + unit
    } else {
        lo
    }
}

fn hundredths_string(h: u128) -> (r: String)
    requires
        h < 0x1_0000_0000_0000_0000,
    ensures
        r@ == hundredths_text(h as nat),
{
    let mut s = u64_decimal((h / 100) as u64);
    let tens = ((h % 100) / 10) as u8;
    let ones = (h % 10) as u8;
    crate::text::push_char(&mut s, '.');
    crate::text::push_char(&mut s, (tens + 48u8) as char);
    crate::text::push_char(&mut s, (ones + 48u8) as char);
    assert(s@ =~= hundredths_text(h as nat));
    s
}

/// A byte count as `"N B"`, `"N.NN KB"` or `"N.NN MB"`.
pub fn format_size(bytes: u64) -> (r: String)
    ensures
        r@ == format_size_text(bytes as nat),
{
    if bytes < 1024 {
        let mut s = u64_decimal(bytes);
        s.append(" B");
        s
    } else if bytes < 1048576 {
        let h = div_round_half_even_u128((bytes as u128) * 100, 1024);
        assert(h <= (bytes as nat) * 100 / 1024 + 1);
        let mut s = hundredths_string(h);
        s.append(" KB");
        s
    } else {
        let f = nearest_f64_of(bytes);
        let h = div_round_half_even_u128(f * 100, 1048576);
        assert(h <= f * 100 / 1048576 + 1);
        let mut s = hundredths_string(h);
        s.append(" MB");
        s
    }
}

} // verus!
