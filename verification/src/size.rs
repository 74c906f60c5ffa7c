//! Byte counts as people read them: `B`, `KB`, `MB` or `GB`, with two
//! decimal places above a kilobyte.
//!
//! The places are those of the count taken as a 64-bit binary float and
//! divided by the unit, rounded to the nearest hundredth with ties going to
//! the even one. Below 2^53 the float is the count itself.

use vstd::prelude::*;
use vstd::string::StringExecFns;
use crate::text::{decimal, digit_char, push_decimal};

verus! {

/// Bytes in a kilobyte.
pub const KILOBYTE: u64 = 1024;

/// Bytes in a megabyte.
pub const MEGABYTE: u64 = 1024 * 1024;

/// Bytes in a gigabyte.
pub const GIGABYTE: u64 = 1024 * 1024 * 1024;

/// Counts from here up need more than the 53 bits that a float carries.
pub const FLOAT_EXACT_BELOW: u64 = 0x20_0000_0000_0000;

/// `numerator / denominator`, rounded to the nearest whole number; a
/// quotient half-way between two goes to the even one.
pub open spec fn round_half_even(numerator: nat, denominator: nat) -> nat
    recommends
        denominator > 0,
{
    let q = numerator / denominator;
    let r = numerator % denominator;
    if 2 * r > denominator || (2 * r == denominator && q % 2 == 1) {
        q + 1
    } else {
        q
    }
}

/// Distance between neighbouring floats at `n`: 1 below 2^53, and twice as
/// much with every further bit.
pub open spec fn float_step(n: nat) -> nat
    decreases n,
{
    if n < FLOAT_EXACT_BELOW {
        1
    } else {
        2 * float_step(n / 2)
    }
}

/// The float nearest to `n`: `n` rounded to a multiple of the step at `n`.
pub open spec fn nearest_float(n: nat) -> nat {
    round_half_even(n, float_step(n)) * float_step(n)
}

/// `n` bytes in hundredths of `unit`.
pub open spec fn hundredths(n: nat, unit: nat) -> nat
    recommends
        unit > 0,
{
    round_half_even(nearest_float(n) * 100, unit)
}

/// A number of hundredths with a decimal point: `1536` is `15.36`.
pub open spec fn two_places(h: nat) -> Seq<char> {
    decimal(h / 100) + seq!['.', digit_char(h / 10 % 10), digit_char(h % 10)]
}

/// A byte count for a reader: up to a kilobyte in bytes, up to a megabyte
/// in kilobytes, up to a gigabyte in megabytes, beyond that in gigabytes.
pub open spec fn human_readable(n: nat) -> Seq<char> {
    if n <= KILOBYTE {
        decimal(n) + "B"@
    } else if n <= MEGABYTE {
        two_places(hundredths(n, KILOBYTE as nat)) + "KB"@
    } else if n <= GIGABYTE {
        two_places(hundredths(n, MEGABYTE as nat)) + "MB"@
    } else {
        two_places(hundredths(n, GIGABYTE as nat)) + "GB"@
    }
}

/// The step at `n` is at least 1, and over 2^52 it is at most `n`; `n`
/// over its step has at most 53 bits.
pub proof fn lemma_float_step_bounds(n: nat)
    ensures
        1 <= float_step(n),
        n < FLOAT_EXACT_BELOW ==> float_step(n) == 1,
        n >= FLOAT_EXACT_BELOW ==> float_step(n) * 0x10_0000_0000_0000 <= n,
        n < float_step(n) * 0x20_0000_0000_0000,
    decreases n,
{
    if n >= FLOAT_EXACT_BELOW {
        lemma_float_step_bounds(n / 2);
    }
}

/// Rounding moves a quotient by less than one.
pub proof fn lemma_round_half_even_bounds(numerator: nat, denominator: nat)
    requires
        denominator > 0,
    ensures
        numerator / denominator <= round_half_even(numerator, denominator) <= numerator
            / denominator + 1,
        round_half_even(numerator, denominator) * denominator <= numerator + denominator,
        numerator % denominator == 0 ==> round_half_even(numerator, denominator) * denominator
            == numerator,
{
    let q = numerator / denominator;
    let r = numerator % denominator;
    vstd::arithmetic::div_mod::lemma_fundamental_div_mod(numerator as int, denominator as int);
    vstd::arithmetic::div_mod::lemma_mod_bound(numerator as int, denominator as int);
    assert(denominator * q == q * denominator) by (nonlinear_arith);
    assert((q + 1) * denominator == q * denominator + denominator) by (nonlinear_arith);
}

/// Below 2^53 a count is its own float.
pub proof fn lemma_small_counts_are_exact(n: nat)
    requires
        n < FLOAT_EXACT_BELOW,
    ensures
        nearest_float(n) == n,
{
    assert(float_step(n) == 1);
}

/// The step between floats at `n`.
fn float_step_of(n: u64) -> (step: u64)
    ensures
        step == float_step(n as nat),
        1 <= step < 4096,
{
    proof {
        lemma_float_step_bounds(n as nat);
    }
    let mut rest: u64 = n;
    let mut step: u64 = 1;
    while rest >= FLOAT_EXACT_BELOW
        invariant
            1 <= step,
            step * float_step(rest as nat) == float_step(n as nat),
            float_step(n as nat) < 4096,
        decreases rest,
    {
        proof {
            let s = float_step((rest / 2) as nat) as int;
            let t = step as int;
            assert(t * (2 * s) == (t * 2) * s) by (nonlinear_arith);
            assert(s >= 1) by {
                lemma_float_step_bounds((rest / 2) as nat);
            }
            assert(t * 2 < 4096) by (nonlinear_arith)
                requires
                    (t * 2) * s < 4096,
                    s >= 1,
                    t >= 1,
            ;
        }
        rest = rest / 2;
        step = step * 2;
    }
    proof {
        assert(step * 1 == step);
    }
    step
}

/// `numerator / denominator` rounded half to even.
fn rounded_quotient(numerator: u128, denominator: u64) -> (q: u128)
    requires
        denominator > 0,
        numerator < u128::MAX,
    ensures
        q == round_half_even(numerator as nat, denominator as nat),
{
    let d: u128 = denominator as u128;
    let whole: u128 = numerator / d;
    let rest: u128 = numerator % d;
    if 2 * rest > d || (2 * rest == d && whole % 2 == 1) {
        whole + 1
    } else {
        whole
    }
}

/// The float nearest to `n`.
fn nearest_float_of(n: u64) -> (v: u128)
    ensures
        v == nearest_float(n as nat),
        v <= n + 4096,
{
    let step: u64 = float_step_of(n);
    let q: u128 = rounded_quotient(n as u128, step);
    proof {
        lemma_round_half_even_bounds(n as nat, step as nat);
    }
    q * (step as u128)
}

/// Appends `n` bytes in hundredths of `unit`, with a decimal point.
fn push_two_places(out: &mut String, n: u64, unit: u64)
    requires
        unit >= 1024,
    ensures
        final(out)@ == old(out)@ + two_places(hundredths(n as nat, unit as nat)),
{
    let float: u128 = nearest_float_of(n);
    let h: u128 = rounded_quotient(float * 100, unit);
    proof {
        let scaled = (float * 100) as int;
        lemma_round_half_even_bounds(scaled as nat, unit as nat);
        assert(scaled / (unit as int) <= scaled / 1024) by {
            vstd::arithmetic::div_mod::lemma_div_is_ordered_by_denominator(
                scaled,
                1024,
                unit as int,
            );
        }
    }
    let whole: u64 = (h / 100) as u64;
    let tenths: u64 = (h / 10 % 10) as u64;
    let last: u64 = (h % 10) as u64;
    push_decimal(out, whole);
    out.append(".");
    push_decimal(out, tenths);
    push_decimal(out, last);
    proof {
        reveal_strlit(".");
        let hn = h as nat;
        assert(old(out)@ + decimal(hn / 100) + "."@ + decimal(tenths as nat) + decimal(
            last as nat,
        ) =~= old(out)@ + two_places(hn));
    }
}

/// A byte count for a reader, such as `512B`, `1.50KB` or `2.00GB`.
pub fn file_size_human_readable(file_size: u64) -> (text: String)
    ensures
        text@ == human_readable(file_size as nat),
{
    let mut text = String::new();
    if file_size <= KILOBYTE {
        push_decimal(&mut text, file_size);
        text.append("B");
    } else if file_size <= MEGABYTE {
        push_two_places(&mut text, file_size, KILOBYTE);
        text.append("KB");
    } else if file_size <= GIGABYTE {
        push_two_places(&mut text, file_size, MEGABYTE);
        text.append("MB");
    } else {
        push_two_places(&mut text, file_size, GIGABYTE);
        text.append("GB");
    }
    text
}

} // verus!
