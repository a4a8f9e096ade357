//! Shared helpers used by the runtime and contract layers.
use vstd::prelude::*;

use crate::errors::KernelError;

verus! {

/// Fixed-point scale of micro-scores: `1_000_000` stands for one.
pub const AUTH_RATIO_SCALE: u64 = 1_000_000;

/// `value` bounded above by `max`, then below by `min` (so `min` wins when `min > max`).
pub open spec fn clamp_spec(value: u128, min: u128, max: u128) -> u128 {
    let upper = if value <= max { value } else { max };
    if upper >= min { upper } else { min }
}

pub fn clamp_u128(value: u128, min: u128, max: u128) -> (r: u128)
    ensures
        r == clamp_spec(value, min, max),
        min <= max ==> min <= r <= max,
        min <= value <= max ==> r == value,
{
    let upper = if value <= max { value } else { max };
    if upper >= min { upper } else { min }
}

/// `a * b`, or `u128::MAX` when the product does not fit.
pub open spec fn sat_mul(a: u128, b: u128) -> u128 {
    if a * b > u128::MAX { u128::MAX } else { (a * b) as u128 }
}

pub fn saturating_mul_u128(a: u128, b: u128) -> (r: u128)
    ensures
        r == sat_mul(a, b),
{
    match a.checked_mul(b) {
        Some(v) => v,
        None => u128::MAX,
    }
}

/// `numerator / denominator` in micro units, capped at one (`1_000_000`).
pub open spec fn ratio_micros_spec(numerator: u128, denominator: u128) -> u32
    recommends
        denominator != 0,
{
    let scaled = sat_mul(numerator, AUTH_RATIO_SCALE as u128) / denominator;
    if scaled <= AUTH_RATIO_SCALE { scaled as u32 } else { AUTH_RATIO_SCALE as u32 }
}

pub fn ratio_to_micros(numerator: u128, denominator: u128) -> (r: Result<u32, KernelError>)
    ensures
        denominator == 0 <==> r is Err,
        denominator == 0 ==> (r matches Err(KernelError::InvalidParameter(m))
            && m@ == "ratio denominator must be non-zero"@),
        denominator != 0 ==> r == Ok::<u32, KernelError>(ratio_micros_spec(numerator, denominator)),
        r matches Ok(v) ==> v <= AUTH_RATIO_SCALE,
{
    if denominator == 0 {
        return Err(KernelError::InvalidParameter(
            String::from_str("ratio denominator must be non-zero"),
        ));
    }
    let scaled = saturating_mul_u128(numerator, AUTH_RATIO_SCALE as u128) / denominator;
    if scaled <= AUTH_RATIO_SCALE as u128 {
        Ok(scaled as u32)
    } else {
        Ok(AUTH_RATIO_SCALE as u32)
    }
}

pub fn canonical_bool(b: bool) -> (r: &'static str)
    ensures
        r@ == (if b { "true"@ } else { "false"@ }),
{
    if b { "true" } else { "false" }
}

/// The ASCII digit for `d < 10`.
pub open spec fn digit_char(d: nat) -> char {
    if d == 0 { '0' } else if d == 1 { '1' } else if d == 2 { '2' } else if d == 3 { '3' }
    else if d == 4 { '4' } else if d == 5 { '5' } else if d == 6 { '6' } else if d == 7 { '7' }
    else if d == 8 { '8' } else { '9' }
}

/// The decimal representation of `n`, without sign or leading zeros.
pub open spec fn decimal(n: nat) -> Seq<char>
    decreases n,
{
    if n < 10 { seq![digit_char(n)] } else { decimal(n / 10).push(digit_char(n % 10)) }
}

fn digit_str(d: u128) -> (r: &'static str)
    requires
        d < 10,
    ensures
        r@ == seq![digit_char(d as nat)],
{
    proof {
        reveal_strlit("0");
        reveal_strlit("1");
        reveal_strlit("2");
        reveal_strlit("3");
        reveal_strlit("4");
        reveal_strlit("5");
        reveal_strlit("6");
        reveal_strlit("7");
        reveal_strlit("8");
        reveal_strlit("9");
    }
    if d == 0 { "0" } else if d == 1 { "1" } else if d == 2 { "2" } else if d == 3 { "3" }
    else if d == 4 { "4" } else if d == 5 { "5" } else if d == 6 { "6" } else if d == 7 { "7" }
    else if d == 8 { "8" } else { "9" }
}

spec fn decimal_lead(r: nat) -> Seq<char> {
    if r == 0 { seq![] } else { decimal(r) }
}

/// Decimal text of `n`.
pub(crate) fn decimal_string(n: u128) -> (s: String)
    ensures
        s@ == decimal(n as nat),
{
    let mut rest: u128 = n / 10;
    let mut s = String::from_str(digit_str(n % 10));
    proof {
        if n >= 10 {
            assert(decimal(n as nat) == decimal((n / 10) as nat).push(digit_char((n % 10) as nat)));
        }
        assert(decimal(n as nat) =~= decimal_lead(rest as nat) + s@);
    }
    while rest > 0
        invariant
            decimal(n as nat) == decimal_lead(rest as nat) + s@,
        decreases rest,
    {
        let d = rest % 10;
        let next = rest / 10;
        let piece = String::from_str(digit_str(d));
        proof {
            if rest >= 10 {
                assert(decimal(rest as nat) == decimal(next as nat).push(digit_char(d as nat)));
            }
            assert(decimal_lead(rest as nat) + s@ =~= decimal_lead(next as nat) + (piece@ + s@));
        }
        s = piece.concat(s.as_str());
        rest = next;
    }
    assert(decimal(n as nat) =~= s@);
    s
}

} // verus!
