//! Saturating arithmetic used throughout the counter pipeline.

use vstd::prelude::*;

verus! {

/// Addition clamped to `u64::MAX` instead of overflowing.
pub open spec fn sat_add64(a: u64, b: u64) -> u64 {
    if a + b > u64::MAX {
        u64::MAX
    } else {
        (a + b) as u64
    }
}

/// Subtraction clamped to zero instead of underflowing.
pub open spec fn sat_sub64(a: u64, b: u64) -> u64 {
    if a < b {
        0u64
    } else {
        (a - b) as u64
    }
}

/// Multiplication clamped to `u64::MAX` instead of overflowing.
pub open spec fn sat_mul64(a: u64, b: u64) -> u64 {
    if a * b > u64::MAX {
        u64::MAX
    } else {
        (a * b) as u64
    }
}

/// The larger of two counters.
pub open spec fn max64(a: u64, b: u64) -> u64 {
    if a >= b {
        a
    } else {
        b
    }
}

/// Division that treats a zero divisor as one, so a rate over an empty
/// interval is the plain difference rather than an error.
pub open spec fn div_max1(a: u64, b: u64) -> u64 {
    (a as int / (if b == 0 {
        1int
    } else {
        b as int
    })) as u64
}

/// Executable division by `max(1, b)`, proved against `div_max1`.
pub fn divide_max1(a: u64, b: u64) -> (r: u64)
    ensures
        r == div_max1(a, b),
{
    let d: u64 = if b == 0 {
        1
    } else {
        b
    };
    a / d
}

/// Executable saturating multiplication, proved against `sat_mul64`.
pub fn saturating_mul64(a: u64, b: u64) -> (r: u64)
    ensures
        r == sat_mul64(a, b),
{
    match a.checked_mul(b) {
        Some(v) => v,
        None => u64::MAX,
    }
}

/// Saturating addition is monotone in both arguments.
pub proof fn lemma_sat_add64_mono(a: u64, b: u64, c: u64, d: u64)
    requires
        a <= b,
        c <= d,
    ensures
        sat_add64(a, c) <= sat_add64(b, d),
{
}

} // verus!
