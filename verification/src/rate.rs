//! Bytes per second from a byte count and an elapsed time.

use vstd::arithmetic::div_mod::lemma_fundamental_div_mod;
use vstd::arithmetic::div_mod::lemma_hoist_over_denominator;
use vstd::prelude::*;

verus! {

/// The nanoseconds of one second.
pub const NANOS_PER_SEC: u64 = 1_000_000_000;

/// `bytes` divided by `nanos` taken as seconds, rounded to the nearest
/// integer, a half rounding up. Zero when no time has passed.
pub open spec fn rounded_rate(bytes: nat, nanos: nat) -> nat {
    if nanos == 0 {
        0
    } else {
        ((2 * bytes * NANOS_PER_SEC + nanos) / ((2 * nanos) as int)) as nat
    }
}

/// `n` where it fits a `usize`, the largest `usize` where it does not.
pub open spec fn saturated(n: nat) -> usize {
    if n > usize::MAX {
        usize::MAX
    } else {
        n as usize
    }
}

/// The rounded rate is the whole multiples of the elapsed time, each worth
/// a second's count, plus the rounded rate of what is left over.
pub proof fn lemma_rate_split(bytes: nat, nanos: nat)
    requires
        nanos > 0,
    ensures
        rounded_rate(bytes, nanos) == (bytes / nanos) * NANOS_PER_SEC + rounded_rate(
            bytes % nanos,
            nanos,
        ),
{
    let q = bytes as int / nanos as int;
    let r = bytes as int % nanos as int;
    let d = nanos as int;
    lemma_fundamental_div_mod(bytes as int, d);
    assert(2 * bytes * NANOS_PER_SEC + d == (2 * r * NANOS_PER_SEC + d) + (q * NANOS_PER_SEC) * (2
        * d)) by (nonlinear_arith)
        requires
            bytes == d * q + r,
    ;
    lemma_hoist_over_denominator(2 * r * NANOS_PER_SEC + d, q * NANOS_PER_SEC, (2 * d) as nat);
    assert(q >= 0 && r >= 0 && r < d) by (nonlinear_arith)
        requires
            bytes == d * q + r,
            0 <= r < d,
            d > 0,
            bytes >= 0,
    ;
    assert((2 * r * NANOS_PER_SEC + d) / (2 * d) >= 0) by (nonlinear_arith)
        requires
            r >= 0,
            d > 0,
    ;
}

/// The rounded rate is the integer nearest to the exact quotient: it differs
/// from `bytes` times a second over `nanos` by half a unit at most, and by
/// less than that from below.
pub proof fn lemma_rounded_rate_nearest(bytes: nat, nanos: nat)
    requires
        nanos > 0,
    ensures
        2 * bytes * NANOS_PER_SEC - nanos < 2 * rounded_rate(bytes, nanos) * nanos,
        2 * rounded_rate(bytes, nanos) * nanos <= 2 * bytes * NANOS_PER_SEC + nanos,
{
    let x = (2 * bytes * NANOS_PER_SEC + nanos) as int;
    let d = (2 * nanos) as int;
    lemma_fundamental_div_mod(x, d);
    let q = x / d;
    assert(0 <= x % d < d && q >= 0) by (nonlinear_arith)
        requires
            x >= 0,
            d > 0,
            q == x / d,
    ;
    assert(d * q == 2 * q * nanos) by (nonlinear_arith)
        requires
            d == 2 * nanos,
    ;
}

/// The average rate in bytes per second of `bytes` moved in `nanos`
/// nanoseconds, rounded to the nearest integer and held to the range of
/// `usize`.
pub fn rate(bytes: u128, nanos: u64) -> (per_second: usize)
    ensures
        per_second == saturated(rounded_rate(bytes as nat, nanos as nat)),
{
    if nanos == 0 {
        return 0;
    }
    let d: u128 = nanos as u128;
    let q: u128 = bytes / d;
    let r: u128 = bytes % d;
    proof {
        lemma_rate_split(bytes as nat, nanos as nat);
    }
    if q > usize::MAX as u128 {
        return usize::MAX;
    }
    let whole: u128 = q * (NANOS_PER_SEC as u128);
    let part: u128 = (2 * r * (NANOS_PER_SEC as u128) + d) / (2 * d);
    let sum: u128 = whole + part;
    if sum > usize::MAX as u128 {
        usize::MAX
    } else {
        sum as usize
    }
}

} // verus!
