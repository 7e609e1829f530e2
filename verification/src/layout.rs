//! The arithmetic of the write-time layout engine: rounding the shared data
//! cursor up to a pointee's alignment.

use crate::error::SsbhError;
use vstd::arithmetic::div_mod::{
    lemma_fundamental_div_mod, lemma_mod_bound, lemma_mod_multiples_basic,
};
use vstd::prelude::*;

verus! {

/// The smallest multiple of `n` that is at least `value`.
pub open spec fn spec_round_up(value: int, n: int) -> int
    recommends
        n >= 1,
{
    ((value + n - 1) / n) * n
}

/// Bounds of `spec_round_up`: the result is the next multiple of `n` at or
/// after `value`.
pub proof fn lemma_round_up_bounds(value: int, n: int)
    requires
        n >= 1,
        value >= 0,
    ensures
        spec_round_up(value, n) % n == 0,
        value <= spec_round_up(value, n) < value + n,
{
    let a = value + n - 1;
    lemma_fundamental_div_mod(a, n);
    lemma_mod_bound(a, n);
    lemma_mod_multiples_basic(a / n, n);
    assert((a / n) * n == n * (a / n)) by (nonlinear_arith);
    assert(spec_round_up(value, n) == a - a % n);
}

/// Finds the next largest multiple of `n`.
pub fn round_up(value: u64, n: u64) -> (r: u64)
    requires
        1 <= n,
        value + n - 1 <= u64::MAX,
    ensures
        r == spec_round_up(value as int, n as int),
        r % n == 0,
        value <= r < value + n,
{
    proof {
        lemma_round_up_bounds(value as int, n as int);
    }
    ((value + (n - 1)) / n) * n
}

/// `round_up` with the overflow of `value + n - 1` caught and reported as a
/// recoverable failure instead of excluded by contract.
pub fn checked_round_up(value: u64, n: u64) -> (r: Result<u64, SsbhError>)
    requires
        1 <= n,
    ensures
        match r {
            Ok(v) => value + n - 1 <= u64::MAX && v == spec_round_up(
                value as int,
                n as int,
            ) && v % n == 0 && value <= v < value + n,
            Err(e) => value + n - 1 > u64::MAX && e == SsbhError::OffsetOverflow,
        },
{
    if value <= u64::MAX - (n - 1) {
        Ok(round_up(value, n))
    } else {
        Err(SsbhError::OffsetOverflow)
    }
}

} // verus!
