//! How long a waiting side sleeps between two looks at the directory.
use vstd::prelude::*;

verus! {

/// The pause, in microseconds, after the `count`-th unsuccessful look: short
/// at first, longer the longer the wait has lasted.
pub open spec fn backoff(count: u32) -> u64 {
    if count > 100_000 {
        2_500
    } else if count > 90_000 {
        1_250
    } else if count > 75_000 {
        1_000
    } else if count > 50_000 {
        750
    } else if count > 25_000 {
        500
    } else if count > 10_000 {
        250
    } else if count > 5_000 {
        200
    } else if count > 2_500 {
        150
    } else {
        100
    }
}

/// The pause, in microseconds, after the `count`-th unsuccessful look.
pub fn backoff_micros(count: u32) -> (micros: u64)
    ensures
        micros == backoff(count),
{
    if count > 100_000 {
        2_500
    } else if count > 90_000 {
        1_250
    } else if count > 75_000 {
        1_000
    } else if count > 50_000 {
        750
    } else if count > 25_000 {
        500
    } else if count > 10_000 {
        250
    } else if count > 5_000 {
        200
    } else if count > 2_500 {
        150
    } else {
        100
    }
}

/// The pause never shrinks as the wait goes on.
pub proof fn lemma_backoff_monotone(earlier: u32, later: u32)
    requires
        earlier <= later,
    ensures
        backoff(earlier) <= backoff(later),
{
}

/// The pause lies between a tenth of a millisecond and two and a half
/// milliseconds.
pub proof fn lemma_backoff_bounds(count: u32)
    ensures
        100 <= backoff(count) <= 2_500,
{
}

} // verus!
