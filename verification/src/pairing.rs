//! Sample pairing adapter.
//!
//! Regroups a flat sequence of interleaved samples `(I, Q, I, Q, ...)`
//! into the tuples the feature formulas consume: non-overlapping pairs
//! for amplitude and phase, and stride-2 quadruples for the phase
//! difference that yields instantaneous frequency.

use vstd::prelude::*;

verus! {

/// Number of non-overlapping I/Q pairs in a source of `n` samples.
pub open spec fn pair_count(n: int) -> int {
    n / 2
}

/// Number of stride-2 quadruples in a source of `n` samples.
///
/// Successive quadruples overlap by one pair on purpose: adjacent
/// instants share an I/Q reading as both "current" and "previous".
pub open spec fn quad_count(n: int) -> int {
    if n >= 2 {
        (n - 2) / 2
    } else {
        0
    }
}

/// Groups the samples into non-overlapping `(I, Q)` pairs.
///
/// Pair `k` is `(samples[2k], samples[2k + 1])`; a trailing odd sample
/// is dropped.
pub fn pairs(samples: &Vec<i16>) -> (r: Vec<(i16, i16)>)
    ensures
        r@.len() == pair_count(samples@.len() as int),
        forall|k: int|
            0 <= k < r@.len() ==> r@[k] == (samples@[2 * k], samples@[2 * k + 1]),
{
    let n = samples.len();
    let mut r: Vec<(i16, i16)> = Vec::new();
    let mut k: usize = 0;
    while 2 * k + 1 < n
        invariant
            n == samples@.len(),
            k <= pair_count(n as int),
            r@.len() == k,
            forall|j: int|
                0 <= j < k ==> r@[j] == (samples@[2 * j], samples@[2 * j + 1]),
        decreases n - 2 * k,
    {
        r.push((samples[2 * k], samples[2 * k + 1]));
        k = k + 1;
    }
    r
}

/// Groups the samples into stride-2 quadruples.
///
/// Quadruple `k` is `(samples[2k], samples[2k + 1], samples[2k + 2],
/// samples[2k + 3])`: the pair at instant `k` followed by the distinct
/// pair at instant `k + 1`.
pub fn quadruples(samples: &Vec<i16>) -> (r: Vec<(i16, i16, i16, i16)>)
    ensures
        r@.len() == quad_count(samples@.len() as int),
        forall|k: int|
            0 <= k < r@.len() ==> r@[k] == (
                samples@[2 * k],
                samples@[2 * k + 1],
                samples@[2 * k + 2],
                samples@[2 * k + 3],
            ),
{
    let n = samples.len();
    let mut r: Vec<(i16, i16, i16, i16)> = Vec::new();
    let mut k: usize = 0;
    while 2 * k + 3 < n
        invariant
            n == samples@.len(),
            k <= quad_count(n as int),
            r@.len() == k,
            forall|j: int|
                0 <= j < k ==> r@[j] == (
                    samples@[2 * j],
                    samples@[2 * j + 1],
                    samples@[2 * j + 2],
                    samples@[2 * j + 3],
                ),
        decreases n - 2 * k,
    {
        r.push((samples[2 * k], samples[2 * k + 1], samples[2 * k + 2], samples[2 * k + 3]));
        k = k + 1;
    }
    r
}

} // verus!
