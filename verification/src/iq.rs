//! I/Q feature function cores and the streaming feature iterators.
//!
//! The magnitude (also called amplitude) of one I/Q reading is
//! `sqrt(I*I + Q*Q)`.  The sum of squares is exact in integers and is
//! what this module computes and states; callers take its square root.
//! Phase and instantaneous frequency are trigonometric functions of a
//! pair and of a quadruple respectively, so for them this module hands
//! out the tuples through the same streaming interface.

use vstd::prelude::*;

use crate::pairing::pair_count;
use crate::pairing::quad_count;

verus! {

/// Squared magnitude of one I/Q reading: `I*I + Q*Q`.
pub open spec fn mag_sq(i: int, q: int) -> int {
    i * i + q * q
}

/// `I*I + Q*Q`, the integer-exact part of the magnitude formula
/// `sqrt(I*I + Q*Q)`; the square root of the result is the
/// instantaneous magnitude of the reading.
pub fn magnitude_squared(i: i16, q: i16) -> (r: i64)
    ensures
        r == mag_sq(i as int, q as int),
        0 <= r,
{
    let ii = i as i64;
    let qq = q as i64;
    proof {
        lemma_square_bound(ii as int);
        lemma_square_bound(qq as int);
    }
    ii * ii + qq * qq
}

proof fn lemma_square_bound(x: int) by (nonlinear_arith)
    requires
        -0x8000 <= x <= 0x7fff,
    ensures
        0 <= x * x <= 0x4000_0000,
{
}

/// The squared magnitude is even in each component: flipping the sign
/// of I, of Q, or of both leaves it unchanged.
pub proof fn lemma_mag_sq_sign_invariant(i: int, q: int)
    ensures
        mag_sq(i, q) == mag_sq(-i, -q),
        mag_sq(i, q) == mag_sq(-i, q),
        mag_sq(i, q) == mag_sq(i, -q),
{
    assert((-i) * (-i) == i * i) by (nonlinear_arith);
    assert((-q) * (-q) == q * q) by (nonlinear_arith);
}

/// The squared magnitude is never negative, and it is zero exactly at
/// the origin.
pub proof fn lemma_mag_sq_nonneg(i: int, q: int)
    ensures
        mag_sq(i, q) >= 0,
        mag_sq(i, q) == 0 <==> i == 0 && q == 0,
{
    assert(i * i >= 0) by (nonlinear_arith);
    assert(q * q >= 0) by (nonlinear_arith);
    assert(i != 0 ==> i * i > 0) by (nonlinear_arith);
    assert(q != 0 ==> q * q > 0) by (nonlinear_arith);
}

/// Lazily walks a sample source and yields the squared magnitude of
/// each non-overlapping I/Q pair.  The iterator owns its cursor; a
/// fresh one must be built to walk the source again.
pub struct MagnitudeIterator {
    samples: Vec<i16>,
    pos: usize,
}

impl MagnitudeIterator {
    /// The sample source the iterator walks.
    pub closed spec fn source(&self) -> Seq<i16> {
        self.samples@
    }

    /// How many pairs have been consumed so far.
    pub closed spec fn position(&self) -> int {
        self.pos as int
    }

    /// The cursor never passes the last whole pair.
    pub open spec fn wf(&self) -> bool {
        0 <= self.position() <= pair_count(self.source().len() as int)
    }

    pub fn new(samples: Vec<i16>) -> (it: Self)
        ensures
            it.source() == samples@,
            it.position() == 0,
            it.wf(),
    {
        MagnitudeIterator { samples, pos: 0 }
    }

    /// Squared magnitude of the next pair, or `None` once fewer than
    /// two samples remain (a trailing odd sample is dropped).
    pub fn next(&mut self) -> (r: Option<i64>)
        requires
            old(self).wf(),
        ensures
            final(self).wf(),
            final(self).source() == old(self).source(),
            old(self).position() < pair_count(old(self).source().len() as int) ==> {
                &&& final(self).position() == old(self).position() + 1
                &&& r is Some
                &&& r->0 == mag_sq(
                    old(self).source()[2 * old(self).position()] as int,
                    old(self).source()[2 * old(self).position() + 1] as int,
                )
            },
            old(self).position() >= pair_count(old(self).source().len() as int) ==> {
                &&& r is None
                &&& final(self).position() == old(self).position()
            },
    {
        let n = self.samples.len();
        if self.pos < n / 2 {
            let base = 2 * self.pos;
            let i = self.samples[base];
            let q = self.samples[base + 1];
            self.pos = self.pos + 1;
            Some(magnitude_squared(i, q))
        } else {
            None
        }
    }
}

/// Same walk as [`MagnitudeIterator`]: the amplitude of a reading is
/// its magnitude, so the iterator yields the identical squared values.
pub struct AmplitudeIterator {
    samples: Vec<i16>,
    pos: usize,
}

impl AmplitudeIterator {
    /// The sample source the iterator walks.
    pub closed spec fn source(&self) -> Seq<i16> {
        self.samples@
    }

    /// How many pairs have been consumed so far.
    pub closed spec fn position(&self) -> int {
        self.pos as int
    }

    /// The cursor never passes the last whole pair.
    pub open spec fn wf(&self) -> bool {
        0 <= self.position() <= pair_count(self.source().len() as int)
    }

    pub fn new(samples: Vec<i16>) -> (it: Self)
        ensures
            it.source() == samples@,
            it.position() == 0,
            it.wf(),
    {
        AmplitudeIterator { samples, pos: 0 }
    }

    /// Squared amplitude of the next pair, or `None` once fewer than
    /// two samples remain.
    pub fn next(&mut self) -> (r: Option<i64>)
        requires
            old(self).wf(),
        ensures
            final(self).wf(),
            final(self).source() == old(self).source(),
            old(self).position() < pair_count(old(self).source().len() as int) ==> {
                &&& final(self).position() == old(self).position() + 1
                &&& r is Some
                &&& r->0 == mag_sq(
                    old(self).source()[2 * old(self).position()] as int,
                    old(self).source()[2 * old(self).position() + 1] as int,
                )
            },
            old(self).position() >= pair_count(old(self).source().len() as int) ==> {
                &&& r is None
                &&& final(self).position() == old(self).position()
            },
    {
        let n = self.samples.len();
        if self.pos < n / 2 {
            let base = 2 * self.pos;
            let i = self.samples[base];
            let q = self.samples[base + 1];
            self.pos = self.pos + 1;
            Some(magnitude_squared(i, q))
        } else {
            None
        }
    }
}

/// Lazily walks a sample source and yields the stride-2 quadruples
/// `(I1, Q1, I2, Q2)` whose phase difference gives the instantaneous
/// frequency; the trigonometric step acts on each quadruple alone.
pub struct IFIterator {
    samples: Vec<i16>,
    pos: usize,
}

impl IFIterator {
    /// The sample source the iterator walks.
    pub closed spec fn source(&self) -> Seq<i16> {
        self.samples@
    }

    /// How many quadruples have been consumed so far.
    pub closed spec fn position(&self) -> int {
        self.pos as int
    }

    /// The cursor never passes the last whole quadruple.
    pub open spec fn wf(&self) -> bool {
        0 <= self.position() <= quad_count(self.source().len() as int)
    }

    pub fn new(samples: Vec<i16>) -> (it: Self)
        ensures
            it.source() == samples@,
            it.position() == 0,
            it.wf(),
    {
        IFIterator { samples, pos: 0 }
    }

    /// The next quadruple — the pair at this instant and the distinct
    /// pair at the next — or `None` once fewer than four samples
    /// remain past the cursor.
    pub fn next(&mut self) -> (r: Option<(i16, i16, i16, i16)>)
        requires
            old(self).wf(),
        ensures
            final(self).wf(),
            final(self).source() == old(self).source(),
            old(self).position() < quad_count(old(self).source().len() as int) ==> {
                &&& final(self).position() == old(self).position() + 1
                &&& r is Some
                &&& r->0 == (
                    old(self).source()[2 * old(self).position()],
                    old(self).source()[2 * old(self).position() + 1],
                    old(self).source()[2 * old(self).position() + 2],
                    old(self).source()[2 * old(self).position() + 3],
                )
            },
            old(self).position() >= quad_count(old(self).source().len() as int) ==> {
                &&& r is None
                &&& final(self).position() == old(self).position()
            },
    {
        let n = self.samples.len();
        if n >= 2 && self.pos < (n - 2) / 2 {
            let base = 2 * self.pos;
            let i1 = self.samples[base];
            let q1 = self.samples[base + 1];
            let i2 = self.samples[base + 2];
            let q2 = self.samples[base + 3];
            self.pos = self.pos + 1;
            Some((i1, q1, i2, q2))
        } else {
            None
        }
    }
}

/// All squared magnitudes of a source at once: element `k` is
/// `I*I + Q*Q` for the pair `(samples[2k], samples[2k + 1])`.
pub fn magnitudes_squared(samples: Vec<i16>) -> (r: Vec<i64>)
    ensures
        r@.len() == pair_count(samples@.len() as int),
        forall|k: int|
            0 <= k < r@.len() ==> r@[k] == mag_sq(
                samples@[2 * k] as int,
                samples@[2 * k + 1] as int,
            ),
{
    let ghost s = samples@;
    let total = samples.len() / 2;
    let mut it = MagnitudeIterator::new(samples);
    let mut r: Vec<i64> = Vec::new();
    while r.len() < total
        invariant
            it.wf(),
            it.source() == s,
            total == pair_count(s.len() as int),
            it.position() == r@.len(),
            r@.len() <= total,
            forall|k: int|
                0 <= k < r@.len() ==> r@[k] == mag_sq(s[2 * k] as int, s[2 * k + 1] as int),
        decreases total - r.len(),
    {
        let m = it.next();
        r.push(m.unwrap());
    }
    r
}

} // verus!
