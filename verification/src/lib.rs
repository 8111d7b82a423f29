//! Feature extraction for quadrature (I/Q) sample streams.
//!
//! The crate turns a flat sequence of signed 16-bit samples into the
//! integer-exact part of the usual narrow-band demodulation features:
//! non-overlapping I/Q pairs, overlapping quadruples for phase
//! differencing, squared magnitudes, the mono-to-complex lift, and the
//! fixed-size windowing step of a spectral analyzer.  The trigonometric
//! and logarithmic finishing steps act on these values one-for-one and
//! live with the caller.

use vstd::prelude::*;

pub mod iq;
pub mod pairing;
pub mod spectrum;

verus! {

/// Sum of two counts; the crate's smallest entry point.
pub fn add(left: usize, right: usize) -> (sum: usize)
    requires
        left + right <= usize::MAX,
    ensures
        sum == left + right,
{
    left + right
}

} // verus!
