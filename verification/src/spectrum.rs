//! The integer-exact stages of the windowed spectral analyzer.
//!
//! The analyzer takes a complex-valued sequence, keeps its longest
//! prefix that fills whole windows of a fixed size, and hands each
//! window to a forward discrete Fourier transform followed by a
//! log-power reduction.  Both of those finishing steps produce exactly
//! one value per element, so the lengths and the partition stated here
//! carry through unchanged to the power spectrum.  Complex values are
//! `(re, im)` pairs of integers, as pairing raw samples or lifting a
//! mono channel produces them.

use vstd::prelude::*;

use vstd::arithmetic::div_mod::lemma_basic_div;
use vstd::arithmetic::div_mod::lemma_div_non_zero;
use vstd::arithmetic::div_mod::lemma_fundamental_div_mod;
use vstd::arithmetic::div_mod::lemma_fundamental_div_mod_converse;
use vstd::arithmetic::div_mod::lemma_mod_division_less_than_divisor;
use vstd::arithmetic::div_mod::lemma_multiply_divide_lt;
use vstd::arithmetic::mul::lemma_mul_inequality;
use vstd::arithmetic::mul::lemma_mul_is_commutative;

verus! {

/// Length of the spectral output for `n` input values and window size
/// `w`: the first `floor(n/w)` whole windows are kept and the `n % w`
/// trailing values are dropped.
pub open spec fn windowed_len(n: int, w: int) -> int {
    (n / w) * w
}

/// The analyzer emits one value per retained input element:
/// `floor(n/w) * w` in all, which is everything up to the last whole
/// window, and nothing at all when the input is shorter than one
/// window.
pub proof fn lemma_windowed_output_len(n: int, w: int)
    requires
        0 <= n,
        1 <= w,
    ensures
        windowed_len(n, w) == n - n % w,
        0 <= windowed_len(n, w) <= n,
        n < w ==> windowed_len(n, w) == 0,
        w <= n ==> w <= windowed_len(n, w),
{
    lemma_fundamental_div_mod(n, w);
    lemma_mod_division_less_than_divisor(n, w);
    lemma_mul_is_commutative(n / w, w);
    if n < w {
        lemma_basic_div(n, w);
        assert(0 * w == 0) by (nonlinear_arith);
    } else {
        lemma_div_non_zero(n, w);
        lemma_mul_inequality(1, n / w, w);
    }
}

/// Concatenating the windows of [`windows`] back in window order and
/// in-window-bin order restores the retained prefix exactly: flat
/// position `k` of the truncated input is bin `k % w` of window
/// `k / w`.
pub proof fn lemma_windows_preserve_order(
    cs: Seq<(i16, i16)>,
    ws: Seq<Seq<(i16, i16)>>,
    w: int,
    k: int,
)
    requires
        1 <= w,
        ws.len() == cs.len() as int / w,
        forall|j: int| 0 <= j < ws.len() ==> #[trigger] ws[j].len() == w,
        forall|j: int, t: int|
            0 <= j < ws.len() && 0 <= t < w ==> #[trigger] ws[j][t] == cs[j * w + t],
        0 <= k < windowed_len(cs.len() as int, w),
    ensures
        ws[k / w][k % w] == cs[k],
{
    lemma_mod_division_less_than_divisor(k, w);
    lemma_fundamental_div_mod(k, w);
    lemma_mul_is_commutative(k / w, w);
    lemma_mul_is_commutative(cs.len() as int / w, w);
    lemma_multiply_divide_lt(k, w, cs.len() as int / w);
}

/// Lifts a mono sample sequence to complex values of the same length:
/// each output is `(sample, 0)` — the sample as real part and a zero
/// imaginary part, a placeholder for a true quadrature channel.
pub fn lift_mono(samples: &Vec<i16>) -> (r: Vec<(i16, i16)>)
    ensures
        r@.len() == samples@.len(),
        forall|k: int| 0 <= k < r@.len() ==> r@[k] == (samples@[k], 0i16),
{
    let n = samples.len();
    let mut r: Vec<(i16, i16)> = Vec::new();
    let mut k: usize = 0;
    while k < n
        invariant
            n == samples@.len(),
            k <= n,
            r@.len() == k,
            forall|j: int| 0 <= j < k ==> r@[j] == (samples@[j], 0i16),
        decreases n - k,
    {
        r.push((samples[k], 0));
        k = k + 1;
    }
    r
}

/// Keeps the longest prefix that fills whole windows of size `w`,
/// dropping the `n % w` trailing values: no partial window, no
/// padding.
pub fn truncate_to_windows(cs: &Vec<(i16, i16)>, w: usize) -> (r: Vec<(i16, i16)>)
    requires
        1 <= w,
    ensures
        r@.len() == windowed_len(cs@.len() as int, w as int),
        r@ == cs@.subrange(0, windowed_len(cs@.len() as int, w as int)),
{
    let n = cs.len();
    let leftovers = n % w;
    proof {
        lemma_windowed_output_len(n as int, w as int);
    }
    let usable = n - leftovers;
    let mut r: Vec<(i16, i16)> = Vec::new();
    let mut k: usize = 0;
    while k < usable
        invariant
            n == cs@.len(),
            usable <= n,
            k <= usable,
            r@.len() == k,
            forall|j: int| 0 <= j < k ==> r@[j] == cs@[j],
        decreases usable - k,
    {
        r.push(cs[k]);
        k = k + 1;
    }
    proof {
        assert(r@ =~= cs@.subrange(0, usable as int));
    }
    r
}

/// Partitions the retained prefix into its consecutive, non-overlapping
/// windows: window `j` holds elements `j*w .. j*w + w` of the input, in
/// order, and there are exactly `floor(n/w)` of them.
pub fn windows(cs: &Vec<(i16, i16)>, w: usize) -> (r: Vec<Vec<(i16, i16)>>)
    requires
        1 <= w,
    ensures
        r@.len() == cs@.len() as int / w as int,
        forall|j: int| 0 <= j < r@.len() ==> r@[j]@.len() == w as int,
        forall|j: int, t: int|
            0 <= j < r@.len() && 0 <= t < w as int ==> r@[j]@[t] == cs@[j * (w as int) + t],
        cs@.len() < w ==> r@.len() == 0,
{
    let n = cs.len();
    let mut r: Vec<Vec<(i16, i16)>> = Vec::new();
    let mut base: usize = 0;
    proof {
        assert(0 * (w as int) == 0) by (nonlinear_arith);
    }
    while w <= n - base
        invariant
            n == cs@.len(),
            1 <= w,
            base <= n,
            base as int == (r@.len() as int) * (w as int),
            forall|j: int| 0 <= j < r@.len() ==> r@[j]@.len() == w as int,
            forall|j: int, t: int|
                0 <= j < r@.len() && 0 <= t < w as int ==> r@[j]@[t] == cs@[j * (w as int) + t],
        decreases n - base,
    {
        let mut win: Vec<(i16, i16)> = Vec::new();
        let mut t: usize = 0;
        while t < w
            invariant
                n == cs@.len(),
                base + w <= n,
                t <= w,
                win@.len() == t,
                forall|u: int| 0 <= u < t ==> win@[u] == cs@[base + u],
            decreases w - t,
        {
            win.push(cs[base + t]);
            t = t + 1;
        }
        proof {
            let j = r@.len() as int;
            let wi = w as int;
            assert((j + 1) * wi == j * wi + wi) by (nonlinear_arith);
        }
        r.push(win);
        base = base + w;
    }
    proof {
        lemma_fundamental_div_mod_converse(n as int, w as int, r@.len() as int, n - base);
        if n < w {
            lemma_basic_div(n as int, w as int);
        }
    }
    r
}

} // verus!
