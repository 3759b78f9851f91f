//! Accumulating spectral probe.
//!
//! The probe gathers samples into a window of fixed size, derived at
//! construction from a frequency hint as `ceil(freq * 2)`.  Samples past a
//! full window are dropped silently.  Once the window is full, the probe
//! hands out a copy of it as the input of a discrete Fourier transform; the
//! amplitude read off that transform is the magnitude of bin zero of the
//! first half of the transformed bins, so it is defined only when that
//! half is not empty, i.e. when the window holds at least two samples.
//! The transform itself works on machine real numbers, which verified code
//! cannot hold, so it is carried out by the caller on the window this
//! module hands out.
//!
//! All samples are IEEE single-precision values carried as `u32` bit
//! patterns; see [`crate::ieee`].

use crate::ieee::ceil_single;
use crate::ieee::ieee_ceil;
use crate::ieee::ieee_mul;
use crate::ieee::ieee_to_usize;
use crate::ieee::mul_single;
use crate::ieee::single_to_usize;
use crate::ieee::TWO_BITS;
use vstd::prelude::*;

verus! {

/// The window length derived from the frequency hint `freq` (a bit
/// pattern): `ceil(freq * 2)`, truncated into the `usize` range.
pub open spec fn window_len(freq: u32) -> usize {
    ieee_to_usize(ieee_ceil(ieee_mul(freq, TWO_BITS)))
}

/// What one feed does to the stored samples: appends while the window is
/// not yet full, drops the sample otherwise.
pub open spec fn probe_feed(window: int, samples: Seq<u32>, sample: u32) -> Seq<u32> {
    if samples.len() < window {
        samples.push(sample)
    } else {
        samples
    }
}

/// The stored samples after feeding `fed` in order onto `samples`.
pub open spec fn probe_run(window: int, samples: Seq<u32>, fed: Seq<u32>) -> Seq<u32>
    decreases fed.len(),
{
    if fed.len() == 0 {
        samples
    } else {
        probe_feed(window, probe_run(window, samples, fed.drop_last()), fed.last())
    }
}

/// The amplitude is defined exactly when the window is full and the first
/// half of the transformed bins is not empty.
pub open spec fn amplitude_defined(window: int, samples: Seq<u32>) -> bool {
    samples.len() == window && window / 2 >= 1
}

/// The samples handed out for the transform: the full window when the
/// amplitude is defined, nothing otherwise.
pub open spec fn amplitude_spec(window: int, samples: Seq<u32>) -> Option<Seq<u32>> {
    if amplitude_defined(window, samples) {
        Some(samples)
    } else {
        None
    }
}

/// An accumulating probe: a window size fixed at construction and the
/// samples gathered so far, never more than the window size of them.
pub struct AccumFFT {
    window: usize,
    samples: Vec<u32>,
}

impl View for AccumFFT {
    type V = Seq<u32>;

    /// The samples gathered so far, oldest first.
    closed spec fn view(&self) -> Seq<u32> {
        self.samples@
    }
}

impl AccumFFT {
    /// The window size fixed at construction.
    pub closed spec fn window_size(&self) -> int {
        self.window as int
    }

    /// Well-formedness: the stored samples never outgrow the window.
    /// It holds of every probe built by [`AccumFFT::new`] and is kept by
    /// every operation.
    pub open spec fn wf(&self) -> bool {
        self@.len() <= self.window_size()
    }

    /// Builds a probe whose window size is `ceil(freq * 2)`, where `freq`
    /// is the bit pattern of a frequency hint; the window starts empty.
    /// The hint is not validated: one that is non-positive or not a number
    /// yields a degenerate window.
    pub fn new(freq: u32) -> (r: AccumFFT)
        ensures
            r.window_size() == window_len(freq) as int,
            r@ == Seq::<u32>::empty(),
            r.wf(),
    {
        let n: usize = single_to_usize(ceil_single(mul_single(freq, TWO_BITS)));
        let mut samples: Vec<u32> = Vec::new();
        samples.reserve(n);
        AccumFFT { window: n, samples }
    }

    /// Feeds one sample: appended while the window is not yet full,
    /// dropped silently once it is.
    pub fn feed(&mut self, elem: u32)
        ensures
            final(self).window_size() == old(self).window_size(),
            final(self)@ == probe_feed(old(self).window_size(), old(self)@, elem),
            old(self).wf() ==> final(self).wf(),
    {
        if self.samples.len() < self.window {
            self.samples.push(elem);
        }
    }

    /// Hands out a copy of the accumulated window exactly when the
    /// amplitude is defined, and nothing otherwise.  The probe itself is
    /// left untouched: the accumulated samples survive the query, so it
    /// can be repeated at will.
    pub fn amplitude_window(&self) -> (r: Option<Vec<u32>>)
        ensures
            r.deep_view() == amplitude_spec(self.window_size(), self@),
    {
        if self.samples.len() == self.window && self.window / 2 >= 1 {
            let mut out: Vec<u32> = Vec::new();
            let mut i: usize = 0;
            while i < self.samples.len()
                invariant
                    i <= self.samples@.len(),
                    out@ == self.samples@.take(i as int),
                decreases self.samples@.len() - i,
            {
                out.push(self.samples[i]);
                proof {
                    assert(self.samples@.take(i + 1) =~= self.samples@.take(i as int).push(
                        self.samples@[i as int],
                    ));
                }
                i = i + 1;
            }
            proof {
                assert(out@ =~= self.samples@);
            }
            Some(out)
        } else {
            None
        }
    }

    /// Clears the accumulated samples; the window size is kept.
    pub fn reset(&mut self)
        ensures
            final(self).window_size() == old(self).window_size(),
            final(self)@ == Seq::<u32>::empty(),
            final(self).wf(),
    {
        self.samples.clear();
    }

    /// The number of samples gathered so far; never more than the window
    /// size.
    pub fn len(&self) -> (n: usize)
        ensures
            n == self@.len(),
            self.wf() ==> n <= self.window_size(),
    {
        self.samples.len()
    }

    /// The window size fixed at construction.
    pub fn capacity(&self) -> (n: usize)
        ensures
            n == self.window_size(),
    {
        self.window
    }
}

/// Fullness gate: below a full window the amplitude is never defined, and
/// for a window of at least two samples it is defined exactly at fullness.
pub proof fn lemma_fullness_gate(p: &AccumFFT)
    ensures
        p@.len() < p.window_size() ==> (amplitude_spec(p.window_size(), p@) is None),
        p.window_size() >= 2 ==> ((amplitude_spec(p.window_size(), p@) is Some) <==> p@.len()
            == p.window_size()),
{
}

/// Querying is idempotent: any two results that `amplitude_window`'s
/// contract admits for one and the same probe state are equal.
pub proof fn lemma_amplitude_idempotent(p: &AccumFFT, r1: Option<Vec<u32>>, r2: Option<Vec<u32>>)
    requires
        r1.deep_view() == amplitude_spec(p.window_size(), p@),
        r2.deep_view() == amplitude_spec(p.window_size(), p@),
    ensures
        r1.deep_view() == r2.deep_view(),
{
}

/// Feeding fills the window and then stops: the number of stored samples
/// grows with each fed sample until it reaches the window size.
pub proof fn lemma_probe_run_len(window: int, samples: Seq<u32>, fed: Seq<u32>)
    requires
        samples.len() <= window,
    ensures
        probe_run(window, samples, fed).len() == (if samples.len() + fed.len() <= window {
            (samples.len() + fed.len()) as int
        } else {
            window
        }),
    decreases fed.len(),
{
    if fed.len() > 0 {
        lemma_probe_run_len(window, samples, fed.drop_last());
    }
}

/// Drop on overflow: feeding samples past the first `window` many leaves
/// the probe exactly as feeding only those first `window` many, so the
/// query's outcome is unchanged as well.
pub proof fn lemma_drop_on_overflow(window: int, fed: Seq<u32>)
    requires
        0 <= window <= fed.len(),
    ensures
        probe_run(window, Seq::<u32>::empty(), fed) == probe_run(
            window,
            Seq::<u32>::empty(),
            fed.take(window),
        ),
        amplitude_spec(window, probe_run(window, Seq::<u32>::empty(), fed)) == amplitude_spec(
            window,
            probe_run(window, Seq::<u32>::empty(), fed.take(window)),
        ),
    decreases fed.len(),
{
    if fed.len() == window {
        assert(fed.take(window) =~= fed);
    } else {
        lemma_probe_run_len(window, Seq::<u32>::empty(), fed.drop_last());
        lemma_drop_on_overflow(window, fed.drop_last());
        assert(fed.drop_last().take(window) =~= fed.take(window));
    }
}

/// Reset and refill: until the window is refilled the amplitude stays
/// undefined, and refilling with the same samples restores the same window
/// a freshly built probe of the same size would gather, so an identical
/// refill leads to an identical query.
pub proof fn lemma_reset_refill(after_reset: &AccumFFT, fresh: &AccumFFT, fed: Seq<u32>)
    requires
        after_reset.window_size() == fresh.window_size(),
        after_reset@ == Seq::<u32>::empty(),
        fresh@ == Seq::<u32>::empty(),
    ensures
        fed.len() < after_reset.window_size() ==> (amplitude_spec(
            after_reset.window_size(),
            probe_run(after_reset.window_size(), after_reset@, fed),
        ) is None),
        probe_run(after_reset.window_size(), after_reset@, fed) == probe_run(
            fresh.window_size(),
            fresh@,
            fed,
        ),
{
    if fed.len() < after_reset.window_size() {
        lemma_probe_run_len(after_reset.window_size(), Seq::<u32>::empty(), fed);
    }
}

} // verus!
