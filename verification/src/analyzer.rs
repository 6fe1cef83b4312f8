//! Restriction of a transform result to the configured bin index range.
//!
//! Each analysis tick the caller takes a snapshot of the shared window, runs
//! the forward frequency transform on it (outside this library — the
//! transform computes on machine floating point) and hands the per-bin
//! magnitudes back as fixed-point values. The analyzer owns the configured
//! bin index range and cuts the slice `[min_index, max_index)` out of the
//! full transform result: one value per rendered bar. A degenerate range
//! selects zero bars, which downstream components render as nothing.

use vstd::prelude::*;
use crate::mapper::{get_frequency_indices, spec_frequency_index};
use crate::settings::FFTSettings;

verus! {

/// The per-tick analysis step: holds the transform size and the bin index
/// range derived once from the configuration, and restricts each transform
/// result to that range.
pub struct SpectralAnalyzer {
    fft_size: usize,
    min_index: usize,
    max_index: usize,
}

impl SpectralAnalyzer {
    /// The transform window size the analyzer was configured with.
    pub closed spec fn fft_size(&self) -> usize {
        self.fft_size
    }

    /// First selected bin index.
    pub closed spec fn min_index(&self) -> usize {
        self.min_index
    }

    /// First bin index past the selection.
    pub closed spec fn max_index(&self) -> usize {
        self.max_index
    }

    #[verifier::type_invariant]
    spec fn type_inv(self) -> bool {
        self.min_index <= self.max_index && self.max_index <= self.fft_size
    }

    /// Derives the analyzer from a valid configuration: the bin index range
    /// is the frequency range mapped through the transform resolution.
    pub fn new(fft: &FFTSettings) -> (r: SpectralAnalyzer)
        requires
            fft.valid(),
        ensures
            r.fft_size() == fft.size,
            r.min_index() == spec_frequency_index(
                fft.min_frequency as nat,
                fft.size as nat,
                fft.sample_rate as nat,
            ),
            r.max_index() == spec_frequency_index(
                fft.max_frequency as nat,
                fft.size as nat,
                fft.sample_rate as nat,
            ),
            r.min_index() <= r.max_index() <= r.fft_size(),
    {
        let (min_index, max_index) = get_frequency_indices(fft);
        SpectralAnalyzer { fft_size: fft.size, min_index, max_index }
    }

    /// The transform window size the analyzer expects of every result.
    pub fn size(&self) -> (n: usize)
        ensures
            n == self.fft_size(),
    {
        self.fft_size
    }

    /// Number of selected bins, which is the number of rendered bars per
    /// channel. Zero when the configured range maps to a degenerate index
    /// range.
    pub fn bar_count(&self) -> (n: usize)
        ensures
            n == self.max_index() - self.min_index(),
    {
        proof {
            use_type_invariant(self);
        }
        self.max_index - self.min_index
    }

    /// Cuts the selected bin range out of a full transform result: the result
    /// holds `values[min_index], ..., values[max_index - 1]`, in order.
    pub fn select_bins(&self, values: &Vec<u64>) -> (r: Vec<u64>)
        requires
            values.len() == self.fft_size(),
        ensures
            r@ == values@.subrange(self.min_index() as int, self.max_index() as int),
            r.len() == self.max_index() - self.min_index(),
    {
        proof {
            use_type_invariant(self);
        }
        let mut selected: Vec<u64> = Vec::new();
        let mut i: usize = self.min_index;
        while i < self.max_index
            invariant
                self.min_index() <= i <= self.max_index(),
                self.max_index() <= values.len(),
                selected@ == values@.subrange(self.min_index() as int, i as int),
            decreases self.max_index() - i,
        {
            selected.push(values[i]);
            proof {
                assert(selected@ =~= values@.subrange(self.min_index() as int, i as int + 1));
            }
            i = i + 1;
        }
        selected
    }
}

} // verus!
