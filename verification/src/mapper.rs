//! Mapping from a configured frequency range to transform bin indices.
//!
//! A transform of `fft_size` samples taken at `sample_rate` hertz puts the
//! energy near frequency `f` into bin `f * fft_size / sample_rate` (rounded
//! down). The mapper turns the configured range into the half-open bin index
//! range `[min_index, max_index)`, whose width is the number of rendered
//! bars.

use vstd::prelude::*;
use crate::settings::FFTSettings;

verus! {

/// The transform bin index of frequency `freq`:
/// `freq * fft_size / sample_rate`, rounded down.
pub open spec fn spec_frequency_index(freq: nat, fft_size: nat, sample_rate: nat) -> nat
    recommends
        sample_rate >= 1,
{
    freq * fft_size / sample_rate
}

/// Computes the bin index of `freq` exactly, without overflow.
pub fn frequency_index(freq: u32, fft_size: usize, sample_rate: u32) -> (r: usize)
    requires
        sample_rate >= 1,
        freq <= sample_rate,
    ensures
        r == spec_frequency_index(freq as nat, fft_size as nat, sample_rate as nat),
        r <= fft_size,
{
    proof {
        assert((freq as int) * (fft_size as int) <= (sample_rate as int) * (fft_size as int)) by {
            vstd::arithmetic::mul::lemma_mul_inequality(
                freq as int,
                sample_rate as int,
                fft_size as int,
            );
        }
        assert((freq as int) * (fft_size as int) / (sample_rate as int) <= (sample_rate as int) * (
        fft_size as int) / (sample_rate as int)) by {
            vstd::arithmetic::div_mod::lemma_div_is_ordered(
                (freq as int) * (fft_size as int),
                (sample_rate as int) * (fft_size as int),
                sample_rate as int,
            );
        }
        assert((sample_rate as int) * (fft_size as int) / (sample_rate as int) == fft_size as int)
            by {
            vstd::arithmetic::div_mod::lemma_div_multiples_vanish(
                fft_size as int,
                sample_rate as int,
            );
        }
        assert((freq as int) * (fft_size as int) >= 0) by {
            vstd::arithmetic::mul::lemma_mul_nonnegative(freq as int, fft_size as int);
        }
        assert((freq as int) * (fft_size as int) <= 0xffff_ffff * 0xffff_ffff_ffff_ffff) by {
            vstd::arithmetic::mul::lemma_mul_upper_bound(
                freq as int,
                0xffff_ffff,
                fft_size as int,
                0xffff_ffff_ffff_ffff,
            );
        }
    }
    let prod = (freq as u128) * (fft_size as u128);
    let q = prod / (sample_rate as u128);
    q as usize
}

/// Computes the bin index range `[min_index, max_index)` selected by the
/// configured frequency range. The range is never reversed and never reaches
/// past the transform size.
pub fn get_frequency_indices(fft: &FFTSettings) -> (r: (usize, usize))
    requires
        fft.valid(),
    ensures
        r.0 == spec_frequency_index(
            fft.min_frequency as nat,
            fft.size as nat,
            fft.sample_rate as nat,
        ),
        r.1 == spec_frequency_index(
            fft.max_frequency as nat,
            fft.size as nat,
            fft.sample_rate as nat,
        ),
        r.0 <= r.1,
        r.1 <= fft.size,
{
    let min_index = frequency_index(fft.min_frequency, fft.size, fft.sample_rate);
    let max_index = frequency_index(fft.max_frequency, fft.size, fft.sample_rate);
    proof {
        lemma_frequency_index_monotonic(
            fft.min_frequency as nat,
            fft.max_frequency as nat,
            fft.size as nat,
            fft.sample_rate as nat,
        );
    }
    (min_index, max_index)
}

/// Law: the bin index is monotonic in the frequency. Raising a frequency
/// never lowers its bin index; in particular, whenever the minimum frequency
/// stays at or below the maximum, `min_index` stays at or below `max_index`.
pub proof fn lemma_frequency_index_monotonic(f1: nat, f2: nat, fft_size: nat, sample_rate: nat)
    requires
        sample_rate >= 1,
        f1 <= f2,
    ensures
        spec_frequency_index(f1, fft_size, sample_rate) <= spec_frequency_index(
            f2,
            fft_size,
            sample_rate,
        ),
{
    vstd::arithmetic::mul::lemma_mul_inequality(f1 as int, f2 as int, fft_size as int);
    vstd::arithmetic::div_mod::lemma_div_is_ordered(
        (f1 * fft_size) as int,
        (f2 * fft_size) as int,
        sample_rate as int,
    );
}

} // verus!
