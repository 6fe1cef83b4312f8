//! De-interleaving of captured audio frames into left/right channel windows.
//!
//! A hardware buffer arrives as one flat sequence of samples with `channels`
//! interleaved channels. The extractor produces a fixed number `n` of
//! left/right sample pairs from it: frame `i` starts at `i * channels`; a
//! mono stream duplicates its single channel to both sides; and wherever the
//! hardware delivered fewer frames than requested, the missing tail is filled
//! with silence (the zero sample encoding).

use vstd::prelude::*;

verus! {

/// The left-channel sample that de-interleaving yields at output index `i`:
/// the sample at `i * channels` when the buffer holds one, silence otherwise.
pub open spec fn extracted_left(data: Seq<u32>, channels: nat, i: nat) -> u32 {
    if i * channels < data.len() {
        data[(i * channels) as int]
    } else {
        0u32
    }
}

/// The right-channel sample that de-interleaving yields at output index `i`:
/// for a mono stream the left sample again, otherwise the sample at
/// `i * channels + 1` when the buffer holds one, silence otherwise.
pub open spec fn extracted_right(data: Seq<u32>, channels: nat, i: nat) -> u32 {
    if channels == 1 {
        extracted_left(data, channels, i)
    } else if i * channels + 1 < data.len() {
        data[(i * channels + 1) as int]
    } else {
        0u32
    }
}

/// De-interleaves `data` into `n` left/right sample pairs.
///
/// Frames past the end of `data` yield silence on both channels, so a short
/// hardware delivery is filled with zeros rather than rejected, and no index
/// ever reaches past the buffer.
pub fn extract_channels(data: &Vec<u32>, channels: usize, n: usize) -> (r: (Vec<u32>, Vec<u32>))
    requires
        channels >= 1,
    ensures
        r.0.len() == n,
        r.1.len() == n,
        forall|i: int|
            0 <= i < n ==> r.0@[i] == extracted_left(data@, channels as nat, i as nat),
        forall|i: int|
            0 <= i < n ==> r.1@[i] == extracted_right(data@, channels as nat, i as nat),
{
    let data_len = data.len();
    let mut left: Vec<u32> = Vec::new();
    let mut right: Vec<u32> = Vec::new();
    let mut i: usize = 0;
    while i < n
        invariant
            channels >= 1,
            i <= n,
            data_len == data@.len(),
            left.len() == i,
            right.len() == i,
            forall|j: int|
                0 <= j < i ==> left@[j] == extracted_left(data@, channels as nat, j as nat),
            forall|j: int|
                0 <= j < i ==> right@[j] == extracted_right(data@, channels as nat, j as nat),
        decreases n - i,
    {
        match i.checked_mul(channels) {
            Some(idx) => {
                if idx < data_len {
                    left.push(data[idx]);
                    if channels == 1 {
                        right.push(data[idx]);
                    } else if idx + 1 < data_len {
                        right.push(data[idx + 1]);
                    } else {
                        right.push(0);
                    }
                } else {
                    left.push(0);
                    right.push(0);
                }
            },
            None => {
                // An overflowing frame offset lies past any addressable
                // buffer, so it gets the same silence as a short delivery.
                left.push(0);
                right.push(0);
            },
        }
        i = i + 1;
    }
    (left, right)
}

/// Law: frames the hardware did not deliver are silence. Whenever the frame
/// offset `i * channels` reaches past the buffer, both extracted samples are
/// exactly the zero encoding.
pub proof fn lemma_missing_frames_are_silence(data: Seq<u32>, channels: nat, i: nat)
    requires
        channels >= 1,
        i * channels >= data.len(),
    ensures
        extracted_left(data, channels, i) == 0u32,
        extracted_right(data, channels, i) == 0u32,
{
}

/// Law: every output index strictly beyond `data.len() / channels` addresses
/// a frame past the end of the buffer, and therefore yields a silent pair.
pub proof fn lemma_beyond_frame_count_is_silence(data: Seq<u32>, channels: nat, i: nat)
    requires
        channels >= 1,
        i > data.len() / channels,
    ensures
        extracted_left(data, channels, i) == 0u32,
        extracted_right(data, channels, i) == 0u32,
{
    let len = data.len() as int;
    let c = channels as int;
    vstd::arithmetic::div_mod::lemma_fundamental_div_mod(len, c);
    assert(len == c * (len / c) + len % c);
    vstd::arithmetic::div_mod::lemma_mod_division_less_than_divisor(len, c);
    assert(i as int >= len / c + 1);
    vstd::arithmetic::mul::lemma_mul_inequality(len / c + 1, i as int, c);
    assert((len / c + 1) * c == c * (len / c) + c) by {
        vstd::arithmetic::mul::lemma_mul_is_distributive_add_other_way(c, len / c, 1);
    }
    assert(i * channels >= data.len());
    lemma_missing_frames_are_silence(data, channels, i);
}

/// Law: a mono stream duplicates its channel, so the extracted left and right
/// samples agree at every output index.
pub proof fn lemma_mono_duplicates(data: Seq<u32>, i: nat)
    ensures
        extracted_right(data, 1, i) == extracted_left(data, 1, i),
{
}

} // verus!
