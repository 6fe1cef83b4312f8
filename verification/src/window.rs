//! The shared time-domain sample window between capture and analysis.
//!
//! The capture thread overwrites the window on every hardware callback; the
//! periodic analysis tick copies a snapshot out. The two sides meet only
//! under a lock whose invariant pins both channel buffers to exactly
//! `fft_size` samples, so every observer sees a complete window — never a
//! partially resized one — and each critical section does nothing beyond the
//! element-wise exchange.

use vstd::prelude::*;
use vstd::rwlock::{RwLock, RwLockPredicate};
use crate::extractor::extract_channels;

verus! {

/// The time-domain sample window: one buffer of raw 32-bit samples per
/// channel, each of fixed length `fft_size` for the life of the pipeline.
pub struct AudioData {
    pub left_buffer: Vec<u32>,
    pub right_buffer: Vec<u32>,
}

impl AudioData {
    /// Both channel buffers hold exactly `fft_size` samples.
    pub open spec fn wf(&self, fft_size: usize) -> bool {
        self.left_buffer.len() == fft_size && self.right_buffer.len() == fft_size
    }

    /// Creates a window of `fft_size` silent samples per channel.
    pub fn new(fft_size: usize) -> (r: AudioData)
        ensures
            r.wf(fft_size),
            forall|i: int| 0 <= i < fft_size ==> r.left_buffer@[i] == 0u32,
            forall|i: int| 0 <= i < fft_size ==> r.right_buffer@[i] == 0u32,
    {
        AudioData { left_buffer: zero_samples(fft_size), right_buffer: zero_samples(fft_size) }
    }
}

/// A buffer of `n` silent samples.
fn zero_samples(n: usize) -> (r: Vec<u32>)
    ensures
        r.len() == n,
        forall|i: int| 0 <= i < n ==> r@[i] == 0u32,
{
    let mut samples: Vec<u32> = Vec::new();
    let mut i: usize = 0;
    while i < n
        invariant
            i <= n,
            samples.len() == i,
            forall|j: int| 0 <= j < i ==> samples@[j] == 0u32,
        decreases n - i,
    {
        samples.push(0);
        i = i + 1;
    }
    samples
}

/// The lock invariant of the shared window: whatever value sits in the lock,
/// both of its buffers have exactly the configured length.
pub struct WindowPredicate {
    pub fft_size: usize,
}

impl RwLockPredicate<AudioData> for WindowPredicate {
    open spec fn inv(self, v: AudioData) -> bool {
        v.wf(self.fft_size)
    }
}

/// What went wrong while bringing up the capture side. These failures abort
/// pipeline startup; mid-stream device errors are instead logged by the
/// caller and leave the last written window in place.
#[derive(Clone, Copy, Debug, PartialEq, Eq, Structural)]
pub enum CaptureError {
    /// No input device is available.
    DeviceUnavailable,
    /// The device refused to report a default configuration or to build a
    /// stream with it.
    ConfigurationError,
}

/// The mutually exclusive handoff between the capture thread (single writer)
/// and the periodic analysis tick (single reader). There is no queue: a write
/// overwrites the whole window, and the latest value wins.
pub struct SharedSpectralBuffer {
    fft_size: usize,
    lock: RwLock<AudioData, WindowPredicate>,
}

impl SharedSpectralBuffer {
    /// The fixed per-channel window length.
    pub closed spec fn fft_size(&self) -> usize {
        self.fft_size
    }

    #[verifier::type_invariant]
    spec fn type_inv(self) -> bool {
        self.lock.pred() == (WindowPredicate { fft_size: self.fft_size })
    }

    /// Creates the shared buffer with both channels zero-filled.
    pub fn new(fft_size: usize) -> (r: SharedSpectralBuffer)
        ensures
            r.fft_size() == fft_size,
    {
        let window = AudioData::new(fft_size);
        SharedSpectralBuffer {
            fft_size,
            lock: RwLock::new(window, Ghost(WindowPredicate { fft_size })),
        }
    }

    /// The fixed per-channel window length.
    pub fn size(&self) -> (n: usize)
        ensures
            n == self.fft_size(),
    {
        self.fft_size
    }

    /// Replaces the whole window with the given channel buffers. The lock is
    /// held only for the exchange itself.
    pub fn store(&self, left: Vec<u32>, right: Vec<u32>)
        requires
            left.len() == self.fft_size(),
            right.len() == self.fft_size(),
    {
        proof {
            use_type_invariant(self);
        }
        let (mut window, handle) = self.lock.acquire_write();
        window.left_buffer = left;
        window.right_buffer = right;
        handle.release_write(window);
    }

    /// One capture callback: de-interleaves the hardware buffer into channel
    /// windows of length `fft_size` outside the lock, then stores them.
    /// A short delivery leaves silence in the tail, never an error.
    pub fn capture(&self, data: &Vec<u32>, channels: usize)
        requires
            channels >= 1,
    {
        let (left, right) = extract_channels(data, channels, self.fft_size);
        self.store(left, right);
    }

    /// Copies the current window out under the lock; the transform then runs
    /// on the copy, lock-free. Every snapshot is a complete window: both
    /// returned buffers have exactly `fft_size` samples.
    pub fn snapshot(&self) -> (r: (Vec<u32>, Vec<u32>))
        ensures
            r.0.len() == self.fft_size(),
            r.1.len() == self.fft_size(),
    {
        proof {
            use_type_invariant(self);
        }
        let handle = self.lock.acquire_read();
        let window = handle.borrow();
        let left = copy_samples(&window.left_buffer);
        let right = copy_samples(&window.right_buffer);
        handle.release_read();
        (left, right)
    }
}

/// An element-wise copy of a sample buffer.
fn copy_samples(samples: &Vec<u32>) -> (r: Vec<u32>)
    ensures
        r@ == samples@,
{
    let mut out: Vec<u32> = Vec::new();
    let mut i: usize = 0;
    while i < samples.len()
        invariant
            i <= samples.len(),
            out@ == samples@.subrange(0, i as int),
        decreases samples.len() - i,
    {
        out.push(samples[i]);
        proof {
            assert(out@ =~= samples@.subrange(0, i as int + 1));
        }
        i = i + 1;
    }
    proof {
        assert(out@ =~= samples@);
    }
    out
}

} // verus!
