//! Real-time spectral pipeline for a stereo audio visualizer.
//!
//! The library covers the computational core of the pipeline: de-interleaving
//! captured samples into left/right channel windows, the shared buffer that
//! hands those windows from the capture thread to the periodic analysis tick,
//! mapping a configured frequency range to transform bin indices, restricting
//! a transform result to that bin range, and per-bar temporal smoothing.
//!
//! Sample values travel through the pipeline as raw 32-bit encodings (the
//! zero encoding is silence), frequencies as whole hertz, and bar heights and
//! smoothing factors as fixed-point values in thousandths, so that every
//! transformation of them can be stated and proved exactly. Device I/O, the
//! Fourier transform itself and the rendering live with the caller.

pub mod analyzer;
pub mod extractor;
pub mod mapper;
pub mod settings;
pub mod smoother;
pub mod window;
