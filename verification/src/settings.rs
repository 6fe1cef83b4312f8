//! Configuration model for the spectral pipeline.
//!
//! The configuration is loaded and decoded by an external collaborator and
//! handed in here as plain values: sizes and frequencies as whole numbers
//! (hertz), and the dimensionless factors (gain, scale, interpolation,
//! opacity) as fixed-point values in thousandths, where `1000` stands for a
//! factor of one. Construction validates every value once, so that an invalid
//! configuration fails fast at load time instead of mid-pipeline.

use vstd::prelude::*;

verus! {

/// Transform-related configuration: window size, sample rate and the
/// frequency range selected for display, plus optional grid marker
/// frequencies. All frequencies are in whole hertz.
pub struct FFTSettings {
    /// Number of samples per transform window; must be positive.
    pub size: usize,
    /// Sample rate in hertz; must be positive.
    pub sample_rate: u32,
    /// Lower edge of the displayed frequency range, in hertz.
    pub min_frequency: u32,
    /// Upper edge of the displayed frequency range, in hertz.
    pub max_frequency: u32,
    /// Optional marker frequencies for the grid, in hertz.
    pub frequencies: Option<Vec<u32>>,
}

impl FFTSettings {
    /// The configuration invariant: a positive window and sample rate, and a
    /// non-empty frequency range that stays at or below half the sample rate.
    pub open spec fn valid(&self) -> bool {
        &&& self.size >= 1
        &&& self.sample_rate >= 1
        &&& self.min_frequency < self.max_frequency
        &&& 2 * self.max_frequency <= self.sample_rate
    }
}

/// Appearance and smoothing configuration. Every field is a fixed-point
/// factor in thousandths: `1000` stands for `1.0`.
pub struct VisualizerSettings {
    /// Amplification applied to each magnitude, in thousandths.
    pub gain: u64,
    /// Scale from smoothed values to rendered bar heights, in thousandths.
    pub scale_factor: u64,
    /// Per-tick interpolation factor, in thousandths of one; at most `1000`
    /// (`0` freezes the bars, `1000` snaps them to their targets).
    pub interpolation_factor: u64,
    /// Opacity of the rendered bars, in thousandths.
    pub alpha: u64,
    /// Extra smoothing applied by some renderers, in thousandths.
    pub smooth_factor: u64,
}

impl VisualizerSettings {
    /// The interpolation factor models a real factor in `[0, 1]`, so its
    /// fixed-point value may not exceed one whole unit.
    pub open spec fn valid(&self) -> bool {
        self.interpolation_factor <= 1000
    }
}

/// A color with red, green and blue components in thousandths of full
/// intensity.
pub struct RgbColor {
    pub red: u32,
    pub green: u32,
    pub blue: u32,
}

/// Frequency-grid configuration, used only by the rendering collaborator.
pub struct GridSettings {
    /// Number of horizontal grid lines.
    pub lines: usize,
    /// Line color for left-channel frequency markers.
    pub color_left: RgbColor,
    /// Line color for right-channel frequency markers.
    pub color_right: RgbColor,
    /// Line color for the horizontal lines.
    pub color_horizontal: RgbColor,
    /// Grid opacity, in thousandths.
    pub alpha: u64,
    /// Grid line width, in thousandths of a pixel.
    pub line_width: u64,
}

/// Everything that is wrong with a configuration value, found at load time.
#[derive(Clone, Copy, Debug, PartialEq, Eq, Structural)]
pub enum ConfigError {
    /// The transform window size is zero.
    FftSizeZero,
    /// The sample rate is zero.
    SampleRateZero,
    /// The minimum frequency does not lie strictly below the maximum.
    FrequencyRangeEmpty,
    /// The maximum frequency exceeds half the sample rate.
    MaxFrequencyTooHigh,
    /// The interpolation factor exceeds one whole unit (`1000` thousandths).
    InterpolationFactorTooLarge,
}

/// The validated root configuration.
pub struct Settings {
    pub fft: FFTSettings,
    pub visualizer: VisualizerSettings,
    pub grid: GridSettings,
}

impl Settings {
    /// A settings value is valid when its transform and visualizer parts are.
    pub open spec fn valid(&self) -> bool {
        self.fft.valid() && self.visualizer.valid()
    }

    /// Validates the decoded configuration values and assembles them.
    ///
    /// Succeeds exactly on valid values; otherwise reports the first broken
    /// rule, checked in the order the fields are listed.
    pub fn new(fft: FFTSettings, visualizer: VisualizerSettings, grid: GridSettings) -> (r: Result<
        Settings,
        ConfigError,
    >)
        ensures
            r.is_ok() <==> (fft.valid() && visualizer.valid()),
            r matches Ok(s) ==> s.fft == fft && s.visualizer == visualizer && s.grid == grid
                && s.valid(),
            r == Err::<Settings, ConfigError>(ConfigError::FftSizeZero) <==> fft.size == 0,
            r == Err::<Settings, ConfigError>(ConfigError::SampleRateZero) <==> (fft.size >= 1
                && fft.sample_rate == 0),
            r == Err::<Settings, ConfigError>(ConfigError::FrequencyRangeEmpty) <==> (fft.size >= 1
                && fft.sample_rate >= 1 && fft.min_frequency >= fft.max_frequency),
            r == Err::<Settings, ConfigError>(ConfigError::MaxFrequencyTooHigh) <==> (fft.size >= 1
                && fft.sample_rate >= 1 && fft.min_frequency < fft.max_frequency && 2
                * fft.max_frequency > fft.sample_rate),
            r == Err::<Settings, ConfigError>(ConfigError::InterpolationFactorTooLarge) <==> (
            fft.valid() && visualizer.interpolation_factor > 1000),
    {
        if fft.size == 0 {
            return Err(ConfigError::FftSizeZero);
        }
        if fft.sample_rate == 0 {
            return Err(ConfigError::SampleRateZero);
        }
        if fft.min_frequency >= fft.max_frequency {
            return Err(ConfigError::FrequencyRangeEmpty);
        }
        if (fft.max_frequency as u64) * 2 > fft.sample_rate as u64 {
            return Err(ConfigError::MaxFrequencyTooHigh);
        }
        if visualizer.interpolation_factor > 1000 {
            return Err(ConfigError::InterpolationFactorTooLarge);
        }
        Ok(Settings { fft, visualizer, grid })
    }
}

} // verus!
