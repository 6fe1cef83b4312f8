use sonic_spectra::analyzer::SpectralAnalyzer;
use sonic_spectra::mapper::{frequency_index, get_frequency_indices};
use sonic_spectra::settings::FFTSettings;

fn fft_settings(size: usize, sample_rate: u32, min_frequency: u32, max_frequency: u32) -> FFTSettings {
    FFTSettings { size, sample_rate, min_frequency, max_frequency, frequencies: None }
}

#[test]
fn concrete_audible_range_gives_426_bars() {
    // fft_size = 1024 at 48 kHz, 20 Hz .. 20 kHz:
    // min_index = 20 * 1024 / 48000 = 0, max_index = 20000 * 1024 / 48000 = 426.
    let fft = fft_settings(1024, 48000, 20, 20000);
    let (min_index, max_index) = get_frequency_indices(&fft);
    assert_eq!(min_index, 0);
    assert_eq!(max_index, 426);

    let analyzer = SpectralAnalyzer::new(&fft);
    assert_eq!(analyzer.bar_count(), 426);
}

#[test]
fn index_is_monotonic_in_frequency() {
    let mut previous = 0usize;
    for freq in [0u32, 20, 100, 440, 1000, 4000, 12000, 20000, 24000] {
        let index = frequency_index(freq, 1024, 48000);
        assert!(index >= previous);
        previous = index;
    }
}

#[test]
fn raising_max_frequency_never_lowers_max_index() {
    let mut previous = 0usize;
    for max_frequency in 100..2000u32 {
        let fft = fft_settings(512, 44100, 50, max_frequency);
        let (min_index, max_index) = get_frequency_indices(&fft);
        assert!(min_index <= max_index);
        assert!(max_index >= previous);
        previous = max_index;
    }
}

#[test]
fn degenerate_range_selects_zero_bars() {
    // 1 Hz .. 2 Hz at 48 kHz with 1024 bins: both map to bin 0.
    let fft = fft_settings(1024, 48000, 1, 2);
    let (min_index, max_index) = get_frequency_indices(&fft);
    assert_eq!((min_index, max_index), (0, 0));

    let analyzer = SpectralAnalyzer::new(&fft);
    assert_eq!(analyzer.bar_count(), 0);
    let selected = analyzer.select_bins(&vec![9u64; 1024]);
    assert!(selected.is_empty());
}

#[test]
fn select_bins_cuts_the_configured_slice() {
    // 16 bins at a sample rate of 16: one bin per hertz, range [2, 5).
    let fft = fft_settings(16, 16, 2, 5);
    let analyzer = SpectralAnalyzer::new(&fft);
    let values: Vec<u64> = (100..116u64).collect();
    assert_eq!(analyzer.select_bins(&values), vec![102, 103, 104]);
    assert_eq!(analyzer.bar_count(), 3);
}
