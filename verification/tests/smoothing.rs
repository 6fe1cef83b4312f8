use sonic_spectra::smoother::{interpolate, TemporalSmoother, FACTOR_SCALE};

#[test]
fn interpolate_moves_a_fraction_of_the_distance() {
    // 250 thousandths of the distance 10 is 2.5, rounded toward zero.
    assert_eq!(interpolate(10, 20, 250), 12);
    assert_eq!(interpolate(20, 10, 250), 18);
    assert_eq!(interpolate(0, 1000, 500), 500);
    assert_eq!(interpolate(500, 0, 500), 250);
}

#[test]
fn interpolate_handles_extreme_distances() {
    assert_eq!(interpolate(0, u64::MAX, FACTOR_SCALE), u64::MAX);
    assert_eq!(interpolate(u64::MAX, 0, FACTOR_SCALE), 0);
    assert_eq!(interpolate(0, u64::MAX, 0), 0);
    assert_eq!(interpolate(u64::MAX, 0, 0), u64::MAX);
    // 1 thousandth of u64::MAX, rounded toward zero.
    assert_eq!(interpolate(0, u64::MAX, 1), u64::MAX / 1000);
}

#[test]
fn factor_zero_freezes_the_bars() {
    let mut smoother = TemporalSmoother::new(4, 0);
    for targets in [
        vec![100u64, 200, 300, 400],
        vec![5, 5, 5, 5],
        vec![0, 0, 0, 0],
        vec![u64::MAX, 1, 2, 3],
    ] {
        smoother.tick(&targets);
        assert_eq!(smoother.heights(), &vec![0u64, 0, 0, 0]);
    }
}

#[test]
fn factor_one_snaps_to_the_target_every_tick() {
    let mut smoother = TemporalSmoother::new(3, FACTOR_SCALE);
    smoother.tick(&vec![5, 10, 15]);
    assert_eq!(smoother.heights(), &vec![5, 10, 15]);
    smoother.tick(&vec![7, 2, 9]);
    assert_eq!(smoother.heights(), &vec![7, 2, 9]);
}

#[test]
fn heights_stay_between_state_and_target() {
    let mut smoother = TemporalSmoother::new(1, 500);
    smoother.tick(&vec![1000]);
    assert_eq!(smoother.heights(), &vec![500]);
    smoother.tick(&vec![0]);
    assert_eq!(smoother.heights(), &vec![250]);
    smoother.tick(&vec![250]);
    assert_eq!(smoother.heights(), &vec![250]);
}

#[test]
fn smoothing_converges_toward_a_held_target() {
    let mut smoother = TemporalSmoother::new(1, 300);
    let mut previous = 0u64;
    for _ in 0..50 {
        smoother.tick(&vec![10_000]);
        let height = smoother.heights()[0];
        assert!(height >= previous);
        assert!(height <= 10_000);
        previous = height;
    }
    // 30% per tick closes the gap quickly; after 50 ticks the distance left
    // is only what truncation keeps (less than FACTOR_SCALE / 300 units).
    assert!(previous >= 9_996);
}

#[test]
fn zero_magnitude_gives_zero_target_height() {
    // gain = 1.0, scale_factor = 100.0, magnitude = 0.0:
    // target = max(log10(0.0 * 1.0 + 1e-6), 0.0) * 100.0
    //        = max(-6.0, 0.0) * 100.0 = 0.0.
    let magnitude = 0.0f64;
    let gain = 1.0f64;
    let scale_factor = 100.0f64;
    let target = (magnitude * gain + 1e-6).log10().max(0.0) * scale_factor;
    assert_eq!(target, 0.0);

    // Fed to the smoother in thousandths, a zero target keeps the bar at the
    // baseline whatever the factor.
    let target_milli = (target * 1000.0).round() as u64;
    for factor in [0u64, 1, 250, 999, 1000] {
        let mut smoother = TemporalSmoother::new(1, factor);
        smoother.tick(&vec![target_milli]);
        assert_eq!(smoother.heights(), &vec![0u64]);
    }
}
