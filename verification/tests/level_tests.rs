use buddy::level::{exceeds_target_peak, floor_sqrt, level_to_target, peak_rms, TARGET_PEAK};

#[test]
fn peak_is_the_largest_magnitude() {
    let level = peak_rms(&[3, -4]);
    assert_eq!(level.peak, 4);
    assert_eq!(level.rms, 3);
}

#[test]
fn level_of_nothing_is_zero() {
    let level = peak_rms(&[]);
    assert_eq!(level.peak, 0);
    assert_eq!(level.rms, 0);
}

#[test]
fn most_negative_sample_has_the_largest_magnitude() {
    let level = peak_rms(&[i16::MIN, 5]);
    assert_eq!(level.peak, 32768);
    let alone = peak_rms(&[i16::MIN]);
    assert_eq!(alone.rms, 32768);
}

#[test]
fn rms_of_a_constant_signal_is_its_magnitude() {
    let samples: Vec<i16> = vec![-1200; 1000];
    let level = peak_rms(&samples);
    assert_eq!(level.peak, 1200);
    assert_eq!(level.rms, 1200);
}

#[test]
fn floor_sqrt_rounds_down() {
    assert_eq!(floor_sqrt(0), 0);
    assert_eq!(floor_sqrt(1), 1);
    assert_eq!(floor_sqrt(15), 3);
    assert_eq!(floor_sqrt(16), 4);
    assert_eq!(floor_sqrt(17), 4);
    assert_eq!(floor_sqrt(1 << 30), 1 << 15);
    assert_eq!(floor_sqrt(u64::MAX), u32::MAX);
}

#[test]
fn target_peak_is_four_fifths_of_full_scale() {
    assert_eq!(TARGET_PEAK, 26213);
    assert!(!exceeds_target_peak(26213));
    assert!(exceeds_target_peak(26214));
}

#[test]
fn loud_capture_is_scaled_to_the_target() {
    let out = level_to_target(vec![32767, -16384, 100]);
    assert_eq!(out, vec![26213, -13106, 79]);
    assert_eq!(peak_rms(&out).peak, 26213);
}

#[test]
fn capture_at_negative_full_scale_is_scaled_to_the_target() {
    let out = level_to_target(vec![-32768, 32767, 100]);
    assert_eq!(out, vec![-26213, 26212, 79]);
}

#[test]
fn quiet_capture_is_left_alone() {
    let samples: Vec<i16> = vec![26213, -26213, 7];
    assert_eq!(level_to_target(samples.clone()), samples);
    assert_eq!(level_to_target(Vec::new()), Vec::<i16>::new());
}
