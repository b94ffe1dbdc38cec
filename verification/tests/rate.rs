use internet_speed::errors::SpeedTestError;
use internet_speed::rate::Rate;

fn mbps(rate: &Rate) -> f64 {
    let (numerator, denominator) = rate.mbps_ratio();
    numerator as f64 / denominator as f64
}

#[test]
fn rate_is_bits_over_microseconds() {
    let rate = Rate::measure(1_000_000, 1_000_000_000).unwrap();
    assert_eq!(rate.bytes(), 1_000_000);
    assert_eq!(rate.elapsed_nanos(), 1_000_000_000);
    assert_eq!(rate.mbps_ratio(), (8_000_000_000, 1_000_000_000));
    assert_eq!(rate.bits_per_second(), 8_000_000);
    assert!((mbps(&rate) - 8.0).abs() < 1e-12);
}

#[test]
fn rate_matches_the_formula_in_floating_point() {
    let cases: [(usize, i128); 5] = [
        (1, 1),
        (5_000_000, 2_000_000_000),
        (1_048_576, 500_000_000),
        (123_456_789, 987_654_321),
        (10_000_000, 3_333_333_333),
    ];
    for (bytes, nanos) in cases {
        let rate = Rate::measure(bytes, nanos).unwrap();
        let seconds = nanos as f64 / 1e9;
        let expected = (bytes as f64 * 8.0) / (seconds * 1_000_000.0);
        assert!((mbps(&rate) - expected).abs() <= expected * 1e-12);
    }
}

#[test]
fn five_megabytes_in_two_seconds_is_twenty_mbps() {
    let rate = Rate::measure(5_000_000, 2_000_000_000).unwrap();
    assert_eq!(mbps(&rate), 20.0);
    assert_eq!(rate.bits_per_second(), 20_000_000);
}

#[test]
fn bits_per_second_rounds_down() {
    let rate = Rate::measure(1, 3_000_000_000).unwrap();
    // 8 bits in 3 seconds: 2.67 bits per second.
    assert_eq!(rate.bits_per_second(), 2);
    let rate = Rate::measure(1, 9_000_000_000).unwrap();
    assert_eq!(rate.bits_per_second(), 0);
}

#[test]
fn zero_bytes_over_a_positive_duration_is_a_zero_rate() {
    let rate = Rate::measure(0, 1_500_000_000).unwrap();
    assert_eq!(rate.mbps_ratio(), (0, 1_500_000_000));
    assert_eq!(rate.bits_per_second(), 0);
}

#[test]
fn zero_duration_is_rejected() {
    assert_eq!(
        Rate::measure(5_000_000, 0),
        Err(SpeedTestError::InvalidResponse("zero duration".to_string()))
    );
    assert_eq!(
        Rate::measure(0, 0),
        Err(SpeedTestError::InvalidResponse("zero duration".to_string()))
    );
}

#[test]
fn negative_duration_is_rejected() {
    assert_eq!(
        Rate::measure(5_000_000, -1),
        Err(SpeedTestError::InvalidResponse("zero duration".to_string()))
    );
    assert_eq!(
        Rate::measure(1, i128::MIN),
        Err(SpeedTestError::InvalidResponse("zero duration".to_string()))
    );
}

#[test]
fn largest_inputs_do_not_overflow() {
    let rate = Rate::measure(usize::MAX, 1).unwrap();
    assert_eq!(rate.bits_per_second(), usize::MAX as u128 * 8_000_000_000);
    let rate = Rate::measure(usize::MAX, i128::MAX).unwrap();
    assert_eq!(rate.elapsed_nanos(), i128::MAX as u128);
    assert_eq!(rate.bits_per_second(), 0);
}
