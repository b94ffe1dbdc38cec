use internet_speed::errors::SpeedTestError;
use internet_speed::text::decimal_string;

#[test]
fn each_kind_has_its_prefix() {
    assert_eq!(
        SpeedTestError::Network("timed out".to_string()).message(),
        "network error: timed out"
    );
    assert_eq!(SpeedTestError::Io("disk".to_string()).message(), "io error: disk");
    assert_eq!(
        SpeedTestError::InvalidResponse("zero duration".to_string()).message(),
        "invalid response: zero duration"
    );
    assert_eq!(
        SpeedTestError::Aborted("by user".to_string()).message(),
        "test aborted: by user"
    );
}

#[test]
fn detail_is_the_text_without_the_prefix() {
    assert_eq!(SpeedTestError::Network("x".to_string()).detail(), "x");
    assert_eq!(SpeedTestError::Io(String::new()).detail(), "");
    assert_eq!(SpeedTestError::InvalidResponse("y z".to_string()).detail(), "y z");
    assert_eq!(SpeedTestError::Aborted("w".to_string()).detail(), "w");
}

#[test]
fn decimal_text_matches_the_standard_rendering() {
    for n in [0usize, 1, 9, 10, 11, 99, 100, 101, 999, 1000, 3_000_000, 1_048_576, usize::MAX] {
        assert_eq!(decimal_string(n), n.to_string());
    }
}
