use internet_speed::errors::SpeedTestError;
use internet_speed::rate::Rate;
use internet_speed::speed_service::SpeedResult;

fn down() -> Rate {
    Rate::measure(5_000_000, 2_000_000_000).unwrap()
}

fn up() -> Rate {
    Rate::measure(1_048_576, 500_000_000).unwrap()
}

#[test]
fn both_rates_where_both_tests_succeeded() {
    let result = SpeedResult::combine(Ok(down()), Ok(up())).unwrap();
    assert_eq!(result.download(), down());
    assert_eq!(result.upload(), up());
    assert_eq!(result.download().bits_per_second(), 20_000_000);
    assert_eq!(result.upload().bits_per_second(), 16_777_216);
}

#[test]
fn download_failure_fails_the_whole() {
    let failure = SpeedTestError::Network("Failed to connect: refused".to_string());
    assert_eq!(SpeedResult::combine(Err(failure.clone()), Ok(up())), Err(failure));
}

#[test]
fn upload_failure_fails_the_whole() {
    let failure = SpeedTestError::InvalidResponse("zero duration".to_string());
    assert_eq!(SpeedResult::combine(Ok(down()), Err(failure.clone())), Err(failure));
}

#[test]
fn download_failure_comes_first_where_both_failed() {
    let first = SpeedTestError::Network("download".to_string());
    let second = SpeedTestError::Aborted("upload".to_string());
    assert_eq!(SpeedResult::combine(Err(first.clone()), Err(second)), Err(first));
}
