use internet_speed::errors::SpeedTestError;
use internet_speed::http_client::HttpStatus;
use internet_speed::upload_tester::{
    payload_size, upload_rejected, UploadTester, BYTES_PER_MEGABYTE, MAX_UPLOAD_BYTES,
};

fn status(code: u16) -> HttpStatus {
    HttpStatus::from_u16(code).unwrap()
}

#[test]
fn upload_tester_keeps_its_configuration() {
    let tester = UploadTester::new("https://example.test/post".to_string(), 4096);
    assert_eq!(tester.url(), "https://example.test/post");
    assert_eq!(tester.size_bytes(), 4096);
}

#[test]
fn payload_has_exactly_the_configured_size() {
    for size in [0usize, 1, 255, 256, 257, 1000, 1_048_576] {
        let tester = UploadTester::new("u".to_string(), size);
        assert_eq!(tester.payload().len(), size);
    }
}

#[test]
fn payload_is_the_position_modulo_256() {
    let tester = UploadTester::new("u".to_string(), 1000);
    let payload = tester.payload();
    for (i, byte) in payload.iter().enumerate() {
        assert_eq!(*byte, (i % 256) as u8);
    }
    assert_eq!(payload[0], 0);
    assert_eq!(payload[255], 255);
    assert_eq!(payload[256], 0);
    assert_eq!(payload[999], 231);
}

#[test]
fn payload_is_the_same_on_every_call() {
    let tester = UploadTester::new("u".to_string(), 5000);
    assert_eq!(tester.payload(), tester.payload());
}

#[test]
fn one_mebibyte_in_half_a_second() {
    let tester = UploadTester::new("u".to_string(), 1_048_576);
    let rate = tester.conclude(status(200), 500_000_000).unwrap();
    assert_eq!(rate.bytes(), 1_048_576);
    assert_eq!(rate.bits_per_second(), 16_777_216);
    let (numerator, denominator) = rate.mbps_ratio();
    let mbps = numerator as f64 / denominator as f64;
    assert!((mbps - 16.777216).abs() < 1e-9);
    assert!((mbps - 16.78).abs() < 0.01);
}

#[test]
fn rate_uses_the_configured_size() {
    for size in [1usize, 1000, 1_048_576, 536_870_912] {
        let tester = UploadTester::new("u".to_string(), size);
        let rate = tester.conclude(status(201), 1_000_000_000).unwrap();
        assert_eq!(rate.bytes(), size);
        assert_eq!(rate.bits_per_second(), size as u128 * 8);
    }
}

#[test]
fn status_500_is_an_invalid_response_whatever_the_duration() {
    let tester = UploadTester::new("u".to_string(), 1_048_576);
    let expected = Err(SpeedTestError::InvalidResponse(
        "upload endpoint returned status 500 Internal Server Error".to_string(),
    ));
    assert_eq!(tester.conclude(status(500), 500_000_000), expected);
    assert_eq!(tester.conclude(status(500), 0), expected);
    assert_eq!(tester.conclude(status(500), -5), expected);
}

#[test]
fn every_status_outside_200_to_299_rejects_the_upload() {
    let tester = UploadTester::new("u".to_string(), 10);
    for code in [100u16, 199, 300, 302, 400, 404, 503, 999] {
        let res = tester.conclude(status(code), 1_000);
        assert!(matches!(res, Err(SpeedTestError::InvalidResponse(_))));
    }
    for code in [200u16, 204, 299] {
        assert!(tester.conclude(status(code), 1_000).is_ok());
    }
}

#[test]
fn accepted_upload_with_zero_duration_is_rejected() {
    let tester = UploadTester::new("u".to_string(), 1_048_576);
    assert_eq!(
        tester.conclude(status(200), 0),
        Err(SpeedTestError::InvalidResponse("zero duration".to_string()))
    );
    assert_eq!(
        tester.conclude(status(200), -1),
        Err(SpeedTestError::InvalidResponse("zero duration".to_string()))
    );
}

#[test]
fn rejected_upload_names_the_status() {
    assert_eq!(
        upload_rejected("502 Bad Gateway"),
        SpeedTestError::InvalidResponse(
            "upload endpoint returned status 502 Bad Gateway".to_string()
        )
    );
}

#[test]
fn payload_size_is_held_to_the_maximum() {
    assert_eq!(BYTES_PER_MEGABYTE, 1024 * 1024);
    assert_eq!(MAX_UPLOAD_BYTES, 512 * 1024 * 1024);
    assert_eq!(payload_size(0), 0);
    assert_eq!(payload_size(1), 1_048_576);
    assert_eq!(payload_size(511), 511 * 1_048_576);
    assert_eq!(payload_size(512), MAX_UPLOAD_BYTES);
    assert_eq!(payload_size(513), MAX_UPLOAD_BYTES);
    assert_eq!(payload_size(u32::MAX), MAX_UPLOAD_BYTES);
}
