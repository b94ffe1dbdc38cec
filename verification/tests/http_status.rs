use internet_speed::errors::SpeedTestError;
use internet_speed::http_client::{
    check_stream_status, connect_failure, stream_rejected, HttpStatus,
};

#[test]
fn status_codes_outside_100_to_999_are_refused() {
    assert!(HttpStatus::from_u16(0).is_none());
    assert!(HttpStatus::from_u16(99).is_none());
    assert!(HttpStatus::from_u16(1000).is_none());
    assert!(HttpStatus::from_u16(u16::MAX).is_none());
    assert_eq!(HttpStatus::from_u16(100).unwrap().as_u16(), 100);
    assert_eq!(HttpStatus::from_u16(999).unwrap().as_u16(), 999);
}

#[test]
fn success_is_200_to_299() {
    for code in 100u16..=999 {
        let status = HttpStatus::from_u16(code).unwrap();
        assert_eq!(status.is_success(), (200..=299).contains(&code));
    }
}

#[test]
fn status_text_names_code_and_reason() {
    assert_eq!(HttpStatus::from_u16(200).unwrap().describe(), "200 OK");
    assert_eq!(HttpStatus::from_u16(404).unwrap().describe(), "404 Not Found");
    assert_eq!(
        HttpStatus::from_u16(500).unwrap().describe(),
        "500 Internal Server Error"
    );
    assert_eq!(
        HttpStatus::from_u16(999).unwrap().describe(),
        "999 <unknown status code>"
    );
}

#[test]
fn status_text_agrees_with_the_transport_s_status_type() {
    for code in [100u16, 204, 301, 404, 418, 503, 777] {
        let theirs = reqwest::StatusCode::from_u16(code).unwrap();
        let ours = HttpStatus::from_u16(theirs.as_u16()).unwrap();
        assert_eq!(ours.describe(), theirs.to_string());
        assert_eq!(ours.is_success(), theirs.is_success());
    }
}

#[test]
fn stream_with_success_status_is_accepted() {
    assert_eq!(check_stream_status(HttpStatus::from_u16(200).unwrap()), Ok(()));
    assert_eq!(check_stream_status(HttpStatus::from_u16(206).unwrap()), Ok(()));
    assert_eq!(check_stream_status(HttpStatus::from_u16(299).unwrap()), Ok(()));
}

#[test]
fn stream_with_status_404_is_an_invalid_response() {
    assert_eq!(
        check_stream_status(HttpStatus::from_u16(404).unwrap()),
        Err(SpeedTestError::InvalidResponse("HTTP status: 404 Not Found".to_string()))
    );
}

#[test]
fn stream_with_redirect_or_server_error_is_an_invalid_response() {
    for code in [199u16, 300, 301, 500, 503] {
        let res = check_stream_status(HttpStatus::from_u16(code).unwrap());
        assert!(matches!(res, Err(SpeedTestError::InvalidResponse(_))));
    }
}

#[test]
fn failure_details_carry_their_context() {
    assert_eq!(
        connect_failure("dns error"),
        SpeedTestError::Network("Failed to connect: dns error".to_string())
    );
    assert_eq!(
        stream_rejected("503 Service Unavailable"),
        SpeedTestError::InvalidResponse("HTTP status: 503 Service Unavailable".to_string())
    );
}
