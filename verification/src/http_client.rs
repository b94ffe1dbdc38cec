//! What the testers need to know of an HTTP exchange: the status of a
//! response, and the failures that a transport reports.
//!
//! The transport itself, which opens connections and sends bodies, is the
//! caller's. It hands the status of each response to the functions here.

use vstd::prelude::*;
use reqwest::StatusCode;
use crate::errors::{Failure, SpeedTestError};

verus! {

/// The codes that a status can hold.
pub open spec fn valid_code(code: u16) -> bool {
    100 <= code <= 999
}

/// The codes that indicate success.
pub open spec fn success_code(code: u16) -> bool {
    200 <= code <= 299
}

/// The text that `StatusCode` displays for a code, such as `404 Not Found`:
/// the number and the reason phrase that the `http` crate has for it.
pub uninterp spec fn status_text(code: u16) -> Seq<char>;

/// `StatusCode::is_success`, on the status that `StatusCode::from_u16` makes
/// of `code`: whether the code lies within 200 to 299. `from_u16` accepts
/// every code from 100 to 999.
#[verifier::external_body]
fn code_is_success(code: u16) -> (ok: bool)
    requires
        valid_code(code),
    ensures
        ok == success_code(code),
{
    match StatusCode::from_u16(code) {
        Ok(status) => status.is_success(),
        Err(_) => false,
    }
}

/// The `Display` text of `StatusCode`, on the status that
/// `StatusCode::from_u16` makes of `code`. The text depends on the code
/// alone; what it is for a given code is not stated here.
#[verifier::external_body]
fn code_to_text(code: u16) -> (text: String)
    requires
        valid_code(code),
    ensures
        text@ == status_text(code),
{
    match StatusCode::from_u16(code) {
        Ok(status) => status.to_string(),
        Err(_) => String::new(),
    }
}

/// The status of an HTTP response: a code from 100 to 999.
#[derive(Debug, Clone, Copy, PartialEq, Eq)]
pub struct HttpStatus {
    code: u16,
}

impl View for HttpStatus {
    type V = u16;

    closed spec fn view(&self) -> u16 {
        self.code
    }
}

impl HttpStatus {
    #[verifier::type_invariant]
    spec fn in_range(self) -> bool {
        valid_code(self.code)
    }

    /// The status with this code, if the code is one that a status can hold.
    pub fn from_u16(code: u16) -> (status: Option<HttpStatus>)
        ensures
            status is Some <==> valid_code(code),
            status matches Some(s) ==> s@ == code,
    {
        if 100 <= code && code <= 999 {
            Some(HttpStatus { code })
        } else {
            None
        }
    }

    /// The code.
    pub fn as_u16(&self) -> (code: u16)
        ensures
            code == self@,
            valid_code(code),
    {
        proof {
            use_type_invariant(self);
        }
        self.code
    }

    /// Whether the status indicates success.
    pub fn is_success(&self) -> (ok: bool)
        ensures
            ok == success_code(self@),
    {
        proof {
            use_type_invariant(self);
        }
        code_is_success(self.code)
    }

    /// The status as text, such as `404 Not Found`.
    pub fn describe(&self) -> (text: String)
        ensures
            text@ == status_text(self@),
    {
        proof {
            use_type_invariant(self);
        }
        code_to_text(self.code)
    }
}

/// The failure for a connection that could not be established, with the
/// transport's own words.
pub fn connect_failure(detail: &str) -> (error: SpeedTestError)
    ensures
        error@ == Failure::Network("Failed to connect: "@ + detail@),
{
    SpeedTestError::Network(String::from_str("Failed to connect: ").concat(detail))
}

/// The failure for a stream that was opened with a status that does not
/// indicate success; `status` is the status as text.
pub fn stream_rejected(status: &str) -> (error: SpeedTestError)
    ensures
        error@ == Failure::InvalidResponse("HTTP status: "@ + status@),
{
    SpeedTestError::InvalidResponse(String::from_str("HTTP status: ").concat(status))
}

/// Decides whether a stream that was opened with `status` may be read.
///
/// Only a status that indicates success lets the download start. Any other
/// is a failure, although the connection itself worked: no byte is counted.
pub fn check_stream_status(status: HttpStatus) -> (res: Result<(), SpeedTestError>)
    ensures
        res is Ok <==> success_code(status@),
        res matches Err(error) ==> error@ == Failure::InvalidResponse(
            "HTTP status: "@ + status_text(status@),
        ),
{
    if status.is_success() {
        Ok(())
    } else {
        let text = status.describe();
        Err(stream_rejected(text.as_str()))
    }
}

} // verus!
