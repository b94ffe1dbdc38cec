//! The upload test: a payload of a configured size is sent as one request
//! body, and the whole round trip is timed.
//!
//! Sending is the caller's work. The caller asks for the
//! [`payload`](UploadTester::payload), starts its timer, sends the payload,
//! stops the timer when the response or a failure has come back, and hands
//! the status and the duration to [`UploadTester::conclude`].

use vstd::prelude::*;
use bytes::Bytes;
use crate::buffer::{bytes_contents, bytes_from_vec};
use crate::errors::{Failure, SpeedTestError};
use crate::http_client::{status_text, success_code, HttpStatus};
use crate::rate::{measured, outcome_view, zero_duration, Measurement, Rate};

verus! {

/// The largest payload that [`payload_size`] gives: 512 MiB.
pub const MAX_UPLOAD_BYTES: usize = 536_870_912;

/// Bytes in one MiB.
pub const BYTES_PER_MEGABYTE: usize = 1_048_576;

/// Mathematical model of an [`UploadTester`].
pub struct UploadPlan {
    /// The endpoint to upload to.
    pub url: Seq<char>,
    /// The size of the payload in bytes.
    pub size_bytes: usize,
}

/// Configuration of an upload test: where to upload to, and how many bytes.
#[derive(Debug, Clone, PartialEq, Eq)]
pub struct UploadTester {
    url: String,
    size_bytes: usize,
}

impl View for UploadTester {
    type V = UploadPlan;

    closed spec fn view(&self) -> UploadPlan {
        UploadPlan { url: self.url@, size_bytes: self.size_bytes }
    }
}

/// The byte at position `i` of a payload: the position modulo 256.
pub open spec fn fill_byte(i: int) -> u8 {
    (i % 256) as u8
}

/// The payload of `size` bytes: a fixed pattern that repeats every 256
/// bytes.
pub open spec fn payload_pattern(size: nat) -> Seq<u8> {
    Seq::new(size, |i: int| fill_byte(i))
}

/// The detail of the failure for an upload that was answered with a status
/// that does not indicate success; `status` is the status as text.
pub open spec fn upload_rejection_detail(status: Seq<char>) -> Seq<char> {
    "upload endpoint returned status "@ + status
}

/// The result of an upload of `size` bytes that was answered with `code`
/// after `elapsed_nanos` nanoseconds. The status is judged first: a rejected
/// upload has no rate, whatever its duration.
pub open spec fn upload_outcome(size: nat, code: u16, elapsed_nanos: int) -> Result<
    Measurement,
    Failure,
> {
    if !success_code(code) {
        Err(Failure::InvalidResponse(upload_rejection_detail(status_text(code))))
    } else {
        measured(size, elapsed_nanos)
    }
}

/// The payload size in bytes for a size given in MiB, held to
/// [`MAX_UPLOAD_BYTES`].
pub fn payload_size(megabytes: u32) -> (bytes: usize)
    ensures
        bytes == if megabytes * BYTES_PER_MEGABYTE <= MAX_UPLOAD_BYTES {
            megabytes * BYTES_PER_MEGABYTE
        } else {
            MAX_UPLOAD_BYTES as int
        },
{
    if megabytes >= 512 {
        MAX_UPLOAD_BYTES
    } else {
        (megabytes as usize) * BYTES_PER_MEGABYTE
    }
}

/// The failure for an upload that was answered with a status that does not
/// indicate success; `status` is the status as text.
pub fn upload_rejected(status: &str) -> (error: SpeedTestError)
    ensures
        error@ == Failure::InvalidResponse(upload_rejection_detail(status@)),
{
    SpeedTestError::InvalidResponse(
        String::from_str("upload endpoint returned status ").concat(status),
    )
}

/// An upload has a rate exactly where its status indicates success and its
/// duration is positive, and the rate is then that of the configured size:
/// the bytes of the rate are the size, whatever went over the wire.
pub proof fn lemma_upload_rate_uses_size(size: nat, code: u16, elapsed_nanos: int)
    ensures
        upload_outcome(size, code, elapsed_nanos) is Ok <==> success_code(code) && elapsed_nanos
            > 0,
        upload_outcome(size, code, elapsed_nanos) matches Ok(m) ==> m.bytes == size && m.nanos
            == elapsed_nanos,
{
}

/// A status that does not indicate success rejects the upload, whatever its
/// duration and size: the result is an invalid response that names the
/// status, and there is no rate.
pub proof fn lemma_rejected_upload_has_no_rate(size: nat, code: u16, elapsed_nanos: int)
    requires
        !success_code(code),
    ensures
        upload_outcome(size, code, elapsed_nanos) == Err::<Measurement, Failure>(
            Failure::InvalidResponse(upload_rejection_detail(status_text(code))),
        ),
{
}

/// An accepted upload over a duration of zero or less has no rate: it is
/// rejected as an invalid response that names the zero duration.
pub proof fn lemma_upload_needs_duration(size: nat, code: u16, elapsed_nanos: int)
    requires
        elapsed_nanos <= 0,
    ensures
        upload_outcome(size, code, elapsed_nanos) is Err,
        success_code(code) ==> upload_outcome(size, code, elapsed_nanos) == Err::<
            Measurement,
            Failure,
        >(Failure::InvalidResponse(zero_duration())),
{
}

impl UploadTester {
    /// An upload test that sends `size_bytes` bytes to `url`.
    pub fn new(url: String, size_bytes: usize) -> (tester: UploadTester)
        ensures
            tester@ == (UploadPlan { url: url@, size_bytes }),
    {
        UploadTester { url, size_bytes }
    }

    /// The endpoint to upload to.
    pub fn url(&self) -> (url: &str)
        ensures
            url@ == self@.url,
    {
        self.url.as_str()
    }

    /// The size of the payload in bytes.
    pub fn size_bytes(&self) -> (size: usize)
        ensures
            size == self@.size_bytes,
    {
        self.size_bytes
    }

    /// The payload: exactly the configured number of bytes, the same on
    /// every call. The byte at each position is the position modulo 256.
    pub fn payload(&self) -> (body: Bytes)
        ensures
            bytes_contents(body) == payload_pattern(self@.size_bytes as nat),
            bytes_contents(body).len() == self@.size_bytes,
    {
        let size = self.size_bytes;
        let mut data: Vec<u8> = Vec::new();
        let mut i: usize = 0;
        while i < size
            invariant
                i <= size,
                data@ =~= payload_pattern(i as nat),
            decreases size - i,
        {
            data.push((i % 256) as u8);
            i += 1;
        }
        bytes_from_vec(data)
    }

    /// The result of the upload, from the status that answered it and the
    /// nanoseconds that the round trip took.
    ///
    /// A status that does not indicate success is a failure that names the
    /// status, whatever the duration. Otherwise the rate is that of the
    /// configured size over the duration, which must be positive.
    pub fn conclude(&self, status: HttpStatus, elapsed_nanos: i128) -> (res: Result<
        Rate,
        SpeedTestError,
    >)
        ensures
            outcome_view(res) == upload_outcome(
                self@.size_bytes as nat,
                status@,
                elapsed_nanos as int,
            ),
    {
        if !status.is_success() {
            let text = status.describe();
            Err(upload_rejected(text.as_str()))
        } else {
            Rate::measure(self.size_bytes, elapsed_nanos)
        }
    }
}

} // verus!
