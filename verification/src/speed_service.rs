//! The result of a whole speed test: both directions, or one failure.
//!
//! The two tests run side by side, which is the caller's work. When both
//! have ended, [`SpeedResult::combine`] merges what they returned.

use vstd::prelude::*;
use crate::errors::{Failure, SpeedTestError};
use crate::rate::{outcome_view, Measurement, Rate};

verus! {

/// Mathematical model of a [`SpeedResult`].
pub struct Summary {
    /// The measured download.
    pub download: Measurement,
    /// The measured upload.
    pub upload: Measurement,
}

/// The rates of both directions. There is one only where both tests
/// succeeded.
#[derive(Debug, Clone, Copy, PartialEq, Eq)]
pub struct SpeedResult {
    download: Rate,
    upload: Rate,
}

impl View for SpeedResult {
    type V = Summary;

    closed spec fn view(&self) -> Summary {
        Summary { download: self.download@, upload: self.upload@ }
    }
}

/// How two outcomes merge: both rates where both tests succeeded; else the
/// failure of the download where it failed, and that of the upload where only
/// the upload failed.
pub open spec fn combined(
    download: Result<Measurement, Failure>,
    upload: Result<Measurement, Failure>,
) -> Result<Summary, Failure> {
    match download {
        Err(failure) => Err(failure),
        Ok(down) => match upload {
            Err(failure) => Err(failure),
            Ok(up) => Ok(Summary { download: down, upload: up }),
        },
    }
}

/// The view of a merged result: of both rates, or of the failure.
pub open spec fn result_view(res: Result<SpeedResult, SpeedTestError>) -> Result<Summary, Failure> {
    match res {
        Ok(result) => Ok(result@),
        Err(error) => Err(error@),
    }
}

impl SpeedResult {
    /// Merges the outcomes of the two tests once both have ended.
    ///
    /// A failure of either test is the failure of the whole: no rate is
    /// given beside it. Where both failed, the failure of the download is
    /// the one returned.
    pub fn combine(
        download: Result<Rate, SpeedTestError>,
        upload: Result<Rate, SpeedTestError>,
    ) -> (res: Result<SpeedResult, SpeedTestError>)
        ensures
            result_view(res) == combined(outcome_view(download), outcome_view(upload)),
    {
        match download {
            Err(error) => Err(error),
            Ok(down) => match upload {
                Err(error) => Err(error),
                Ok(up) => Ok(SpeedResult { download: down, upload: up }),
            },
        }
    }

    /// The measured download.
    pub fn download(&self) -> (rate: Rate)
        ensures
            rate@ == self@.download,
    {
        self.download
    }

    /// The measured upload.
    pub fn upload(&self) -> (rate: Rate)
        ensures
            rate@ == self@.upload,
    {
        self.upload
    }
}

} // verus!
