//! The failure taxonomy shared by both testers and the orchestrator.

use vstd::prelude::*;

verus! {

/// Why a speed test produced no rate.
#[derive(Debug, Clone, PartialEq, Eq)]
pub enum SpeedTestError {
    /// The connection could not be established, or the transport failed
    /// during the transfer.
    Network(String),
    /// A local input or output operation failed.
    Io(String),
    /// The connection worked but what came back cannot be used: a status that
    /// does not indicate success, or a duration that is not positive.
    InvalidResponse(String),
    /// The test was cancelled.
    Aborted(String),
}

/// Mathematical model of a [`SpeedTestError`]: the kind and the characters of
/// its detail.
pub enum Failure {
    Network(Seq<char>),
    Io(Seq<char>),
    InvalidResponse(Seq<char>),
    Aborted(Seq<char>),
}

impl Failure {
    /// The detail that the failure carries, without its kind.
    pub open spec fn detail(self) -> Seq<char> {
        match self {
            Failure::Network(d) => d,
            Failure::Io(d) => d,
            Failure::InvalidResponse(d) => d,
            Failure::Aborted(d) => d,
        }
    }

    /// The words that introduce a failure of this kind in its message.
    pub open spec fn prefix(self) -> Seq<char> {
        match self {
            Failure::Network(_) => "network error: "@,
            Failure::Io(_) => "io error: "@,
            Failure::InvalidResponse(_) => "invalid response: "@,
            Failure::Aborted(_) => "test aborted: "@,
        }
    }

    /// The message shown to a user: the kind's prefix, then the detail.
    pub open spec fn message(self) -> Seq<char> {
        self.prefix() + self.detail()
    }
}

impl View for SpeedTestError {
    type V = Failure;

    open spec fn view(&self) -> Failure {
        match self {
            SpeedTestError::Network(d) => Failure::Network(d@),
            SpeedTestError::Io(d) => Failure::Io(d@),
            SpeedTestError::InvalidResponse(d) => Failure::InvalidResponse(d@),
            SpeedTestError::Aborted(d) => Failure::Aborted(d@),
        }
    }
}

impl SpeedTestError {
    /// The detail of the failure, without the words that name its kind.
    pub fn detail(&self) -> (d: &str)
        ensures
            d@ == self@.detail(),
    {
        match self {
            SpeedTestError::Network(d) => d.as_str(),
            SpeedTestError::Io(d) => d.as_str(),
            SpeedTestError::InvalidResponse(d) => d.as_str(),
            SpeedTestError::Aborted(d) => d.as_str(),
        }
    }

    /// The message shown to a user, such as `network error: timed out`.
    pub fn message(&self) -> (text: String)
        ensures
            text@ == self@.message(),
    {
        let prefix = match self {
            SpeedTestError::Network(_) => "network error: ",
            SpeedTestError::Io(_) => "io error: ",
            SpeedTestError::InvalidResponse(_) => "invalid response: ",
            SpeedTestError::Aborted(_) => "test aborted: ",
        };
        String::from_str(prefix).concat(self.detail())
    }
}

} // verus!
