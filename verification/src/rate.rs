//! Throughput as an exact fraction of integers.
//!
//! A rate is kept as the bytes that were transferred and the nanoseconds that
//! the transfer took. Megabits per second are bits divided by microseconds,
//! so the rate in Mbps is `bytes * 8 * 1000 / nanoseconds`, with nothing
//! rounded until a caller asks for a whole number.

use vstd::prelude::*;
use crate::errors::{Failure, SpeedTestError};

verus! {

/// Mathematical model of a [`Rate`].
pub struct Measurement {
    /// Bytes transferred.
    pub bytes: nat,
    /// Nanoseconds that the transfer took.
    pub nanos: int,
}

impl Measurement {
    /// A measurement stands for a rate only over a positive duration.
    pub open spec fn valid(self) -> bool {
        self.nanos > 0
    }

    /// Bits transferred: eight for each byte.
    pub open spec fn bits(self) -> nat {
        self.bytes * 8
    }

    /// Numerator of the rate in megabits per second.
    pub open spec fn mbps_numerator(self) -> nat {
        self.bits() * 1000
    }

    /// Denominator of the rate in megabits per second.
    pub open spec fn mbps_denominator(self) -> int {
        self.nanos
    }

    /// Whole bits per second, rounded down.
    pub open spec fn bits_per_second(self) -> int {
        (self.bits() * 1_000_000_000) as int / self.nanos
    }
}

/// The detail of the failure that rejects a duration of zero or less.
pub open spec fn zero_duration() -> Seq<char> {
    "zero duration"@
}

/// What [`Rate::measure`] returns for a byte count and a duration.
pub open spec fn measured(bytes: nat, elapsed_nanos: int) -> Result<Measurement, Failure> {
    if elapsed_nanos <= 0 {
        Err(Failure::InvalidResponse(zero_duration()))
    } else {
        Ok(Measurement { bytes, nanos: elapsed_nanos })
    }
}

/// The view of a measuring result: of the rate, or of the failure.
pub open spec fn outcome_view(res: Result<Rate, SpeedTestError>) -> Result<Measurement, Failure> {
    match res {
        Ok(rate) => Ok(rate@),
        Err(e) => Err(e@),
    }
}

/// A measured transfer rate over a positive duration.
#[derive(Debug, Clone, Copy, PartialEq, Eq)]
pub struct Rate {
    bytes: usize,
    nanos: u128,
}

impl View for Rate {
    type V = Measurement;

    closed spec fn view(&self) -> Measurement {
        Measurement { bytes: self.bytes as nat, nanos: self.nanos as int }
    }
}

impl Rate {
    #[verifier::type_invariant]
    spec fn positive_duration(self) -> bool {
        0 < self.nanos <= i128::MAX
    }

    /// The rate of `bytes` transferred in `elapsed_nanos` nanoseconds.
    ///
    /// A duration of zero or less has no rate: it is rejected, and never
    /// reported as an infinite or a zero rate.
    pub fn measure(bytes: usize, elapsed_nanos: i128) -> (res: Result<Rate, SpeedTestError>)
        ensures
            outcome_view(res) == measured(bytes as nat, elapsed_nanos as int),
    {
        if elapsed_nanos <= 0 {
            Err(SpeedTestError::InvalidResponse(String::from_str("zero duration")))
        } else {
            Ok(Rate { bytes, nanos: elapsed_nanos as u128 })
        }
    }

    /// Bytes transferred.
    pub fn bytes(&self) -> (n: usize)
        ensures
            n == self@.bytes,
    {
        self.bytes
    }

    /// Nanoseconds that the transfer took: always positive.
    pub fn elapsed_nanos(&self) -> (n: u128)
        ensures
            n == self@.nanos,
            self@.valid(),
    {
        proof {
            use_type_invariant(self);
        }
        self.nanos
    }

    /// The rate in megabits per second as an exact fraction: numerator first,
    /// then the denominator, which is never zero.
    pub fn mbps_ratio(&self) -> (ratio: (u128, u128))
        ensures
            ratio.0 == self@.mbps_numerator(),
            ratio.1 == self@.mbps_denominator(),
            ratio.1 > 0,
    {
        proof {
            use_type_invariant(self);
        }
        let bytes: u128 = self.bytes as u128;
        (bytes * 8000, self.nanos)
    }

    /// Whole bits per second, rounded down.
    pub fn bits_per_second(&self) -> (bps: u128)
        ensures
            bps == self@.bits_per_second(),
            bps * self@.nanos <= self@.bits() * 1_000_000_000 < (bps + 1) * self@.nanos,
    {
        proof {
            use_type_invariant(self);
            lemma_bits_per_second_floor(self@);
        }
        let bytes: u128 = self.bytes as u128;
        (bytes * 8_000_000_000) / self.nanos
    }
}

/// For every byte count and every positive duration there is a rate, and it
/// is the bits divided by the seconds and by one million. With the duration
/// in nanoseconds and the rate as the fraction `mbps_numerator /
/// mbps_denominator`, that is: the rate times the nanoseconds times one
/// million equals the bits times the nanoseconds of one second.
pub proof fn lemma_rate_formula(bytes: nat, elapsed_nanos: int)
    requires
        elapsed_nanos > 0,
    ensures
        measured(bytes, elapsed_nanos) matches Ok(m) && {
            &&& m.bytes == bytes
            &&& m.nanos == elapsed_nanos
            &&& m.mbps_denominator() > 0
            &&& m.mbps_numerator() * (elapsed_nanos * 1_000_000) == (bytes * 8) * 1_000_000_000
                * m.mbps_denominator()
        },
{
    let m = Measurement { bytes, nanos: elapsed_nanos };
    assert(m.mbps_numerator() * (elapsed_nanos * 1_000_000) == (bytes * 8) * 1_000_000_000
        * elapsed_nanos) by (nonlinear_arith)
        requires
            m.mbps_numerator() == bytes * 8 * 1000,
    ;
}

/// A duration of zero or less never has a rate, whatever was transferred: it
/// is rejected as an invalid response that names the zero duration.
pub proof fn lemma_zero_duration_has_no_rate(bytes: nat, elapsed_nanos: int)
    requires
        elapsed_nanos <= 0,
    ensures
        measured(bytes, elapsed_nanos) == Err::<Measurement, Failure>(
            Failure::InvalidResponse(zero_duration()),
        ),
{
}

/// Whole bits per second are the rate rounded down: they do not exceed the
/// exact rate, and one bit per second more would.
pub proof fn lemma_bits_per_second_floor(m: Measurement)
    requires
        m.valid(),
    ensures
        0 <= m.bits_per_second(),
        m.bits_per_second() * m.nanos <= m.bits() * 1_000_000_000,
        m.bits() * 1_000_000_000 < (m.bits_per_second() + 1) * m.nanos,
{
    let n: int = (m.bits() * 1_000_000_000) as int;
    let d: int = m.nanos;
    assert(0 <= n / d && (n / d) * d <= n < (n / d + 1) * d) by (nonlinear_arith)
        requires
            n >= 0,
            d > 0,
    ;
}

} // verus!
