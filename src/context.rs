use crate::error::{AggregationFailure, Error};
use crate::types::Time;
use vstd::prelude::*;

verus! {

/// Temporal constraints that an on-chain verifier re-checks: the trusted
/// state and the untrusted header must both lie within the trusting period.
/// Durations are in nanoseconds.
#[derive(Debug, Clone, Copy, PartialEq, Eq, Structural)]
pub struct TrustingPeriodContext {
    pub trusting_period: u128,
    pub clock_drift: u128,
    pub untrusted_header_timestamp: Time,
    pub trusted_state_timestamp: Time,
}

/// The context an update message carries.
#[derive(Debug, Clone, Copy, PartialEq, Eq, Structural)]
pub enum ValidationContext {
    Empty,
    TrustingPeriod(TrustingPeriodContext),
}

/// The later of two times.
pub open spec fn later(a: Time, b: Time) -> Time {
    if a@ > b@ {
        a
    } else {
        b
    }
}

/// The earlier of two times.
pub open spec fn earlier(a: Time, b: Time) -> Time {
    if a@ < b@ {
        a
    } else {
        b
    }
}

impl TrustingPeriodContext {
    pub fn new(
        trusting_period: u128,
        clock_drift: u128,
        untrusted_header_timestamp: Time,
        trusted_state_timestamp: Time,
    ) -> (r: TrustingPeriodContext)
        ensures
            r == (TrustingPeriodContext {
                trusting_period,
                clock_drift,
                untrusted_header_timestamp,
                trusted_state_timestamp,
            }),
    {
        TrustingPeriodContext {
            trusting_period,
            clock_drift,
            untrusted_header_timestamp,
            trusted_state_timestamp,
        }
    }

    /// The composition of two trusting-period contexts: the parameters must
    /// agree, and the tightest constraint of each timestamp survives.
    pub open spec fn spec_aggregate(self, other: Self) -> Result<Self, Error> {
        if self.trusting_period != other.trusting_period {
            Err(Error::MessageAggregationFailed(AggregationFailure::TrustingPeriodMismatch))
        } else if self.clock_drift != other.clock_drift {
            Err(Error::MessageAggregationFailed(AggregationFailure::ClockDriftMismatch))
        } else {
            Ok(
                TrustingPeriodContext {
                    trusting_period: self.trusting_period,
                    clock_drift: self.clock_drift,
                    untrusted_header_timestamp: later(
                        self.untrusted_header_timestamp,
                        other.untrusted_header_timestamp,
                    ),
                    trusted_state_timestamp: earlier(
                        self.trusted_state_timestamp,
                        other.trusted_state_timestamp,
                    ),
                },
            )
        }
    }

    pub fn aggregate(self, other: Self) -> (r: Result<Self, Error>)
        ensures
            r == self.spec_aggregate(other),
    {
        if self.trusting_period != other.trusting_period {
            return Err(Error::MessageAggregationFailed(AggregationFailure::TrustingPeriodMismatch));
        }
        if self.clock_drift != other.clock_drift {
            return Err(Error::MessageAggregationFailed(AggregationFailure::ClockDriftMismatch));
        }
        let a = self.untrusted_header_timestamp.as_unix_timestamp_nanos();
        let b = other.untrusted_header_timestamp.as_unix_timestamp_nanos();
        let untrusted = if a > b {
            self.untrusted_header_timestamp
        } else {
            other.untrusted_header_timestamp
        };
        let c = self.trusted_state_timestamp.as_unix_timestamp_nanos();
        let d = other.trusted_state_timestamp.as_unix_timestamp_nanos();
        let trusted = if c < d {
            self.trusted_state_timestamp
        } else {
            other.trusted_state_timestamp
        };
        Ok(TrustingPeriodContext::new(self.trusting_period, self.clock_drift, untrusted, trusted))
    }
}

impl ValidationContext {
    /// The composition of two contexts (`Empty` with `Empty`, or two
    /// compatible trusting-period contexts).
    pub open spec fn spec_aggregate(self, other: Self) -> Result<Self, Error> {
        match (self, other) {
            (ValidationContext::Empty, ValidationContext::Empty) => Ok(ValidationContext::Empty),
            (ValidationContext::TrustingPeriod(a), ValidationContext::TrustingPeriod(b)) => {
                match a.spec_aggregate(b) {
                    Ok(c) => Ok(ValidationContext::TrustingPeriod(c)),
                    Err(e) => Err(e),
                }
            },
            _ => Err(Error::MessageAggregationFailed(AggregationFailure::ContextKindMismatch)),
        }
    }

    /// Whether two contexts can be composed: both empty, or both
    /// trusting-period contexts with the same parameters.
    pub open spec fn compatible(self, other: Self) -> bool {
        match (self, other) {
            (ValidationContext::Empty, ValidationContext::Empty) => true,
            (ValidationContext::TrustingPeriod(a), ValidationContext::TrustingPeriod(b)) => {
                a.trusting_period == b.trusting_period && a.clock_drift == b.clock_drift
            },
            _ => false,
        }
    }

    pub fn aggregate(self, other: Self) -> (r: Result<Self, Error>)
        ensures
            r == self.spec_aggregate(other),
            r is Ok <==> self.compatible(other),
    {
        match (self, other) {
            (ValidationContext::Empty, ValidationContext::Empty) => Ok(ValidationContext::Empty),
            (ValidationContext::TrustingPeriod(a), ValidationContext::TrustingPeriod(b)) => {
                match a.aggregate(b) {
                    Ok(c) => Ok(ValidationContext::TrustingPeriod(c)),
                    Err(e) => Err(e),
                }
            },
            _ => Err(Error::MessageAggregationFailed(AggregationFailure::ContextKindMismatch)),
        }
    }
}

impl Default for ValidationContext {
    fn default() -> (r: ValidationContext)
        ensures
            r == ValidationContext::Empty,
    {
        ValidationContext::Empty
    }
}

impl From<TrustingPeriodContext> for ValidationContext {
    fn from(ctx: TrustingPeriodContext) -> (r: ValidationContext) {
        ValidationContext::TrustingPeriod(ctx)
    }
}

impl vstd::std_specs::convert::FromSpecImpl<TrustingPeriodContext> for ValidationContext {
    open spec fn obeys_from_spec() -> bool {
        true
    }

    open spec fn from_spec(ctx: TrustingPeriodContext) -> ValidationContext {
        ValidationContext::TrustingPeriod(ctx)
    }
}

} // verus!
