//! The allowed expiry window for offers.

use vstd::prelude::*;

use crate::time::{Timestamp, NANOS_PER_SECOND};

verus! {

/// Errors from validating an expiry range or an expiry time.
#[derive(Clone, Copy, Debug, PartialEq, Eq, Structural)]
pub enum ExpiryRangeError {
    InvalidExpirationRange,
    InvalidExpiry,
}

/// The valid time range for offers: an offer's expiry must lie strictly more
/// than `min` seconds after its creation and no more than `max` seconds after
/// the present.
#[derive(Clone, Copy, Debug, PartialEq, Eq, Structural)]
pub struct ExpiryRange {
    pub min: u64,
    pub max: u64,
}

impl ExpiryRange {
    /// Whether `expires` is acceptable for an offer created at `created_at`,
    /// judged at time `now`.
    pub open spec fn spec_is_valid(self, now: Timestamp, created_at: Timestamp, expires: Timestamp) -> bool {
        expires.nanos > created_at.nanos + self.min * NANOS_PER_SECOND
            && expires.nanos <= now.nanos + self.max * NANOS_PER_SECOND
    }

    pub fn new(min: u64, max: u64) -> (r: Self)
        ensures
            r == (ExpiryRange { min, max }),
    {
        ExpiryRange { min, max }
    }

    /// Validates that the given expiry time is within the allowable range.
    pub fn is_valid(&self, now: Timestamp, created_at: Timestamp, expires: Timestamp) -> (r: Result<(), ExpiryRangeError>)
        requires
            created_at.nanos + self.min * NANOS_PER_SECOND <= u64::MAX,
            now.nanos + self.max * NANOS_PER_SECOND <= u64::MAX,
        ensures
            r is Ok <==> self.spec_is_valid(now, created_at, expires),
            r is Err ==> r == Err::<(), ExpiryRangeError>(ExpiryRangeError::InvalidExpirationRange),
    {
        if !(expires.nanos > created_at.plus_seconds(self.min).nanos
            && expires.nanos <= now.plus_seconds(self.max).nanos)
        {
            return Err(ExpiryRangeError::InvalidExpirationRange);
        }

        Ok(())
    }

    /// Validates that the range itself is ordered.
    pub fn validate(&self) -> (r: Result<(), ExpiryRangeError>)
        ensures
            r is Ok <==> self.min <= self.max,
            r is Err ==> r == Err::<(), ExpiryRangeError>(ExpiryRangeError::InvalidExpiry),
    {
        if self.min > self.max {
            return Err(ExpiryRangeError::InvalidExpiry);
        }

        Ok(())
    }
}

} // verus!
