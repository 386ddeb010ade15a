//! The cycle period: the one number that sets both the cadence of the loop
//! and the integration step of the filter.

use vstd::prelude::*;
use crate::binary32::{encodes_positive, is_positive};
use crate::error::FusionError;

verus! {

/// How long is left of a period of `period` milliseconds once `elapsed`
/// milliseconds of it are spent: the difference, or nothing once the period
/// is used up.
pub open spec fn remainder_of(period: int, elapsed: int) -> int {
    if elapsed < period {
        period - elapsed
    } else {
        0
    }
}

/// A positive whole number of milliseconds.
#[derive(Clone, Copy, Debug, PartialEq, Eq, Structural)]
pub struct Period {
    millis: u64,
}

impl Period {
    #[verifier::type_invariant]
    spec fn positive(self) -> bool {
        self.millis > 0
    }

    /// The period in milliseconds.
    pub closed spec fn view(&self) -> int {
        self.millis as int
    }

    /// Accepts a period after checking that it is positive.
    pub fn from_millis(millis: i64) -> (r: Result<Period, FusionError>)
        ensures
            millis <= 0 <==> r == Err::<Period, FusionError>(FusionError::InvalidConfiguration),
            millis > 0 <==> r is Ok,
            r is Ok ==> r->Ok_0@ == millis,
    {
        if millis <= 0 {
            Err(FusionError::InvalidConfiguration)
        } else {
            Ok(Period { millis: millis as u64 })
        }
    }

    /// The period in milliseconds, which is never zero.
    pub fn as_millis(&self) -> (r: u64)
        ensures
            r == self@,
            r > 0,
    {
        proof {
            use_type_invariant(self);
        }
        self.millis
    }

    /// The time left to rest after a cycle that took `elapsed_ms`.
    pub fn remaining(&self, elapsed_ms: u64) -> (r: u64)
        ensures
            r == remainder_of(self@, elapsed_ms as int),
    {
        if elapsed_ms < self.millis {
            self.millis - elapsed_ms
        } else {
            0
        }
    }

    /// Whether a cycle that took `elapsed_ms` ran past the period.
    pub fn overrun(&self, elapsed_ms: u64) -> (r: bool)
        ensures
            r == (elapsed_ms > self@),
    {
        elapsed_ms > self.millis
    }
}

/// Lets an integration step, given in seconds as a 32-bit encoding, pass to
/// the filter only if it is a finite number greater than zero. The step is
/// never changed.
pub fn vet_step(step: u32) -> (r: Result<u32, FusionError>)
    ensures
        encodes_positive(step) <==> r == Ok::<u32, FusionError>(step),
        !encodes_positive(step) <==> r == Err::<u32, FusionError>(
            FusionError::InvalidConfiguration,
        ),
{
    if is_positive(step) {
        Ok(step)
    } else {
        Err(FusionError::InvalidConfiguration)
    }
}

/// Work and rest together fill the period exactly, unless the work alone
/// already took longer; then there is no rest at all.
pub proof fn lemma_rest_fills_period(period: int, elapsed: int)
    requires
        period > 0,
        elapsed >= 0,
    ensures
        0 <= remainder_of(period, elapsed) <= period,
        elapsed <= period ==> elapsed + remainder_of(period, elapsed) == period,
        elapsed > period ==> remainder_of(period, elapsed) == 0,
        remainder_of(period, 0) == period,
{
}

} // verus!
