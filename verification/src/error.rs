//! The failures a fusion task can meet.

use vstd::prelude::*;

verus! {

/// Every way in which a fusion task can fail.
#[derive(Clone, Copy, Debug, PartialEq, Eq, Structural)]
pub enum FusionError {
    /// The sample source is closed or reported an error.
    SampleUnavailable,
    /// The filter handed back a value that is not a finite number.
    NumericInstability,
    /// The sink refused an orientation message.
    PublishFailure,
    /// The configured period is zero or negative.
    InvalidConfiguration,
}

impl FusionError {
    /// Whether the task must stop on this failure. Only a bad configuration
    /// and a closed sample source end the task; the other two are survived.
    pub open spec fn fatal(self) -> bool {
        self == FusionError::SampleUnavailable || self == FusionError::InvalidConfiguration
    }

    /// Executable form of [`FusionError::fatal`].
    pub fn is_fatal(&self) -> (r: bool)
        ensures
            r == self.fatal(),
    {
        match self {
            FusionError::SampleUnavailable => true,
            FusionError::InvalidConfiguration => true,
            FusionError::NumericInstability => false,
            FusionError::PublishFailure => false,
        }
    }
}

} // verus!
