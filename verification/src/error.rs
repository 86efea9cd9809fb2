//! What can go wrong in a run, and which of it ends the run.

use vstd::prelude::*;

verus! {

/// The kinds of failure that a run can meet.
#[derive(Clone, Copy, Debug, PartialEq, Eq)]
pub enum ErrorKind {
    /// The camera is absent or could not be read. The run falls back to the
    /// weather.
    EstimatorUnavailable,
    /// The camera failed and no credential of the weather service is
    /// configured.
    MissingCredential,
    /// A request to the location or weather service failed.
    NetworkFailure,
    /// An answer of the location or weather service could not be read.
    ParseFailure,
    /// No monitor was configured and the enumeration found none.
    NoMonitorsFound,
    /// The display utility failed for one monitor. The others are still
    /// attempted.
    ApplyFailure,
}

impl ErrorKind {
    /// Whether a failure of this kind ends the run before anything is
    /// applied. A camera failure is recovered by the fallback, and a failure
    /// on one monitor leaves the others untouched.
    pub open spec fn fatal(self) -> bool {
        !(self is EstimatorUnavailable || self is ApplyFailure)
    }

    /// Whether a failure of this kind ends the run.
    pub fn is_fatal(&self) -> (fatal: bool)
        ensures
            fatal == self.fatal(),
    {
        match self {
            ErrorKind::EstimatorUnavailable => false,
            ErrorKind::ApplyFailure => false,
            _ => true,
        }
    }
}

} // verus!
