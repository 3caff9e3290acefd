//! The ways an operation can be refused.
use vstd::prelude::*;

verus! {

/// Why an operation was refused.
#[derive(Clone, Copy, Debug, PartialEq, Eq, Structural)]
pub enum GigZeroError {
    TitleTooLong,
    DescriptionTooLong,
    SubmissionUriTooLong,
    InvalidPayment,
    JobNotOpen,
    NoSubmission,
    NotJobClient,
    /// A computed amount or counter would leave its integer range.
    ArithmeticOverflow,
    /// No job has the given id.
    UnknownJob,
    /// The job's custodial authority cannot be derived.
    InvalidAuthority,
}

} // verus!
