//! Status codes shared by the services.

use vstd::prelude::*;

verus! {

/// An error status (the canonical status codes, without `Ok`).
#[derive(Clone, Copy, PartialEq, Eq, Structural, Debug)]
pub enum Error {
    Cancelled,
    Unknown,
    InvalidArgument,
    DeadlineExceeded,
    NotFound,
    AlreadyExists,
    PermissionDenied,
    ResourceExhausted,
    FailedPrecondition,
    Aborted,
    OutOfRange,
    Unimplemented,
    Internal,
    Unavailable,
    DataLoss,
    Unauthenticated,
}

impl Error {
    /// The numeric status code.
    pub open spec fn spec_code(self) -> u32 {
        match self {
            Error::Cancelled => 1,
            Error::Unknown => 2,
            Error::InvalidArgument => 3,
            Error::DeadlineExceeded => 4,
            Error::NotFound => 5,
            Error::AlreadyExists => 6,
            Error::PermissionDenied => 7,
            Error::ResourceExhausted => 8,
            Error::FailedPrecondition => 9,
            Error::Aborted => 10,
            Error::OutOfRange => 11,
            Error::Unimplemented => 12,
            Error::Internal => 13,
            Error::Unavailable => 14,
            Error::DataLoss => 15,
            Error::Unauthenticated => 16,
        }
    }

    /// The numeric status code.
    pub fn code(self) -> (r: u32)
        ensures
            r == self.spec_code(),
    {
        match self {
            Error::Cancelled => 1,
            Error::Unknown => 2,
            Error::InvalidArgument => 3,
            Error::DeadlineExceeded => 4,
            Error::NotFound => 5,
            Error::AlreadyExists => 6,
            Error::PermissionDenied => 7,
            Error::ResourceExhausted => 8,
            Error::FailedPrecondition => 9,
            Error::Aborted => 10,
            Error::OutOfRange => 11,
            Error::Unimplemented => 12,
            Error::Internal => 13,
            Error::Unavailable => 14,
            Error::DataLoss => 15,
            Error::Unauthenticated => 16,
        }
    }
}

} // verus!
