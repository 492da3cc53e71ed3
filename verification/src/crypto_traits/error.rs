//! The error type of a crypto backend.

use vstd::prelude::*;

verus! {

/// Types whose operations fail with `Self::Error`.
pub trait ErrorType {
    /// The error of the operations.
    type Error;
}

} // verus!
