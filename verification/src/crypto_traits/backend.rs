//! The marker trait of crypto backends.

use vstd::prelude::*;

verus! {

/// A crypto backend: a type that performs crypto operations.
pub trait Backend {

}

} // verus!
