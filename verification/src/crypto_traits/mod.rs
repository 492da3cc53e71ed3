//! The traits that a crypto backend implements, one per family of
//! operations, and the marker types of the algorithms.

use vstd::prelude::*;

use crate::crypto_traits::backend::Backend;

pub mod aes;
pub mod asymmetric;
pub mod backend;
pub mod digest;
pub mod drbg;
pub mod error;
pub mod hmac;
pub mod keymgr;
pub mod symmetric;

verus! {

/// An algorithm that the backend can perform.
pub trait Algorithm<B: Backend + ?Sized> {

}

/// The parameter of an operation that takes none.
#[derive(Clone, Copy)]
pub struct NoParam;

} // verus!
