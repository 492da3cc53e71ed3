//! Key generation and key wrapping.

use vstd::prelude::*;

use crate::crypto_traits::backend::Backend;
use crate::crypto_traits::error::ErrorType;
use crate::crypto_traits::Algorithm;

verus! {

/// Generates symmetric keys.
pub trait SymmetricKeyGen<A: Algorithm<Self>>: ErrorType + Backend + Sized {
    type Key;

    fn symmetric_key_gen(&self, algo: &A, personalization_string: &[u8]) -> Result<Self::Key, Self::Error>;
}

/// Derives hardware-backed keys.
pub trait HardwareKeyGen<A: Algorithm<Self>>: ErrorType + Backend + Sized {
    type Key;
    type Salt;

    fn hw_backed_key(&self, algo: &A, version: u32, salt: &Self::Salt) -> Result<Self::Key, Self::Error>;
}

/// Wraps and unwraps keys with a key-encryption key.
pub trait KeyWrap: ErrorType {
    type Key;

    /// Wraps `key_to_wrap` into `output`; returns the wrapped length.
    fn wrap(&self, key_to_wrap: &Self::Key, kek: &Self::Key, output: &mut [u8]) -> Result<usize, Self::Error>;

    /// Unwraps a wrapped key.
    fn unwrap(&self, wrapped_key: &[u8], kek: &Self::Key) -> Result<Self::Key, Self::Error>;
}

} // verus!
