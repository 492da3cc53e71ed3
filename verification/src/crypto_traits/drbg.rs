//! Deterministic random bit generators.

use vstd::prelude::*;

use crate::crypto_traits::error::ErrorType;

verus! {

/// A deterministic random bit generator.
pub trait Drbg: ErrorType {
    /// Instantiates the generator with a personalization string.
    fn instantiate(&self, personalization_string: &[u8]) -> Result<(), Self::Error>;

    /// Reseeds the generator.
    fn reseed(&self, additional_input: &[u8]) -> Result<(), Self::Error>;

    /// Fills `output` with generated bytes.
    fn generate(&self, additional_input: &[u8], output: &mut [u8]) -> Result<(), Self::Error>;

    /// Destroys the generator state.
    fn uninstantiate(&self) -> Result<(), Self::Error>;
}

} // verus!
