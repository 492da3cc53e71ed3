//! Hash digests computed in steps: init, update, finalize.

use vstd::prelude::*;

use crate::crypto_traits::backend::Backend;
use crate::crypto_traits::error::ErrorType;

verus! {

/// An algorithm that the backend can perform.
pub trait Algorithm<B: Backend + ?Sized> {

}

/// SHA-224.
#[derive(Clone, Copy)]
pub struct Sha2_224;

/// SHA-256.
#[derive(Clone, Copy)]
pub struct Sha2_256;

/// SHA-384.
#[derive(Clone, Copy)]
pub struct Sha2_384;

/// SHA-512.
#[derive(Clone, Copy)]
pub struct Sha2_512;

/// A computed digest.
pub trait Digest {
    /// The digest bytes.
    fn digest(&self) -> &[u8];
}

/// Starts a digest computation.
pub trait DigestInit<A: Algorithm<Self>>: ErrorType + Backend + Sized {
    type Context;

    fn init(&self, algorithm: &A) -> Result<Self::Context, Self::Error>;
}

/// Adds data to a digest computation.
pub trait DigestUpdate<Context: ?Sized>: ErrorType {
    fn update(&self, context: &Context, data: &[u8]) -> Result<(), Self::Error>;
}

/// Ends a digest computation.
pub trait DigestFinal<Context>: ErrorType {
    type Digest: Digest;

    fn finalize(&self, context: Context) -> Result<Self::Digest, Self::Error>;
}

} // verus!
