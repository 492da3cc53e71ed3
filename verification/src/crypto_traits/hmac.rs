//! HMAC computed in steps: init, update, finalize.

use vstd::prelude::*;

use crate::crypto_traits::backend::Backend;
use crate::crypto_traits::digest::Digest;
use crate::crypto_traits::error::ErrorType;
use crate::crypto_traits::Algorithm;

verus! {

/// HMAC with SHA-256.
pub struct HmacSha256;

/// HMAC with SHA-384.
pub struct HmacSha384;

/// HMAC with SHA-512.
pub struct HmacSha512;

impl<B: Backend + ?Sized> Algorithm<B> for HmacSha256 {

}

impl<B: Backend + ?Sized> Algorithm<B> for HmacSha384 {

}

impl<B: Backend + ?Sized> Algorithm<B> for HmacSha512 {

}

/// Starts an HMAC computation.
pub trait HmacInit<A: Algorithm<Self>>: ErrorType + Backend + Sized {
    type Key;
    type Context;

    fn hmac_init(&self, algo: &A, key: &Self::Key) -> Result<Self::Context, Self::Error>;
}

/// Adds data to an HMAC computation.
pub trait HmacUpdate<Context: ?Sized>: ErrorType {
    fn hmac_update(&self, context: &Context, data: &[u8]) -> Result<(), Self::Error>;
}

/// Ends an HMAC computation.
pub trait HmacFinal<Context>: ErrorType {
    type Tag: Digest;

    fn hmac_finalize(&self, context: Context) -> Result<Self::Tag, Self::Error>;
}

} // verus!
