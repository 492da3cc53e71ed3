//! Symmetric block ciphers.

use vstd::prelude::*;

use crate::crypto_traits::backend::Backend;
use crate::crypto_traits::error::ErrorType;
use crate::crypto_traits::Algorithm;

verus! {

/// AES with 128-bit keys.
#[derive(Clone, Copy)]
pub struct Aes128;

/// AES with 192-bit keys.
#[derive(Clone, Copy)]
pub struct Aes192;

/// AES with 256-bit keys.
#[derive(Clone, Copy)]
pub struct Aes256;

/// A configuration of an algorithm on a backend, with its key type.
pub trait AlgoParams<B: Backend + ?Sized, A: Algorithm<B>> {
    type Key;
}

/// Keys held in software.
pub trait SoftwareKey<B: Backend + ?Sized, A: Algorithm<B>>: AlgoParams<B, A> + Sized {
    fn new() -> Self;
}

/// Keys derived in hardware from a salt.
pub trait HardwareKey<B: Backend + ?Sized, A: Algorithm<B>>: AlgoParams<B, A> + Sized {
    type Salt;

    fn new(salt: Self::Salt) -> Self;
}

/// Encryption and decryption with a key and an in/out IV.
pub trait SymmetricOp<K: ?Sized, A: Algorithm<Self>, P: AlgoParams<Self, A, Key = K>>: ErrorType + Backend + Sized {
    fn encrypt(
        &self,
        mode: &P,
        key: &K,
        iv: &mut [u8],
        plaintext: &[u8],
        ciphertext: &mut [u8],
    ) -> Result<(), Self::Error>;

    fn decrypt(
        &self,
        mode: &P,
        key: &K,
        iv: &mut [u8],
        ciphertext: &[u8],
        plaintext: &mut [u8],
    ) -> Result<(), Self::Error>;
}

} // verus!
