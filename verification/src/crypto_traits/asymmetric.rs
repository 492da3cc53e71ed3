//! Asymmetric cryptography: key pairs, signatures and their verification.

use vstd::prelude::*;

use crate::crypto_traits::backend::Backend;
use crate::crypto_traits::digest::Digest;
use crate::crypto_traits::error::ErrorType;

verus! {

/// An algorithm that the backend can perform.
pub trait Algorithm<B: Backend + ?Sized> {

}

/// ECDSA on P-256.
#[derive(Clone, Copy)]
pub struct EcdsaP256;

/// ECDSA on P-384.
#[derive(Clone, Copy)]
pub struct EcdsaP384;

/// Ed25519.
#[derive(Clone, Copy)]
pub struct Ed25519;

/// RSA with 2048-bit keys.
#[derive(Clone, Copy)]
pub struct Rsa2048;

/// RSA with 3072-bit keys.
#[derive(Clone, Copy)]
pub struct Rsa3072;

/// RSA with 4096-bit keys.
#[derive(Clone, Copy)]
pub struct Rsa4096;

/// A configuration of an algorithm on a backend, with its key types.
pub trait AlgoParams<B: Backend + ?Sized, A: Algorithm<B>> {
    type PrivateKey;
    type PublicKey;
}

/// Keys held in software.
pub trait SoftwareKey<B: Backend + ?Sized, A: Algorithm<B>>: AlgoParams<B, A> + Sized {
    fn new() -> Self;
}

/// Keys derived in hardware from a salt.
pub trait HardwareKey<B: Backend + ?Sized, A: Algorithm<B>>: AlgoParams<B, A> + Sized {
    type Salt;

    fn new(salt: Self::Salt) -> Self;
}

/// Generates key pairs.
pub trait KeyPairGen<A: Algorithm<Self>, P: AlgoParams<Self, A>>: ErrorType + Backend + Sized {
    fn key_pair_gen(&self, algorithm: &A, params: &P) -> Result<(P::PrivateKey, P::PublicKey), Self::Error>;
}

/// Signs message digests with a key.
pub trait Sign<K: ?Sized>: ErrorType {
    type Message: Digest;
    type Signature;
    type Param;

    fn sign(&self, key: &K, message: &Self::Message, param: &Self::Param) -> Result<Self::Signature, Self::Error>;
}

/// Verifies signatures of message digests with a key.
pub trait Verify<K: ?Sized>: ErrorType {
    type Message: Digest;
    type Signature;
    type Param;

    fn verify(
        &self,
        key: &K,
        message: &Self::Message,
        param: &Self::Param,
        signature: &Self::Signature,
    ) -> Result<bool, Self::Error>;
}

} // verus!
