//! One-shot AES encryption, decryption and authenticated encryption.

use vstd::prelude::*;

use crate::crypto_traits::backend::Backend;
use crate::crypto_traits::error::ErrorType;
use crate::crypto_traits::Algorithm;

verus! {

/// AES key sizes.
#[derive(Clone, Copy, PartialEq, Eq, Structural, Debug)]
pub enum AesKeySize {
    Aes128,
    Aes192,
    Aes256,
}

impl AesKeySize {
    /// The key length in bytes: 16, 24 or 32.
    pub open spec fn spec_len(self) -> usize {
        match self {
            AesKeySize::Aes128 => 16,
            AesKeySize::Aes192 => 24,
            AesKeySize::Aes256 => 32,
        }
    }

    /// The key length in bytes.
    pub fn len(self) -> (r: usize)
        ensures
            r == self.spec_len(),
    {
        match self {
            AesKeySize::Aes128 => 16,
            AesKeySize::Aes192 => 24,
            AesKeySize::Aes256 => 32,
        }
    }
}

/// AES modes of operation.
#[derive(Clone, Copy, PartialEq, Eq, Structural, Debug)]
pub enum AesMode {
    Ecb,
    Cbc,
    Ctr,
    Gcm,
}

/// The AES algorithm, with a key size and a mode.
pub struct Aes {
    pub key_size: AesKeySize,
    pub mode: AesMode,
}

impl<B: Backend + ?Sized> Algorithm<B> for Aes {

}

/// One-shot AES operations of a backend.
pub trait AesCipher: ErrorType + Backend {
    type Key;
    type Iv;

    /// Encrypts `input` into `output`; returns the output length.
    fn encrypt(
        &self,
        algo: &Aes,
        key: &Self::Key,
        iv: Option<&Self::Iv>,
        input: &[u8],
        output: &mut [u8],
    ) -> Result<usize, Self::Error>;

    /// Decrypts `input` into `output`; returns the output length.
    fn decrypt(
        &self,
        algo: &Aes,
        key: &Self::Key,
        iv: Option<&Self::Iv>,
        input: &[u8],
        output: &mut [u8],
    ) -> Result<usize, Self::Error>;

    /// Authenticated encryption (GCM): encrypts `input` and writes the tag.
    fn seal(
        &self,
        algo: &Aes,
        key: &Self::Key,
        iv: &[u8],
        aad: &[u8],
        tag_len: usize,
        input: &[u8],
        output: &mut [u8],
        tag: &mut [u8],
    ) -> Result<(), Self::Error>;

    /// Authenticated decryption (GCM): returns whether the tag matched.
    fn open(
        &self,
        algo: &Aes,
        key: &Self::Key,
        iv: &[u8],
        aad: &[u8],
        tag: &[u8],
        input: &[u8],
        output: &mut [u8],
    ) -> Result<bool, Self::Error>;
}

} // verus!
