//! The crypto client: a backend that sends its operations over IPC to the
//! crypto server, and its key parameters.

use vstd::prelude::*;

use crate::crypto_traits::asymmetric::{Algorithm, EcdsaP256};
use crate::crypto_traits::backend::Backend;
use crate::crypto_traits::error::ErrorType;
use crate::status::Error;

verus! {

/// A crypto backend reached through an IPC channel.
pub struct CryptoClient {
    /// The handle of the IPC channel to the crypto server.
    pub ipc: u32,
}

impl ErrorType for CryptoClient {
    type Error = Error;
}

impl Backend for CryptoClient {

}

impl CryptoClient {
    /// A client on the IPC channel `ipc`.
    pub fn new(ipc: u32) -> (r: Self)
        ensures
            r.ipc == ipc,
    {
        CryptoClient { ipc }
    }
}

impl Algorithm<CryptoClient> for EcdsaP256 {

}

/// ECDSA P-256 keys generated and held in software.
#[derive(Clone, Copy)]
pub struct SoftwareKey;

/// ECDSA P-256 keys derived in hardware: a key manager version and salt.
#[derive(Clone, Copy)]
pub struct HardwareKey {
    pub version: u32,
    pub salt: [u32; 7],
}

} // verus!
