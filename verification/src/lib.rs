use vstd::prelude::*;

pub mod bytes;
pub mod cdc_acm;
pub mod crypto_client;
pub mod crypto_common;
pub mod crypto_server;
pub mod crypto_symmetric;
pub mod crypto_traits;
pub mod descriptor;
pub mod driver;
pub mod flash;
pub mod gpio_port;
pub mod hal_usb;
pub mod status;
pub mod tpm_crypto;
pub mod tpm_drbg;
pub mod tpm_platform;
pub mod usb_stack;
pub mod usbtpm;

verus! {
} // verus!
