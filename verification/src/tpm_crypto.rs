//! The decisions of the TPM crypto glue: which symmetric requests are
//! valid and how they map onto the crypto service, and the table of hash
//! algorithms.

use vstd::prelude::*;

use crate::crypto_common::CipherMode;

verus! {

/// A TPM algorithm identifier.
#[derive(Clone, Copy, PartialEq, Eq, Structural, Debug)]
pub struct TpmAlgId(pub u16);

impl TpmAlgId {
    pub const ERROR: u16 = 0x0000;
    pub const AES: u16 = 0x0006;
    pub const SHA2_256: u16 = 0x000b;
    pub const SHA2_384: u16 = 0x000c;
    pub const SHA2_512: u16 = 0x000d;
    pub const NULL: u16 = 0x0010;
    pub const CTR: u16 = 0x0040;
    pub const OFB: u16 = 0x0041;
    pub const CBC: u16 = 0x0042;
    pub const CFB: u16 = 0x0043;
    pub const ECB: u16 = 0x0044;
}

/// A TPM response code.
#[derive(Clone, Copy, PartialEq, Eq, Structural, Debug)]
pub struct TpmRc(pub u32);

impl TpmRc {
    pub const SUCCESS: u32 = 0x000;
    pub const FAILURE: u32 = 0x101;
    pub const VALUE: u32 = 0x084;
    pub const KEY_SIZE: u32 = 0x087;
    pub const SIZE: u32 = 0x095;
}

/// The AES block size in bytes.
pub const AES_BLOCK_SIZE: usize = 16;

/// Why a symmetric request is not performed: `TpmRc::SUCCESS` where there
/// is no data (nothing to do), `FAILURE` for an empty key, another
/// algorithm than AES or an unsupported mode, `SIZE` for ECB or CBC data
/// that is not a whole number of blocks.
pub open spec fn spec_check_inputs(algorithm: u16, mode: u16, key_size: usize, data_size: usize) -> Result<(), u32> {
    if data_size == 0 {
        Err(TpmRc::SUCCESS)
    } else if key_size == 0 || algorithm != TpmAlgId::AES {
        Err(TpmRc::FAILURE)
    } else if mode == TpmAlgId::ECB || mode == TpmAlgId::CBC {
        if data_size % 16 != 0 {
            Err(TpmRc::SIZE)
        } else {
            Ok(())
        }
    } else if mode == TpmAlgId::CTR || mode == TpmAlgId::CFB {
        Ok(())
    } else {
        Err(TpmRc::FAILURE)
    }
}

/// Checks a symmetric request; see `spec_check_inputs`.
pub fn check_inputs(algorithm: TpmAlgId, mode: TpmAlgId, key_size: usize, data_size: usize) -> (r: Result<(), TpmRc>)
    ensures
        match spec_check_inputs(algorithm.0, mode.0, key_size, data_size) {
            Ok(()) => r is Ok,
            Err(e) => r == Err::<(), TpmRc>(TpmRc(e)),
        },
{
    if data_size == 0 {
        return Err(TpmRc(TpmRc::SUCCESS));
    }
    if key_size == 0 || algorithm.0 != TpmAlgId::AES {
        return Err(TpmRc(TpmRc::FAILURE));
    }
    if mode.0 == TpmAlgId::ECB || mode.0 == TpmAlgId::CBC {
        if data_size % AES_BLOCK_SIZE != 0 {
            return Err(TpmRc(TpmRc::SIZE));
        }
    } else if mode.0 == TpmAlgId::CTR || mode.0 == TpmAlgId::CFB {
    } else {
        return Err(TpmRc(TpmRc::FAILURE));
    }
    Ok(())
}

/// The mode of an AES key held by the crypto service.
#[derive(Clone, Copy, PartialEq, Eq, Structural, Debug)]
pub enum AesKeyMode {
    AesEcb,
    AesCfb,
    AesCbc,
    AesCtr,
}

/// The key mode and cipher mode for a TPM mode: ECB, CFB, CBC and CTR are
/// supported.
pub fn get_modes(mode: TpmAlgId) -> (r: Result<(AesKeyMode, CipherMode), ()>)
    ensures
        r is Ok <==> (mode.0 == TpmAlgId::ECB || mode.0 == TpmAlgId::CFB || mode.0 == TpmAlgId::CBC || mode.0
            == TpmAlgId::CTR),
        mode.0 == TpmAlgId::ECB ==> r == Ok::<(AesKeyMode, CipherMode), ()>((AesKeyMode::AesEcb, CipherMode(0x5f42_4345))),
        mode.0 == TpmAlgId::CFB ==> r == Ok::<(AesKeyMode, CipherMode), ()>((AesKeyMode::AesCfb, CipherMode(0x5f42_4643))),
        mode.0 == TpmAlgId::CBC ==> r == Ok::<(AesKeyMode, CipherMode), ()>((AesKeyMode::AesCbc, CipherMode(0x5f43_4243))),
        mode.0 == TpmAlgId::CTR ==> r == Ok::<(AesKeyMode, CipherMode), ()>((AesKeyMode::AesCtr, CipherMode(0x5f52_5443))),
{
    if mode.0 == TpmAlgId::ECB {
        Ok((AesKeyMode::AesEcb, CipherMode::ECB()))
    } else if mode.0 == TpmAlgId::CFB {
        Ok((AesKeyMode::AesCfb, CipherMode::CFB()))
    } else if mode.0 == TpmAlgId::CBC {
        Ok((AesKeyMode::AesCbc, CipherMode::CBC()))
    } else if mode.0 == TpmAlgId::CTR {
        Ok((AesKeyMode::AesCtr, CipherMode::CTR()))
    } else {
        Err(())
    }
}

/// The block size of a symmetric algorithm: 16 for AES with 128, 192 or
/// 256-bit keys, 0 otherwise.
pub fn symmetric_get_block_size(alg: TpmAlgId, key_size_in_bits: u16) -> (r: usize)
    ensures
        r == (if alg.0 == TpmAlgId::AES && (key_size_in_bits == 128 || key_size_in_bits == 192 || key_size_in_bits
            == 256) {
            16usize
        } else {
            0usize
        }),
{
    if alg.0 == TpmAlgId::AES && (key_size_in_bits == 128 || key_size_in_bits == 192 || key_size_in_bits == 256) {
        AES_BLOCK_SIZE
    } else {
        0
    }
}

/// A key is valid when it has as many bytes as `key_bits` needs.
pub fn symmetric_key_validate(key_bits: u16, key: &[u8]) -> (r: TpmRc)
    ensures
        r == (if key@.len() == (key_bits as int + 7) / 8 {
            TpmRc(TpmRc::SUCCESS)
        } else {
            TpmRc(TpmRc::KEY_SIZE)
        }),
{
    if key.len() == (key_bits as usize + 7) / 8 {
        TpmRc(TpmRc::SUCCESS)
    } else {
        TpmRc(TpmRc::KEY_SIZE)
    }
}

/// How a valid symmetric request is performed by the crypto service.
#[derive(Clone, Copy, PartialEq, Eq, Structural, Debug)]
pub struct SymmetricPlan {
    pub key_mode: AesKeyMode,
    pub cipher_mode: CipherMode,
    /// The key size: 128, 192 or 256 bits.
    pub key_bits: u16,
    /// The caller's IV is used (set to one block); otherwise a zero IV.
    pub use_caller_iv: bool,
}

/// Decides how to perform a symmetric encryption or decryption of
/// `data_size` bytes, or the response code that ends it: the inputs are
/// checked, the mode must be supported and the key 128, 192 or 256 bits.
/// A caller's IV is used except in ECB mode.
pub fn plan_symmetric(
    algorithm: TpmAlgId,
    key_size_in_bits: u16,
    key_len: usize,
    mode: TpmAlgId,
    data_size: usize,
    has_iv: bool,
) -> (r: Result<SymmetricPlan, TpmRc>)
    ensures
        match spec_check_inputs(algorithm.0, mode.0, key_len, data_size) {
            Err(e) => r == Err::<SymmetricPlan, TpmRc>(TpmRc(e)),
            Ok(()) => if key_size_in_bits == 128 || key_size_in_bits == 192 || key_size_in_bits == 256 {
                r matches Ok(p) && p.key_bits == key_size_in_bits && p.use_caller_iv == (has_iv && mode.0
                    != TpmAlgId::ECB)
            } else {
                r == Err::<SymmetricPlan, TpmRc>(TpmRc(TpmRc::FAILURE))
            },
        },
        r matches Ok(p) ==> get_modes_spec(mode.0) == Some((p.key_mode, p.cipher_mode)),
{
    if let Err(e) = check_inputs(algorithm, mode, key_len, data_size) {
        return Err(e);
    }
    let (key_mode, cipher_mode) = match get_modes(mode) {
        Ok(m) => m,
        Err(_) => return Err(TpmRc(TpmRc::FAILURE)),
    };
    let use_caller_iv = has_iv && mode.0 != TpmAlgId::ECB;
    if key_size_in_bits == 128 || key_size_in_bits == 192 || key_size_in_bits == 256 {
        Ok(SymmetricPlan { key_mode, cipher_mode, key_bits: key_size_in_bits, use_caller_iv })
    } else {
        Err(TpmRc(TpmRc::FAILURE))
    }
}

/// The key mode and cipher mode of a supported TPM mode.
pub open spec fn get_modes_spec(mode: u16) -> Option<(AesKeyMode, CipherMode)> {
    if mode == TpmAlgId::ECB {
        Some((AesKeyMode::AesEcb, CipherMode(0x5f42_4345)))
    } else if mode == TpmAlgId::CFB {
        Some((AesKeyMode::AesCfb, CipherMode(0x5f42_4643)))
    } else if mode == TpmAlgId::CBC {
        Some((AesKeyMode::AesCbc, CipherMode(0x5f43_4243)))
    } else if mode == TpmAlgId::CTR {
        Some((AesKeyMode::AesCtr, CipherMode(0x5f52_5443)))
    } else {
        None
    }
}

/// Every request that passes the input checks has a supported mode.
pub proof fn lemma_checked_mode_supported(algorithm: u16, mode: u16, key_size: usize, data_size: usize)
    requires
        spec_check_inputs(algorithm, mode, key_size, data_size) is Ok,
    ensures
        get_modes_spec(mode) is Some,
        algorithm == TpmAlgId::AES,
        key_size > 0 && data_size > 0,
        (mode == TpmAlgId::ECB || mode == TpmAlgId::CBC) ==> data_size % 16 == 0,
{
}

/// The number of hash algorithms of the table.
pub const HASH_ALGS: usize = 3;

/// Block size, digest size and algorithm of a hash.
#[derive(Clone, Copy, PartialEq, Eq, Structural, Debug)]
pub struct HashDef {
    pub block_size: u16,
    pub digest_size: u16,
    pub hash_alg: TpmAlgId,
}

/// The table entry of an algorithm: SHA2-256, SHA2-384, SHA2-512, or the
/// empty entry of the error algorithm.
pub open spec fn spec_hash_def(alg: u16) -> HashDef {
    if alg == TpmAlgId::SHA2_256 {
        HashDef { block_size: 64, digest_size: 32, hash_alg: TpmAlgId(TpmAlgId::SHA2_256) }
    } else if alg == TpmAlgId::SHA2_384 {
        HashDef { block_size: 128, digest_size: 48, hash_alg: TpmAlgId(TpmAlgId::SHA2_384) }
    } else if alg == TpmAlgId::SHA2_512 {
        HashDef { block_size: 128, digest_size: 64, hash_alg: TpmAlgId(TpmAlgId::SHA2_512) }
    } else {
        HashDef { block_size: 0, digest_size: 0, hash_alg: TpmAlgId(TpmAlgId::ERROR) }
    }
}

/// The table entry of a hash algorithm.
pub fn hash_def(alg: TpmAlgId) -> (r: HashDef)
    ensures
        r == spec_hash_def(alg.0),
{
    if alg.0 == TpmAlgId::SHA2_256 {
        HashDef { block_size: 64, digest_size: 32, hash_alg: TpmAlgId(TpmAlgId::SHA2_256) }
    } else if alg.0 == TpmAlgId::SHA2_384 {
        HashDef { block_size: 128, digest_size: 48, hash_alg: TpmAlgId(TpmAlgId::SHA2_384) }
    } else if alg.0 == TpmAlgId::SHA2_512 {
        HashDef { block_size: 128, digest_size: 64, hash_alg: TpmAlgId(TpmAlgId::SHA2_512) }
    } else {
        HashDef { block_size: 0, digest_size: 0, hash_alg: TpmAlgId(TpmAlgId::ERROR) }
    }
}

/// The algorithm at a position of the table, or NULL past its end.
pub fn hash_by_index(index: usize) -> (r: TpmAlgId)
    ensures
        r.0 == (if index == 0 {
            TpmAlgId::SHA2_256
        } else if index == 1 {
            TpmAlgId::SHA2_384
        } else if index == 2 {
            TpmAlgId::SHA2_512
        } else {
            TpmAlgId::NULL
        }),
{
    if index == 0 {
        TpmAlgId(TpmAlgId::SHA2_256)
    } else if index == 1 {
        TpmAlgId(TpmAlgId::SHA2_384)
    } else if index == 2 {
        TpmAlgId(TpmAlgId::SHA2_512)
    } else {
        TpmAlgId(TpmAlgId::NULL)
    }
}

/// The algorithms of the table list their own entries: the entry of the
/// algorithm at each position names that algorithm.
pub proof fn lemma_hash_table_consistent(index: usize)
    requires
        index < HASH_ALGS,
    ensures
        ({
            let alg: u16 = if index == 0 {
                TpmAlgId::SHA2_256
            } else if index == 1 {
                TpmAlgId::SHA2_384
            } else {
                TpmAlgId::SHA2_512
            };
            spec_hash_def(alg).hash_alg.0 == alg && spec_hash_def(alg).digest_size > 0
        }),
{
}

} // verus!
