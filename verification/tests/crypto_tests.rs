use openprot::crypto_client::CryptoClient;
use openprot::crypto_common::{CipherMode, Opcode};
use openprot::crypto_traits::aes::AesKeySize;
use openprot::gpio_port::GpioErrorKind;
use openprot::tpm_crypto::{
    check_inputs, get_modes, hash_by_index, hash_def, plan_symmetric, symmetric_get_block_size,
    symmetric_key_validate, AesKeyMode, TpmAlgId, TpmRc,
};

#[test]
fn opcode_classes_and_operations() {
    let op = Opcode::ECDSA_P256_SIGN();
    assert_eq!(op.class(), u16::from_le_bytes(*b"P2"));
    assert_eq!(op.op(), u16::from_le_bytes(*b"SI"));
    assert_eq!(Opcode::SHA2_512_FINAL().class(), Opcode::CLASS_SHA2_512);
    assert_eq!(Opcode::SHA2_512_FINAL().op(), u16::from_le_bytes(*b"FI"));
    let ping = Opcode::PING();
    assert_eq!(ping.class(), u16::from_le_bytes(*b"PI"));
    assert_eq!(ping.op(), u16::from_le_bytes(*b"NG"));
    assert_ne!(Opcode::RSA2048_SIGN(), Opcode::RSA3072_SIGN());
    assert_eq!(Opcode::CLASS_ED25519, u16::from_le_bytes(*b"Ed"));
}

#[test]
fn cipher_modes() {
    assert_eq!(CipherMode::ECB().0, u32::from_le_bytes(*b"ECB_"));
    assert_eq!(CipherMode::CBC().0, u32::from_le_bytes(*b"CBC_"));
    assert_eq!(CipherMode::CFB().0, u32::from_le_bytes(*b"CFB_"));
    assert_eq!(CipherMode::CTR().0, u32::from_le_bytes(*b"CTR_"));
    assert_eq!(CipherMode::OFB().0, u32::from_le_bytes(*b"OFB_"));
}

#[test]
fn client_and_key_sizes() {
    assert_eq!(CryptoClient::new(7).ipc, 7);
    assert_eq!(AesKeySize::Aes128.len(), 16);
    assert_eq!(AesKeySize::Aes192.len(), 24);
    assert_eq!(AesKeySize::Aes256.len(), 32);
}

#[test]
fn gpio_error_codes() {
    assert_eq!(GpioErrorKind::from(0), GpioErrorKind::Unknown);
    assert_eq!(GpioErrorKind::from(5), GpioErrorKind::PinInUse);
    assert_eq!(GpioErrorKind::from(10), GpioErrorKind::InvalidMode);
    assert_eq!(GpioErrorKind::from(11), GpioErrorKind::Unknown);
    assert_eq!(GpioErrorKind::Timeout.code(), 9);
    for v in 0..=10u32 {
        assert_eq!(GpioErrorKind::from(v).code(), v);
    }
}

const AES: TpmAlgId = TpmAlgId(TpmAlgId::AES);

#[test]
fn symmetric_input_checks() {
    let ecb = TpmAlgId(TpmAlgId::ECB);
    let ctr = TpmAlgId(TpmAlgId::CTR);
    assert_eq!(check_inputs(AES, ecb, 16, 0).err(), Some(TpmRc(TpmRc::SUCCESS)));
    assert_eq!(check_inputs(AES, ecb, 0, 16).err(), Some(TpmRc(TpmRc::FAILURE)));
    assert_eq!(check_inputs(TpmAlgId(0x25), ecb, 16, 16).err(), Some(TpmRc(TpmRc::FAILURE)));
    assert_eq!(check_inputs(AES, ecb, 16, 17).err(), Some(TpmRc(TpmRc::SIZE)));
    assert_eq!(check_inputs(AES, TpmAlgId(TpmAlgId::CBC), 16, 31).err(), Some(TpmRc(TpmRc::SIZE)));
    assert!(check_inputs(AES, ctr, 16, 17).is_ok());
    assert!(check_inputs(AES, ecb, 16, 32).is_ok());
    assert_eq!(check_inputs(AES, TpmAlgId(TpmAlgId::OFB), 16, 16).err(), Some(TpmRc(TpmRc::FAILURE)));
}

#[test]
fn symmetric_modes_and_plans() {
    let (km, cm) = get_modes(TpmAlgId(TpmAlgId::CBC)).unwrap();
    assert_eq!(km, AesKeyMode::AesCbc);
    assert_eq!(cm, CipherMode::CBC());
    assert!(get_modes(TpmAlgId(TpmAlgId::OFB)).is_err());

    let plan = plan_symmetric(AES, 256, 32, TpmAlgId(TpmAlgId::CTR), 10, true).unwrap();
    assert_eq!(plan.key_bits, 256);
    assert!(plan.use_caller_iv);
    assert_eq!(plan.key_mode, AesKeyMode::AesCtr);
    let plan = plan_symmetric(AES, 128, 16, TpmAlgId(TpmAlgId::ECB), 16, true).unwrap();
    assert!(!plan.use_caller_iv);
    assert_eq!(plan_symmetric(AES, 100, 16, TpmAlgId(TpmAlgId::ECB), 16, true).err(), Some(TpmRc(TpmRc::FAILURE)));

    assert_eq!(symmetric_get_block_size(AES, 192), 16);
    assert_eq!(symmetric_get_block_size(AES, 64), 0);
    assert_eq!(symmetric_key_validate(128, &[0u8; 16]), TpmRc(TpmRc::SUCCESS));
    assert_eq!(symmetric_key_validate(129, &[0u8; 16]), TpmRc(TpmRc::KEY_SIZE));
}

#[test]
fn hash_table() {
    assert_eq!(hash_by_index(1), TpmAlgId(TpmAlgId::SHA2_384));
    assert_eq!(hash_by_index(3), TpmAlgId(TpmAlgId::NULL));
    let d = hash_def(TpmAlgId(TpmAlgId::SHA2_512));
    assert_eq!((d.block_size, d.digest_size), (128, 64));
    assert_eq!(hash_def(TpmAlgId(0x99)).digest_size, 0);
}
