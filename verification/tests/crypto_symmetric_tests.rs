use openprot::crypto_symmetric::{aes_encrypt_decrypt, AesEngine, AesMode, AesOperation};
use openprot::status::Error;

/// A toy cipher: each output byte is the input byte xor the first key byte
/// xor the first IV byte, and each call adds one to the first IV byte. A key
/// record is one byte: the length of the key material. It counts its AES
/// calls and fails the call numbered `fail_at` (from 1; 0 never fails).
struct XorEngine {
    calls: usize,
    fail_at: usize,
}

fn engine() -> XorEngine {
    XorEngine { calls: 0, fail_at: 0 }
}

impl AesEngine for XorEngine {
    fn key_record_size(&self) -> usize {
        1
    }
    fn key_material_len(&self, record: &[u8]) -> usize {
        record[0] as usize
    }
    fn aes(
        &mut self,
        _record: &[u8],
        material: &[u8],
        iv: &mut [u8],
        mode: AesMode,
        operation: AesOperation,
        input: &[u8],
        output: &mut [u8],
    ) -> Result<(), Error> {
        self.calls += 1;
        if self.calls == self.fail_at {
            return Err(Error::Unavailable);
        }
        assert_eq!(mode, AesMode::Ctr);
        assert_eq!(operation, AesOperation::Encrypt);
        assert_eq!(input.len() % 16, 0);
        for (o, i) in output.iter_mut().zip(input) {
            *o = i ^ material[0] ^ iv[0];
        }
        iv[0] += 1;
        Ok(())
    }
}

fn request(mode: &[u8; 4], input: &[u8]) -> Vec<u8> {
    let mut req = mode.to_vec();
    req.push(1);
    req.push(0x0f);
    req.extend_from_slice(&[0u8; 16]);
    req.extend_from_slice(input);
    req
}

#[test]
fn aes_whole_blocks_then_padded_rest() {
    let input: Vec<u8> = (0u8..20).collect();
    let req = request(b"CTR_", &input);
    let mut rsp = [0u8; 64];
    let out = aes_encrypt_decrypt(&mut engine(), AesOperation::Encrypt, &req, &mut rsp).unwrap();
    assert_eq!(out.len(), 36);
    let mut expected_iv = [0u8; 16];
    expected_iv[0] = 2;
    assert_eq!(&out[..16], &expected_iv);
    let expected: Vec<u8> = (0u8..20).map(|b| if b < 16 { b ^ 0x0f } else { b ^ 0x0f ^ 1 }).collect();
    assert_eq!(&out[16..], expected.as_slice());
}

#[test]
fn aes_short_input_only_padded_block() {
    let req = request(b"CTR_", &[0xf0, 0x0f]);
    let mut rsp = [0u8; 32];
    let out = aes_encrypt_decrypt(&mut engine(), AesOperation::Encrypt, &req, &mut rsp).unwrap();
    assert_eq!(out.len(), 18);
    assert_eq!(out[0], 1);
    assert_eq!(&out[16..], &[0xff, 0x00]);
}

#[test]
fn aes_refusals() {
    let mut rsp = [0u8; 32];
    assert_eq!(aes_encrypt_decrypt(&mut engine(), AesOperation::Encrypt, &[1, 2], &mut rsp).err(), Some(Error::Internal));
    let req = request(b"XYZ_", &[1]);
    assert_eq!(aes_encrypt_decrypt(&mut engine(), AesOperation::Encrypt, &req, &mut rsp).err(), Some(Error::Unknown));
    let short = b"ECB_\x01\x0f\x00\x00".to_vec();
    assert_eq!(aes_encrypt_decrypt(&mut engine(), AesOperation::Encrypt, &short, &mut rsp).err(), Some(Error::Internal));
}

#[test]
fn aes_empty_input_answers_the_iv_without_a_call() {
    let mut e = engine();
    let req = request(b"CTR_", &[]);
    let mut rsp = [9u8; 20];
    let out = aes_encrypt_decrypt(&mut e, AesOperation::Encrypt, &req, &mut rsp).unwrap();
    assert_eq!(out, &[0u8; 16]);
    assert_eq!(e.calls, 0);
}

#[test]
fn aes_engine_errors_leave_response_alone() {
    let input: Vec<u8> = (0u8..20).collect();
    let req = request(b"CTR_", &input);
    for fail_at in [1usize, 2] {
        let mut e = XorEngine { calls: 0, fail_at };
        let mut rsp = [7u8; 64];
        assert_eq!(aes_encrypt_decrypt(&mut e, AesOperation::Encrypt, &req, &mut rsp).err(), Some(Error::Unavailable));
        assert_eq!(e.calls, fail_at);
        assert_eq!(rsp, [7u8; 64]);
    }
    let mut e = engine();
    let mut rsp = [7u8; 64];
    let bad = request(b"XYZ_", &input);
    assert_eq!(aes_encrypt_decrypt(&mut e, AesOperation::Encrypt, &bad, &mut rsp).err(), Some(Error::Unknown));
    assert_eq!(e.calls, 0);
    assert_eq!(rsp, [7u8; 64]);
}
