use openprot::status::Error;
use openprot::tpm_drbg::{u64_to_le, FakeDrbg, Sha256Hasher};

/// A stand-in digest: byte `i` is the byte sum of the input plus `i`. It
/// fails the computation numbered `fail_at` (from 1; 0 never fails) and
/// keeps every input.
struct SumHasher {
    inputs: Vec<Vec<u8>>,
    fail_at: usize,
}

fn toy_digest(data: &[u8]) -> [u8; 32] {
    let sum = data.iter().fold(0u8, |a, b| a.wrapping_add(*b));
    let mut d = [0u8; 32];
    for (i, b) in d.iter_mut().enumerate() {
        *b = sum.wrapping_add(i as u8);
    }
    d
}

impl Sha256Hasher for SumHasher {
    fn sha256(&mut self, data: &[u8]) -> Result<[u8; 32], Error> {
        self.inputs.push(data.to_vec());
        if self.inputs.len() == self.fail_at {
            return Err(Error::Unavailable);
        }
        Ok(toy_digest(data))
    }
}

#[test]
fn le64_bytes() {
    assert_eq!(u64_to_le(0x0102_0304_0506_0708), vec![8, 7, 6, 5, 4, 3, 2, 1]);
}

#[test]
fn drbg_blocks_hash_counter_and_seed() {
    let mut h = SumHasher { inputs: Vec::new(), fail_at: 0 };
    let mut drbg = FakeDrbg::new();
    drbg.init(&mut h, &[1, 2], &[3], &[], &[4]).unwrap();
    assert_eq!(h.inputs, vec![vec![1, 2, 3, 4]]);
    assert_eq!(drbg.seed(), toy_digest(&[1, 2, 3, 4]));
    assert_eq!(drbg.counter(), 0);

    let mut out = [0u8; 40];
    drbg.fill_bytes(&mut h, &mut out).unwrap();
    assert_eq!(drbg.counter(), 2);
    let mut first = 1u64.to_le_bytes().to_vec();
    first.extend_from_slice(&drbg.seed());
    let mut second = 2u64.to_le_bytes().to_vec();
    second.extend_from_slice(&drbg.seed());
    assert_eq!(h.inputs[1], first);
    assert_eq!(h.inputs[2], second);
    assert_eq!(&out[..32], &toy_digest(&first));
    assert_eq!(&out[32..], &toy_digest(&second)[..8]);

    drbg.additional_data(&mut h, &[9]).unwrap();
    assert_eq!(drbg.seed(), toy_digest(&[9]));
    assert_eq!(drbg.counter(), 2);
    drbg.uninit();
    assert_eq!((drbg.counter(), drbg.seed()), (0, [0u8; 32]));
}

#[test]
fn drbg_stops_at_first_failed_block() {
    let mut h = SumHasher { inputs: Vec::new(), fail_at: 2 };
    let mut drbg = FakeDrbg::new();
    let mut out = [0xaau8; 70];
    assert_eq!(drbg.fill_bytes(&mut h, &mut out), Err(Error::Unavailable));
    assert_eq!(drbg.counter(), 2);
    let mut first = 1u64.to_le_bytes().to_vec();
    first.extend_from_slice(&[0u8; 32]);
    assert_eq!(&out[..32], &toy_digest(&first));
    assert!(out[32..].iter().all(|b| *b == 0xaa));
}

#[test]
fn drbg_failed_seed_keeps_state() {
    let mut h = SumHasher { inputs: Vec::new(), fail_at: 1 };
    let mut drbg = FakeDrbg::new();
    assert_eq!(drbg.init(&mut h, &[1], &[], &[], &[]), Err(Error::Unavailable));
    assert_eq!(drbg.seed(), [0u8; 32]);
}
