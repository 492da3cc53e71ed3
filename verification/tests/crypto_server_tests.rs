use openprot::crypto_common::Opcode;
use openprot::crypto_server::{
    final_digest_words, init_hash_mode, keysize, request_index, route, tag_words, ContextTable, HashMode, HmacContexts,
    HmacEngine, HmacMode, Route, Sha2Contexts, Sha2Engine, AsymmetricEngine, Server,
};
use openprot::status::Error;

/// A digest engine that sums the bytes it is given; it refuses data
/// starting with 0xee.
struct SumEngine {
    calls: usize,
}

impl Sha2Engine for SumEngine {
    type Context = (HashMode, u32);

    fn sha2_init(&mut self, mode: HashMode) -> Result<(HashMode, u32), Error> {
        self.calls += 1;
        Ok((mode, 0))
    }
    fn sha2_update(&mut self, context: &mut (HashMode, u32), data: &[u8]) -> Result<(), Error> {
        self.calls += 1;
        if data.first() == Some(&0xee) {
            return Err(Error::DataLoss);
        }
        context.1 += data.iter().map(|b| *b as u32).sum::<u32>();
        Ok(())
    }
    fn sha2_final(&mut self, context: &mut (HashMode, u32), digest: &mut [u8]) -> Result<(), Error> {
        self.calls += 1;
        for (i, d) in digest.iter_mut().enumerate() {
            *d = (context.1 as u8).wrapping_add(i as u8);
        }
        Ok(())
    }
}

fn index_req(index: u32, data: &[u8]) -> Vec<u8> {
    let mut v = index.to_le_bytes().to_vec();
    v.extend_from_slice(data);
    v
}

#[test]
fn routes_and_sizes() {
    assert_eq!(route(Opcode::ECDSA_P256_SIGN()), Route::Sign);
    assert_eq!(route(Opcode::DICE_P256_KEYGEN()), Route::KeyPairGen);
    assert_eq!(route(Opcode::SHA2_512_UPDATE()), Route::DigestUpdate);
    assert_eq!(route(Opcode::SHA2_384_INIT()), Route::Unknown);
    assert_eq!(route(Opcode::RSA2048_SIGN()), Route::Unknown);
    assert_eq!(route(Opcode::PING()), Route::Unknown);
    assert_eq!(keysize(Opcode::ECDSA_P256_SIGN()), (64, 32, 80));
    assert_eq!(keysize(Opcode::DICE_P256_KEYGEN()), (64, 32, 100));
    assert_eq!(keysize(Opcode::RSA4096_VERIFY()), (512, 512, 1536));
    assert_eq!(init_hash_mode(Opcode::SHA2_384_INIT()), Ok(HashMode::Sha384));
    assert_eq!(init_hash_mode(Opcode::SHA2_384_FINAL()), Err(Error::InvalidArgument));
    assert_eq!(final_digest_words(Opcode::SHA2_512_FINAL()), Ok(16));
    assert_eq!(final_digest_words(Opcode::ED25519_SIGN()), Err(Error::InvalidArgument));
}

#[test]
fn request_index_words() {
    let (i, rest) = request_index(&[2, 1, 0, 0, 9]).unwrap();
    assert_eq!(i, 0x102);
    assert_eq!(rest, &[9]);
    assert_eq!(request_index(&[1, 2, 3]).err(), Some(Error::Internal));
}

#[test]
fn context_table_slots() {
    let mut t = ContextTable::<u8, 2>::new();
    assert_eq!(t.allocate(10), Ok(0));
    assert_eq!(t.allocate(11), Ok(1));
    assert_eq!(t.allocate(12), Err(Error::ResourceExhausted));
    assert_eq!(t.take(0), Ok(10));
    assert!(!t.is_open(0));
    assert_eq!(t.take(0), Err(Error::InvalidArgument));
    assert_eq!(t.take(2), Err(Error::OutOfRange));
    assert_eq!(t.allocate(13), Ok(0));
    t.put(1, 14);
    assert_eq!(t.take(1), Ok(14));
}

#[test]
fn digest_lifecycle() {
    let mut engine = SumEngine { calls: 0 };
    let mut ctxs = Sha2Contexts::<(HashMode, u32), 2>::new();
    let mut rsp = [0u8; 64];
    assert_eq!(ctxs.init(&mut engine, Opcode::SHA2_256_INIT(), &mut rsp).unwrap(), &[0, 0, 0, 0]);
    assert_eq!(ctxs.init(&mut engine, Opcode::SHA2_512_INIT(), &mut rsp).unwrap(), &[1, 0, 0, 0]);
    assert_eq!(ctxs.init(&mut engine, Opcode::SHA2_256_INIT(), &mut rsp).err(), Some(Error::ResourceExhausted));
    assert_eq!(ctxs.init(&mut engine, Opcode::SHA2_256_UPDATE(), &mut rsp).err(), Some(Error::InvalidArgument));

    assert_eq!(ctxs.update(&mut engine, &index_req(0, &[1, 2, 3]), &mut rsp).unwrap().len(), 0);
    assert_eq!(ctxs.update(&mut engine, &index_req(0, &[0xee]), &mut rsp).err(), Some(Error::DataLoss));
    assert_eq!(ctxs.update(&mut engine, &index_req(5, &[1]), &mut rsp).err(), Some(Error::OutOfRange));
    assert_eq!(ctxs.update(&mut engine, &[0, 0], &mut rsp).err(), Some(Error::Internal));

    let digest = ctxs.finalize(&mut engine, Opcode::SHA2_256_FINAL(), &index_req(0, &[]), &mut rsp).unwrap();
    assert_eq!(digest.len(), 32);
    assert_eq!(&digest[..3], &[6, 7, 8]);
    // the slot is free again
    assert_eq!(
        ctxs.finalize(&mut engine, Opcode::SHA2_256_FINAL(), &index_req(0, &[]), &mut rsp).err(),
        Some(Error::InvalidArgument)
    );
    let mut short = [0u8; 40];
    assert_eq!(
        ctxs.finalize(&mut engine, Opcode::SHA2_512_FINAL(), &index_req(1, &[]), &mut short).err(),
        Some(Error::Internal)
    );
    assert_eq!(ctxs.finalize(&mut engine, Opcode::SHA2_512_FINAL(), &index_req(1, &[]), &mut rsp).unwrap().len(), 64);
    assert_eq!(ctxs.init(&mut engine, Opcode::SHA2_384_INIT(), &mut [0u8; 3]).err(), Some(Error::Internal));
    // refusals before the engine are not calls: 3 inits, 2 updates, 2 finals
    assert_eq!(engine.calls, 7);
}

/// An HMAC engine whose key record is one byte; a tag byte is the key
/// record plus the sum of key material and data, plus its position. It
/// refuses a key record of 0xee.
struct SumMac;

impl HmacEngine for SumMac {
    type Context = u32;

    fn key_record_size(&self) -> usize {
        1
    }
    fn hmac_init(&mut self, record: &[u8], material: &[u8]) -> Result<u32, Error> {
        if record[0] == 0xee {
            return Err(Error::PermissionDenied);
        }
        Ok(record[0] as u32 + material.iter().map(|b| *b as u32).sum::<u32>())
    }
    fn hmac_update(&mut self, context: &mut u32, data: &[u8]) -> Result<(), Error> {
        *context += data.iter().map(|b| *b as u32).sum::<u32>();
        Ok(())
    }
    fn hmac_final(&mut self, context: &mut u32, tag: &mut [u8]) -> Result<(), Error> {
        for (i, t) in tag.iter_mut().enumerate() {
            *t = (*context as u8).wrapping_add(i as u8);
        }
        Ok(())
    }
}

#[test]
fn hmac_init_update_finalize() {
    let mut macs: HmacContexts<u32, 2> = HmacContexts::new();
    let mut rsp = [0u8; 64];
    assert_eq!(macs.init(&mut SumMac, &[], &mut rsp).err(), Some(Error::Internal));
    assert_eq!(macs.init(&mut SumMac, &[0xee, 1], &mut rsp).err(), Some(Error::PermissionDenied));
    assert_eq!(macs.init(&mut SumMac, &[1, 2], &mut [0u8; 3]).err(), Some(Error::Internal));
    assert_eq!(macs.init(&mut SumMac, &[1, 2], &mut rsp).unwrap(), &[0, 0, 0, 0]);
    assert_eq!(macs.update(&mut SumMac, &index_req(0, &[3, 4]), &mut rsp).unwrap().len(), 0);
    assert_eq!(macs.update(&mut SumMac, &index_req(1, &[3]), &mut rsp).err(), Some(Error::InvalidArgument));
    assert_eq!(macs.update(&mut SumMac, &index_req(2, &[3]), &mut rsp).err(), Some(Error::OutOfRange));
    let tag = macs.finalize(&mut SumMac, HmacMode::Sha256, &index_req(0, &[]), &mut rsp).unwrap();
    assert_eq!(tag.len(), 32);
    assert_eq!(tag[0], 10);
    assert_eq!(tag[31], 41);
    assert_eq!(tag_words(HmacMode::Sha384), 12);
    assert_eq!(
        macs.finalize(&mut SumMac, HmacMode::Sha512, &index_req(0, &[]), &mut rsp).err(),
        Some(Error::InvalidArgument)
    );
}

/// Asymmetric handlers that keep each request and answer with its length.
struct EchoKeys {
    seen: Vec<(&'static str, Vec<u8>)>,
}

impl EchoKeys {
    fn answer(&mut self, what: &'static str, req: &[u8], rsp: &mut [u8]) -> Result<usize, Error> {
        self.seen.push((what, req.to_vec()));
        rsp[0] = req.len() as u8;
        Ok(1)
    }
}

impl AsymmetricEngine for EchoKeys {
    fn key_pair_gen(&mut self, _op: Opcode, req: &[u8], rsp: &mut [u8]) -> Result<usize, Error> {
        self.answer("keygen", req, rsp)
    }
    fn sign(&mut self, _op: Opcode, req: &[u8], rsp: &mut [u8]) -> Result<usize, Error> {
        self.answer("sign", req, rsp)
    }
    fn verify(&mut self, _op: Opcode, req: &[u8], rsp: &mut [u8]) -> Result<usize, Error> {
        self.answer("verify", req, rsp)
    }
}

fn op_req(op: &[u8; 4], rest: &[u8]) -> Vec<u8> {
    let mut v = op.to_vec();
    v.extend_from_slice(rest);
    v
}

#[test]
fn server_dispatches_by_opcode() {
    let mut server: Server<(HashMode, u32), u32> = Server::default();
    let mut engine = SumEngine { calls: 0 };
    let mut keys = EchoKeys { seen: Vec::new() };
    let mut rsp = [0u8; 64];
    assert_eq!(server.exec(&mut engine, &mut keys, &[1, 2], &mut rsp).err(), Some(Error::Internal));
    assert_eq!(server.exec(&mut engine, &mut keys, b"PING", &mut rsp).err(), Some(Error::Unknown));
    assert_eq!(server.exec(&mut engine, &mut keys, b"S2IN", &mut rsp).unwrap(), &[0, 0, 0, 0]);
    assert_eq!(server.exec(&mut engine, &mut keys, &op_req(b"S2UP", &[0, 0, 0, 0, 5]), &mut rsp).unwrap().len(), 0);
    let digest = server.exec(&mut engine, &mut keys, &op_req(b"S2FI", &[0, 0, 0, 0]), &mut rsp).unwrap();
    assert_eq!(digest.len(), 32);
    assert_eq!(digest[0], 5);
    assert_eq!(server.exec(&mut engine, &mut keys, &op_req(b"P2SI", &[7, 8, 9]), &mut rsp).unwrap(), &[3]);
    assert_eq!(server.exec(&mut engine, &mut keys, &op_req(b"DIKG", &[1]), &mut rsp).unwrap(), &[1]);
    assert_eq!(server.exec(&mut engine, &mut keys, b"R2SI", &mut rsp).err(), Some(Error::Unknown));
    assert_eq!(keys.seen, vec![("sign", vec![7, 8, 9]), ("keygen", vec![1])]);
    assert_eq!(engine.calls, 3);
}
