//! AES requests of the crypto server: the request layout, its checks, and
//! the split of the input into whole blocks and a zero-padded last block.

use vstd::prelude::*;

use crate::bytes::{from_le32, le32, lemma_le32_roundtrip, u32_from_le, write_bytes};
use crate::crypto_common::CipherMode;
use crate::status::Error;

verus! {

/// Encryption or decryption.
#[derive(Clone, Copy, PartialEq, Eq, Structural, Debug)]
pub enum AesOperation {
    Encrypt,
    Decrypt,
}

/// A block cipher mode.
#[derive(Clone, Copy, PartialEq, Eq, Structural, Debug)]
pub enum AesMode {
    Ecb,
    Cbc,
    Cfb,
    Ctr,
    Ofb,
}

/// The mode that a `CipherMode` word names: "ECB_", "CBC_", "CFB_", "CTR_"
/// or "OFB_", read little-endian.
pub open spec fn spec_aes_mode(code: u32) -> Option<AesMode> {
    if code == 0x5f42_4345 {
        Some(AesMode::Ecb)
    } else if code == 0x5f43_4243 {
        Some(AesMode::Cbc)
    } else if code == 0x5f42_4643 {
        Some(AesMode::Cfb)
    } else if code == 0x5f52_5443 {
        Some(AesMode::Ctr)
    } else if code == 0x5f42_464f {
        Some(AesMode::Ofb)
    } else {
        None
    }
}

impl AesMode {
    /// The four ASCII characters that name the mode in a request: "ECB_",
    /// "CBC_", "CFB_", "CTR_" or "OFB_".
    pub open spec fn spec_name(self) -> Seq<u8> {
        match self {
            AesMode::Ecb => seq![0x45u8, 0x43u8, 0x42u8, 0x5fu8],
            AesMode::Cbc => seq![0x43u8, 0x42u8, 0x43u8, 0x5fu8],
            AesMode::Cfb => seq![0x43u8, 0x46u8, 0x42u8, 0x5fu8],
            AesMode::Ctr => seq![0x43u8, 0x54u8, 0x52u8, 0x5fu8],
            AesMode::Ofb => seq![0x4fu8, 0x46u8, 0x42u8, 0x5fu8],
        }
    }
}

/// A mode word names the AES mode whose four characters it holds (read
/// little-endian), and no other: each of the five modes has exactly one
/// word, and every other word names none.
pub proof fn lemma_aes_mode_names(code: u32, m: AesMode)
    ensures
        (spec_aes_mode(code) == Some(m)) <==> (le32(code) == m.spec_name()),
        spec_aes_mode(code) is None <==> forall|k: AesMode| le32(code) != #[trigger] k.spec_name(),
{
    lemma_le32_roundtrip(code);
    assert(le32(0x5f42_4345) =~= AesMode::Ecb.spec_name());
    assert(le32(0x5f43_4243) =~= AesMode::Cbc.spec_name());
    assert(le32(0x5f42_4643) =~= AesMode::Cfb.spec_name());
    assert(le32(0x5f52_5443) =~= AesMode::Ctr.spec_name());
    assert(le32(0x5f42_464f) =~= AesMode::Ofb.spec_name());
    lemma_le32_roundtrip(0x5f42_4345);
    lemma_le32_roundtrip(0x5f43_4243);
    lemma_le32_roundtrip(0x5f42_4643);
    lemma_le32_roundtrip(0x5f52_5443);
    lemma_le32_roundtrip(0x5f42_464f);
    if spec_aes_mode(code) is None {
        assert forall|k: AesMode| le32(code) != #[trigger] k.spec_name() by {
            if le32(code) == k.spec_name() {
                match k {
                    AesMode::Ecb => assert(code == from_le32(le32(0x5f42_4345))),
                    AesMode::Cbc => assert(code == from_le32(le32(0x5f43_4243))),
                    AesMode::Cfb => assert(code == from_le32(le32(0x5f42_4643))),
                    AesMode::Ctr => assert(code == from_le32(le32(0x5f52_5443))),
                    AesMode::Ofb => assert(code == from_le32(le32(0x5f42_464f))),
                }
            }
        }
    }
    if le32(code) == m.spec_name() {
        match m {
            AesMode::Ecb => assert(code == from_le32(le32(0x5f42_4345))),
            AesMode::Cbc => assert(code == from_le32(le32(0x5f43_4243))),
            AesMode::Cfb => assert(code == from_le32(le32(0x5f42_4643))),
            AesMode::Ctr => assert(code == from_le32(le32(0x5f52_5443))),
            AesMode::Ofb => assert(code == from_le32(le32(0x5f42_464f))),
        }
    }
}

/// The mode that `mode` names, if any.
pub fn aes_mode(mode: CipherMode) -> (r: Option<AesMode>)
    ensures
        r == spec_aes_mode(mode.0),
{
    if mode == CipherMode::ECB() {
        Some(AesMode::Ecb)
    } else if mode == CipherMode::CBC() {
        Some(AesMode::Cbc)
    } else if mode == CipherMode::CFB() {
        Some(AesMode::Cfb)
    } else if mode == CipherMode::CTR() {
        Some(AesMode::Ctr)
    } else if mode == CipherMode::OFB() {
        Some(AesMode::Ofb)
    } else {
        None
    }
}

/// One AES call made on an engine: the key (record and material), the IV,
/// the mode, the operation and the input it was given; the output and the IV
/// it left; and its answer.
pub struct AesCall {
    pub record: Seq<u8>,
    pub material: Seq<u8>,
    pub iv: Seq<u8>,
    pub mode: AesMode,
    pub operation: AesOperation,
    pub input: Seq<u8>,
    pub output: Seq<u8>,
    pub iv_after: Seq<u8>,
    pub result: Result<(), Error>,
}

/// The AES primitive of the crypto hardware, with the layout of its key
/// records.
pub trait AesEngine {
    /// The size of a key record, the part of a key that precedes its key
    /// material in a request.
    open spec fn spec_key_record_size(&self) -> nat {
        0
    }

    /// The length of the key material that a key record announces.
    open spec fn spec_key_material_len(&self, record: Seq<u8>) -> nat {
        0
    }

    /// The record of the AES calls made on the engine, oldest first.
    open spec fn calls(&self) -> Seq<AesCall> {
        Seq::empty()
    }

    /// The size of a key record.
    fn key_record_size(&self) -> (r: usize)
        ensures
            r == self.spec_key_record_size(),
    ;

    /// The length of the key material that `record` announces.
    fn key_material_len(&self, record: &[u8]) -> (r: usize)
        ensures
            r == self.spec_key_material_len(record@),
    ;

    /// Runs AES over `input` into `output` (of the same length), updating
    /// `iv`. The key layout stays as it was.
    fn aes(
        &mut self,
        record: &[u8],
        material: &[u8],
        iv: &mut [u8],
        mode: AesMode,
        operation: AesOperation,
        input: &[u8],
        output: &mut [u8],
    ) -> (r: Result<(), Error>)
        ensures
            final(output)@.len() == old(output)@.len(),
            final(iv)@.len() == old(iv)@.len(),
            final(self).spec_key_record_size() == old(self).spec_key_record_size(),
            final(self).calls() == old(self).calls().push(
                AesCall {
                    record: record@,
                    material: material@,
                    iv: old(iv)@,
                    mode,
                    operation,
                    input: input@,
                    output: final(output)@,
                    iv_after: final(iv)@,
                    result: r,
                },
            ),
    ;
}

/// The parts of an AES request.
pub struct AesRequest {
    pub mode: AesMode,
    pub record: Seq<u8>,
    pub material: Seq<u8>,
    pub iv: Seq<u8>,
    pub input: Seq<u8>,
}

/// What an AES request reads as.
pub enum AesParse {
    /// A request to run.
    Request(AesRequest),
    /// A request refused with an error.
    Refused(Error),
    /// A key record that announces more key material than the request holds.
    KeyTooLong,
}

/// How `req` reads: a cipher-mode word, a key record, the key material it
/// announces, a 16-byte IV, then the input. A request under four bytes, or
/// too short for the key record or the IV, is refused with `Internal`; an
/// unknown mode with `Unknown`.
pub open spec fn spec_parse_aes<E: AesEngine>(engine: &E, req: Seq<u8>) -> AesParse {
    if req.len() < 4 {
        AesParse::Refused(Error::Internal)
    } else {
        match spec_aes_mode(from_le32(req.subrange(0, 4))) {
            None => AesParse::Refused(Error::Unknown),
            Some(mode) => {
                let h = engine.spec_key_record_size();
                let rest = req.skip(4);
                if rest.len() < h {
                    AesParse::Refused(Error::Internal)
                } else {
                    let record = rest.take(h as int);
                    let k = engine.spec_key_material_len(record);
                    let after_record = rest.skip(h as int);
                    if after_record.len() < k {
                        AesParse::KeyTooLong
                    } else {
                        let after_key = after_record.skip(k as int);
                        if after_key.len() < 16 {
                            AesParse::Refused(Error::Internal)
                        } else {
                            AesParse::Request(
                                AesRequest {
                                    mode,
                                    record,
                                    material: after_record.take(k as int),
                                    iv: after_key.take(16),
                                    input: after_key.skip(16),
                                },
                            )
                        }
                    }
                }
            },
        }
    }
}

/// The whole 16-byte blocks of an input of `n` bytes, in bytes.
pub open spec fn whole_blocks(n: int) -> int {
    n / 16 * 16
}

/// `c` is the AES call that request `p` asks for under `operation`, with
/// IV `iv` and input `input`.
pub open spec fn is_aes_call(c: AesCall, p: AesRequest, operation: AesOperation, iv: Seq<u8>, input: Seq<u8>) -> bool {
    &&& c.record == p.record
    &&& c.material == p.material
    &&& c.iv == iv
    &&& c.mode == p.mode
    &&& c.operation == operation
    &&& c.input == input
}

/// The last step of an AES request, from record position `k`, after the
/// whole blocks gave `out1` and left IV `iv1`: the bytes left over (if any)
/// go to one more call, padded with zeros to a block, and as many bytes of
/// its output are kept. The response is the last IV, then the output; an
/// error of the engine is the outcome.
pub open spec fn spec_aes_last_step(
    operation: AesOperation,
    p: AesRequest,
    calls: Seq<AesCall>,
    k: int,
    out1: Seq<u8>,
    iv1: Seq<u8>,
    outcome: Result<Seq<u8>, Error>,
) -> bool {
    let n = p.input.len() as int;
    let full = whole_blocks(n);
    let rem = n - full;
    if rem > 0 {
        let c = calls[k];
        &&& calls.len() == k + 1
        &&& is_aes_call(c, p, operation, iv1, p.input.skip(full) + Seq::new((16 - rem) as nat, |i: int| 0u8))
        &&& match c.result {
            Err(e) => outcome == Err::<Seq<u8>, Error>(e),
            Ok(_) => outcome == Ok::<Seq<u8>, Error>(c.iv_after + out1 + c.output.take(rem)),
        }
    } else {
        calls.len() == k && outcome == Ok::<Seq<u8>, Error>(iv1 + out1)
    }
}

/// What request `p` does under `operation` to an engine whose record of
/// calls goes from `before` to `after`, and its outcome: the whole blocks
/// of the input go to one AES call with the request's IV; if that call
/// fails, its error is the outcome and nothing more is called; the rest
/// goes on as `spec_aes_last_step` says.
pub open spec fn spec_aes_run(
    operation: AesOperation,
    p: AesRequest,
    before: Seq<AesCall>,
    after: Seq<AesCall>,
    outcome: Result<Seq<u8>, Error>,
) -> bool {
    let k = before.len() as int;
    let full = whole_blocks(p.input.len() as int);
    &&& after.len() >= k
    &&& after.take(k) == before
    &&& if full > 0 {
        let c = after[k];
        &&& after.len() > k
        &&& is_aes_call(c, p, operation, p.iv, p.input.take(full))
        &&& match c.result {
            Err(e) => after.len() == k + 1 && outcome == Err::<Seq<u8>, Error>(e),
            Ok(_) => spec_aes_last_step(operation, p, after, k + 1, c.output, c.iv_after, outcome),
        }
    } else {
        spec_aes_last_step(operation, p, after, k, Seq::empty(), p.iv, outcome)
    }
}

/// A copy of `s`.
fn copy_of(s: &[u8]) -> (r: Vec<u8>)
    ensures
        r@ == s@,
{
    let mut r: Vec<u8> = Vec::new();
    let mut i: usize = 0;
    while i < s.len()
        invariant
            i <= s@.len(),
            r@ == s@.take(i as int),
        decreases s@.len() - i,
    {
        r.push(s[i]);
        assert(r@ =~= s@.take(i + 1));
        i += 1;
    }
    assert(s@.take(i as int) =~= s@);
    r
}

/// The outcome of a run as the library answers it.
pub open spec fn spec_answer(r: Result<&[u8], Error>) -> Result<Seq<u8>, Error> {
    match r {
        Ok(b) => Ok(b@),
        Err(e) => Err(e),
    }
}

/// Encrypts or decrypts the input of an AES request into `rsp`: the IV after
/// the operation, then as many output bytes as there are input bytes.
/// Returns the response, or the refusal of the request, or the engine's
/// error. A refused request makes no AES call; an error leaves `rsp` as it
/// was.
pub fn aes_encrypt_decrypt<'a, E: AesEngine>(
    engine: &mut E,
    operation: AesOperation,
    req: &[u8],
    rsp: &'a mut [u8],
) -> (r: Result<&'a [u8], Error>)
    requires
        !(spec_parse_aes(old(engine), req@) is KeyTooLong),
        spec_parse_aes(old(engine), req@) matches AesParse::Request(p) ==> 16 + p.input.len() <= old(rsp)@.len(),
    ensures
        r is Err ==> final(rsp)@ == old(rsp)@,
        match spec_parse_aes(old(engine), req@) {
            AesParse::Refused(e) => r == Err::<&[u8], Error>(e) && final(engine).calls() == old(engine).calls(),
            AesParse::Request(p) => spec_aes_run(operation, p, old(engine).calls(), final(engine).calls(), spec_answer(r)),
            AesParse::KeyTooLong => false,
        },
{
    if req.len() < 4 {
        return Err(Error::Internal);
    }
    let mode = match aes_mode(CipherMode(u32_from_le(req, 0))) {
        Some(m) => m,
        None => return Err(Error::Unknown),
    };
    let rest = vstd::slice::slice_subrange(req, 4, req.len());
    assert(rest@ =~= req@.skip(4));
    let h = engine.key_record_size();
    if rest.len() < h {
        return Err(Error::Internal);
    }
    let record = vstd::slice::slice_subrange(rest, 0, h);
    assert(record@ =~= rest@.take(h as int));
    let k = engine.key_material_len(record);
    let after_record = vstd::slice::slice_subrange(rest, h, rest.len());
    assert(after_record@ =~= rest@.skip(h as int));
    let material = vstd::slice::slice_subrange(after_record, 0, k);
    assert(material@ =~= after_record@.take(k as int));
    let after_key = vstd::slice::slice_subrange(after_record, k, after_record.len());
    assert(after_key@ =~= after_record@.skip(k as int));
    if after_key.len() < 16 {
        return Err(Error::Internal);
    }
    let mut iv = copy_of(vstd::slice::slice_subrange(after_key, 0, 16));
    assert(iv@ =~= after_key@.take(16));
    let input = vstd::slice::slice_subrange(after_key, 16, after_key.len());
    assert(input@ =~= after_key@.skip(16));
    let ghost p = AesRequest { mode, record: record@, material: material@, iv: iv@, input: input@ };
    assert(spec_parse_aes(old(engine), req@) == AesParse::Request(p));
    run_aes(engine, operation, record, material, mode, iv, input, rsp)
}

/// Runs a parsed AES request: the whole blocks of `input`, then the
/// zero-padded rest; the response (the last IV, then the output) is written
/// at the start of `rsp` only when every call succeeded.
fn run_aes<'a, E: AesEngine>(
    engine: &mut E,
    operation: AesOperation,
    record: &[u8],
    material: &[u8],
    mode: AesMode,
    iv: Vec<u8>,
    input: &[u8],
    rsp: &'a mut [u8],
) -> (r: Result<&'a [u8], Error>)
    requires
        iv@.len() == 16,
        16 + input@.len() <= old(rsp)@.len(),
    ensures
        r is Err ==> final(rsp)@ == old(rsp)@,
        spec_aes_run(
            operation,
            AesRequest { mode, record: record@, material: material@, iv: iv@, input: input@ },
            old(engine).calls(),
            final(engine).calls(),
            spec_answer(r),
        ),
{
    let mut iv = iv;
    let ghost before = engine.calls();
    let n = input.len();
    let full = n - n % 16;
    assert(full == whole_blocks(n as int));
    let mut first: Vec<u8> = Vec::new();
    if full > 0 {
        first = vec![0u8; full];
        let whole = vstd::slice::slice_subrange(input, 0, full);
        assert(whole@ =~= input@.take(full as int));
        let res = engine.aes(record, material, iv.as_mut_slice(), mode, operation, whole, first.as_mut_slice());
        assert(engine.calls().take(before.len() as int) =~= before);
        match res {
            Ok(()) => {},
            Err(e) => return Err(e),
        }
    } else {
        assert(first@ =~= Seq::<u8>::empty());
    }
    let ghost mid = engine.calls();
    let r = aes_rest(engine, operation, record, material, mode, iv, input, first, rsp);
    assert(engine.calls().take(before.len() as int) =~= before) by {
        assert(engine.calls().take(mid.len() as int) == mid);
        assert(mid.take(before.len() as int) == before);
    }
    r
}

/// The last step of `run_aes`: the bytes after the whole blocks (if any) go
/// to one AES call, zero-padded to a block, and the response is written.
fn aes_rest<'a, E: AesEngine>(
    engine: &mut E,
    operation: AesOperation,
    record: &[u8],
    material: &[u8],
    mode: AesMode,
    iv: Vec<u8>,
    input: &[u8],
    first: Vec<u8>,
    rsp: &'a mut [u8],
) -> (r: Result<&'a [u8], Error>)
    requires
        iv@.len() == 16,
        first@.len() == whole_blocks(input@.len() as int),
        16 + input@.len() <= old(rsp)@.len(),
    ensures
        r is Err ==> final(rsp)@ == old(rsp)@,
        final(engine).calls().len() >= old(engine).calls().len(),
        final(engine).calls().take(old(engine).calls().len() as int) == old(engine).calls(),
        spec_aes_last_step(
            operation,
            AesRequest { mode, record: record@, material: material@, iv: iv@, input: input@ },
            final(engine).calls(),
            old(engine).calls().len() as int,
            first@,
            iv@,
            spec_answer(r),
        ),
{
    let mut iv = iv;
    let cap: usize = rsp.len();
    let ghost before = engine.calls();
    let n = input.len();
    let full = n - n % 16;
    let rem = n % 16;
    let mut last: Vec<u8> = vec![0u8; 16];
    if rem > 0 {
        let mut padded: Vec<u8> = vec![0u8; 16];
        let tail = vstd::slice::slice_subrange(input, full, n);
        write_bytes(padded.as_mut_slice(), 0, tail);
        assert(padded@ =~= input@.skip(full as int) + Seq::new((16 - rem) as nat, |i: int| 0u8));
        let res = engine.aes(record, material, iv.as_mut_slice(), mode, operation, padded.as_slice(), last.as_mut_slice());
        assert(engine.calls().take(before.len() as int) =~= before);
        match res {
            Ok(()) => {},
            Err(e) => return Err(e),
        }
    }
    let kept = vstd::slice::slice_subrange(last.as_slice(), 0, rem);
    write_bytes(rsp, 16, first.as_slice());
    write_bytes(rsp, 16 + full, kept);
    write_bytes(rsp, 0, iv.as_slice());
    let out: &'a [u8] = rsp;
    let b = vstd::slice::slice_subrange(out, 0, 16 + n);
    assert(b@ =~= iv@ + first@ + kept@);
    assert(engine.calls().take(before.len() as int) =~= before);
    Ok(b)
}

/// The input of a request splits into whole 16-byte blocks and fewer than
/// 16 bytes left over; the leftover, padded with zeros, is one block; and
/// the response to a successful request is the 16-byte IV followed by as
/// many bytes as the input.
pub proof fn lemma_aes_block_split(operation: AesOperation, p: AesRequest, before: Seq<AesCall>, after: Seq<AesCall>, out: Result<Seq<u8>, Error>)
    requires
        spec_aes_run(operation, p, before, after, out),
        p.iv.len() == 16,
        forall|i: int| before.len() <= i < after.len() ==> (#[trigger] after[i]).output.len() == after[i].input.len()
            && after[i].iv_after.len() == 16,
    ensures
        ({
            let n = p.input.len() as int;
            let full = whole_blocks(n);
            &&& full % 16 == 0 && 0 <= n - full < 16
            &&& p.input.take(full) + p.input.skip(full) == p.input
            &&& (p.input.skip(full) + Seq::new((16 - (n - full)) as nat, |i: int| 0u8)).len() == 16
            &&& out matches Ok(b) ==> b.len() == 16 + n
        }),
{
    let n = p.input.len() as int;
    let full = whole_blocks(n);
    assert(p.input.take(full) + p.input.skip(full) =~= p.input);
    let k = before.len() as int;
    if after.len() > k {
        assert(after[k].output.len() == after[k].input.len());
    }
    if after.len() > k + 1 {
        assert(after[k + 1].output.len() == after[k + 1].input.len());
    }
}

} // verus!
