//! The crypto server: key sizes, request routing, and the tables of open
//! digest and HMAC computations kept between requests.

use vstd::prelude::*;

use crate::bytes::{from_le32, le32, lemma_le32_roundtrip, u32_from_le, u32_to_le};
use crate::crypto_common::Opcode;
use crate::status::Error;

verus! {

/// The public, private and blinded key sizes of an algorithm class.
pub open spec fn spec_keysize(class: u16) -> Option<(usize, usize, usize)> {
    if class == Opcode::CLASS_ECDSA_P256 {
        Some((64usize, 32usize, 80usize))
    } else if class == Opcode::CLASS_DICE_P256 {
        Some((64usize, 32usize, 100usize))
    } else if class == Opcode::CLASS_ECDH_P256 {
        Some((64usize, 32usize, 80usize))
    } else if class == Opcode::CLASS_ECDSA_P384 {
        Some((96usize, 48usize, 112usize))
    } else if class == Opcode::CLASS_ECDH_P384 {
        Some((96usize, 48usize, 112usize))
    } else if class == Opcode::CLASS_ED25519 {
        Some((64usize, 32usize, 80usize))
    } else if class == Opcode::CLASS_X25519 {
        Some((64usize, 32usize, 80usize))
    } else if class == Opcode::CLASS_RSA2048 {
        Some((256usize, 256usize, 768usize))
    } else if class == Opcode::CLASS_RSA3072 {
        Some((384usize, 384usize, 1152usize))
    } else if class == Opcode::CLASS_RSA4096 {
        Some((512usize, 512usize, 1536usize))
    } else {
        None
    }
}

/// The key sizes (public, private, blinded) of the class of an asymmetric
/// operation.
pub fn keysize(op: Opcode) -> (r: (usize, usize, usize))
    requires
        spec_keysize(op.spec_class()) is Some,
    ensures
        spec_keysize(op.spec_class()) == Some(r),
{
    let class = op.class();
    if class == Opcode::CLASS_ECDSA_P256 {
        (64, 32, 80)
    } else if class == Opcode::CLASS_DICE_P256 {
        (64, 32, 25 * 4)
    } else if class == Opcode::CLASS_ECDH_P256 {
        (64, 32, 80)
    } else if class == Opcode::CLASS_ECDSA_P384 {
        (96, 48, 112)
    } else if class == Opcode::CLASS_ECDH_P384 {
        (96, 48, 112)
    } else if class == Opcode::CLASS_ED25519 {
        (64, 32, 80)
    } else if class == Opcode::CLASS_X25519 {
        (64, 32, 80)
    } else if class == Opcode::CLASS_RSA2048 {
        (256, 256, 768)
    } else if class == Opcode::CLASS_RSA3072 {
        (384, 384, 1152)
    } else {
        (512, 512, 1536)
    }
}

/// The operation a request asks of the server.
#[derive(Clone, Copy, PartialEq, Eq, Structural, Debug)]
pub enum Route {
    KeyPairGen,
    Sign,
    Verify,
    DigestInit,
    DigestUpdate,
    DigestFinal,
    Unknown,
}

/// The operation of an opcode: key generation, signing and verification
/// for ECDSA P-256 (and key generation and signing for DICE P-256), and the
/// three steps of SHA2-256 and SHA2-512 digests. `Opcode` defines no code
/// for AES, DRBG or HMAC requests, so every other opcode is `Unknown`.
pub open spec fn spec_route(class: u16, op: u16) -> Route {
    let kg: u16 = 0x474b;
    let si: u16 = 0x4953;
    let ve: u16 = 0x4556;
    let init: u16 = 0x4e49;
    let up: u16 = 0x5055;
    let fi: u16 = 0x4946;
    if class == Opcode::CLASS_ECDSA_P256 && op == kg {
        Route::KeyPairGen
    } else if class == Opcode::CLASS_ECDSA_P256 && op == si {
        Route::Sign
    } else if class == Opcode::CLASS_ECDSA_P256 && op == ve {
        Route::Verify
    } else if class == Opcode::CLASS_DICE_P256 && op == kg {
        Route::KeyPairGen
    } else if class == Opcode::CLASS_DICE_P256 && op == si {
        Route::Sign
    } else if (class == Opcode::CLASS_SHA2_256 || class == Opcode::CLASS_SHA2_512) && op == init {
        Route::DigestInit
    } else if (class == Opcode::CLASS_SHA2_256 || class == Opcode::CLASS_SHA2_512) && op == up {
        Route::DigestUpdate
    } else if (class == Opcode::CLASS_SHA2_256 || class == Opcode::CLASS_SHA2_512) && op == fi {
        Route::DigestFinal
    } else {
        Route::Unknown
    }
}

/// The operation that a request with opcode `op` asks of the server.
pub fn route(op: Opcode) -> (r: Route)
    ensures
        r == spec_route(op.spec_class(), op.spec_op()),
{
    let kg: u16 = Opcode::ECDSA_P256_KEYGEN().op();
    let si: u16 = Opcode::ECDSA_P256_SIGN().op();
    let ve: u16 = Opcode::ECDSA_P256_VERIFY().op();
    let init: u16 = Opcode::SHA2_256_INIT().op();
    let up: u16 = Opcode::SHA2_256_UPDATE().op();
    let fi: u16 = Opcode::SHA2_256_FINAL().op();
    let class = op.class();
    let code = op.op();
    let digest = class == Opcode::CLASS_SHA2_256 || class == Opcode::CLASS_SHA2_512;
    if class == Opcode::CLASS_ECDSA_P256 && code == kg {
        Route::KeyPairGen
    } else if class == Opcode::CLASS_ECDSA_P256 && code == si {
        Route::Sign
    } else if class == Opcode::CLASS_ECDSA_P256 && code == ve {
        Route::Verify
    } else if class == Opcode::CLASS_DICE_P256 && code == kg {
        Route::KeyPairGen
    } else if class == Opcode::CLASS_DICE_P256 && code == si {
        Route::Sign
    } else if digest && code == init {
        Route::DigestInit
    } else if digest && code == up {
        Route::DigestUpdate
    } else if digest && code == fi {
        Route::DigestFinal
    } else {
        Route::Unknown
    }
}

/// The hash of a digest.
#[derive(Clone, Copy, PartialEq, Eq, Structural, Debug)]
pub enum HashMode {
    Sha256,
    Sha384,
    Sha512,
}

/// The hash that a digest-init opcode starts: SHA2-256, SHA2-384 or
/// SHA2-512; any other opcode is an invalid argument.
pub open spec fn spec_init_hash_mode(op: Opcode) -> Result<HashMode, Error> {
    if op.spec_op() != 0x4e49 {
        Err(Error::InvalidArgument)
    } else if op.spec_class() == Opcode::CLASS_SHA2_256 {
        Ok(HashMode::Sha256)
    } else if op.spec_class() == Opcode::CLASS_SHA2_384 {
        Ok(HashMode::Sha384)
    } else if op.spec_class() == Opcode::CLASS_SHA2_512 {
        Ok(HashMode::Sha512)
    } else {
        Err(Error::InvalidArgument)
    }
}

/// The hash that a digest-init opcode starts.
pub fn init_hash_mode(op: Opcode) -> (r: Result<HashMode, Error>)
    ensures
        r == spec_init_hash_mode(op),
{
    if op.op() != 0x4e49 {
        return Err(Error::InvalidArgument);
    }
    let class = op.class();
    if class == Opcode::CLASS_SHA2_256 {
        Ok(HashMode::Sha256)
    } else if class == Opcode::CLASS_SHA2_384 {
        Ok(HashMode::Sha384)
    } else if class == Opcode::CLASS_SHA2_512 {
        Ok(HashMode::Sha512)
    } else {
        Err(Error::InvalidArgument)
    }
}

impl HashMode {
    /// The output size of the hash in bits, as its name gives it.
    pub open spec fn spec_output_bits(self) -> int {
        match self {
            HashMode::Sha256 => 256,
            HashMode::Sha384 => 384,
            HashMode::Sha512 => 512,
        }
    }
}

/// The digest size in 32-bit words that a digest-final opcode produces: 8,
/// 12 or 16; any other opcode is an invalid argument.
pub open spec fn spec_final_digest_words(op: Opcode) -> Result<usize, Error> {
    if op.spec_op() != 0x4946 {
        Err(Error::InvalidArgument)
    } else if op.spec_class() == Opcode::CLASS_SHA2_256 {
        Ok(8)
    } else if op.spec_class() == Opcode::CLASS_SHA2_384 {
        Ok(12)
    } else if op.spec_class() == Opcode::CLASS_SHA2_512 {
        Ok(16)
    } else {
        Err(Error::InvalidArgument)
    }
}

/// The digest size in 32-bit words that a digest-final opcode produces.
pub fn final_digest_words(op: Opcode) -> (r: Result<usize, Error>)
    ensures
        r == spec_final_digest_words(op),
{
    if op.op() != 0x4946 {
        return Err(Error::InvalidArgument);
    }
    let class = op.class();
    if class == Opcode::CLASS_SHA2_256 {
        Ok(256 / 32)
    } else if class == Opcode::CLASS_SHA2_384 {
        Ok(384 / 32)
    } else if class == Opcode::CLASS_SHA2_512 {
        Ok(512 / 32)
    } else {
        Err(Error::InvalidArgument)
    }
}

/// The context index that starts a request (a little-endian word) and the
/// bytes after it; fewer than four bytes are an internal error.
pub fn request_index(req: &[u8]) -> (r: Result<(u32, &[u8]), Error>)
    ensures
        r is Err <==> req@.len() < 4,
        r matches Err(e) ==> e == Error::Internal,
        r matches Ok((index, rest)) ==> index == from_le32(req@.subrange(0, 4)) && rest@ == req@.skip(4),
{
    if req.len() < 4 {
        return Err(Error::Internal);
    }
    let index = u32_from_le(req, 0);
    let rest = vstd::slice::slice_subrange(req, 4, req.len());
    assert(rest@ =~= req@.skip(4));
    Ok((index, rest))
}

/// A table of `N` slots for open contexts, referred to by their index.
pub struct ContextTable<C, const N: usize> {
    slots: Vec<Option<C>>,
}

impl<C, const N: usize> View for ContextTable<C, N> {
    type V = Seq<Option<C>>;

    closed spec fn view(&self) -> Seq<Option<C>> {
        self.slots@
    }
}

impl<C, const N: usize> ContextTable<C, N> {
    /// The table has its `N` slots.
    pub closed spec fn wf(&self) -> bool {
        self.slots@.len() == N
    }

    /// A table of empty slots.
    pub fn new() -> (r: Self)
        ensures
            r.wf(),
            r@ == Seq::new(N as nat, |i: int| None::<C>),
    {
        let mut slots: Vec<Option<C>> = Vec::new();
        let mut i: usize = 0;
        while i < N
            invariant
                i <= N,
                slots@ == Seq::new(i as nat, |j: int| None::<C>),
            decreases N - i,
        {
            slots.push(None);
            assert(slots@ =~= Seq::new((i + 1) as nat, |j: int| None::<C>));
            i += 1;
        }
        ContextTable { slots }
    }

    /// Stores a context in the first free slot and returns its index;
    /// `ResourceExhausted` (and no change) when every slot is taken.
    pub fn allocate(&mut self, context: C) -> (r: Result<u32, Error>)
        requires
            old(self).wf(),
            N <= u32::MAX,
        ensures
            final(self).wf(),
            r is Err <==> forall|j: int| 0 <= j < N ==> old(self)@[j] is Some,
            r matches Err(e) ==> e == Error::ResourceExhausted && final(self)@ == old(self)@,
            r matches Ok(i) ==> i < N && old(self)@[i as int] is None && final(self)@ == old(self)@.update(
                i as int,
                Some(context),
            ) && forall|j: int| 0 <= j < i ==> old(self)@[j] is Some,
    {
        let mut i: usize = 0;
        while i < self.slots.len()
            invariant
                i <= self.slots@.len(),
                self.slots@.len() == N,
                self.slots@ == old(self)@,
                N <= u32::MAX,
                forall|j: int| 0 <= j < i ==> self.slots@[j] is Some,
            decreases self.slots@.len() - i,
        {
            if self.slots[i].is_none() {
                self.slots.set(i, Some(context));
                return Ok(i as u32);
            }
            i += 1;
        }
        Err(Error::ResourceExhausted)
    }

    /// Whether slot `index` holds a context.
    pub fn is_open(&self, index: u32) -> (r: bool)
        requires
            self.wf(),
        ensures
            r == (index < N && self@[index as int] is Some),
    {
        let i = index as usize;
        i < self.slots.len() && self.slots[i].is_some()
    }

    /// Takes the context out of slot `index`, leaving it free:
    /// `OutOfRange` past the table, `InvalidArgument` for a free slot.
    pub fn take(&mut self, index: u32) -> (r: Result<C, Error>)
        requires
            old(self).wf(),
        ensures
            final(self).wf(),
            index >= N ==> r == Err::<C, Error>(Error::OutOfRange) && final(self)@ == old(self)@,
            index < N && old(self)@[index as int] is None ==> r == Err::<C, Error>(Error::InvalidArgument)
                && final(self)@ == old(self)@,
            index < N && old(self)@[index as int] is Some ==> r == Ok::<C, Error>(
                old(self)@[index as int]->0,
            ) && final(self)@ == old(self)@.update(index as int, None),
    {
        let i = index as usize;
        if i >= self.slots.len() {
            return Err(Error::OutOfRange);
        }
        if self.slots[i].is_none() {
            return Err(Error::InvalidArgument);
        }
        let mut slot: Option<C> = None;
        std::mem::swap(&mut slot, &mut self.slots[i]);
        match slot {
            Some(c) => Ok(c),
            None => Err(Error::InvalidArgument),
        }
    }

    /// Puts a context back into slot `index`.
    pub fn put(&mut self, index: u32, context: C)
        requires
            old(self).wf(),
            index < N,
        ensures
            final(self).wf(),
            final(self)@ == old(self)@.update(index as int, Some(context)),
    {
        self.slots.set(index as usize, Some(context));
    }
}

/// A context stored by `allocate` is the one `take` gives back under the
/// returned index, and the slot is free again afterwards.
pub proof fn lemma_allocate_then_take<C>(slots: Seq<Option<C>>, i: int, context: C)
    requires
        0 <= i < slots.len(),
        slots[i] is None,
    ensures
        slots.update(i, Some(context))[i]->0 == context,
        slots.update(i, Some(context)).update(i, None) == slots,
{
    assert(slots.update(i, Some(context)).update(i, None) =~= slots);
}

/// The status of a call's result: success, or its error.
pub open spec fn spec_status<T>(r: Result<T, Error>) -> Result<(), Error> {
    match r {
        Ok(_) => Ok(()),
        Err(e) => Err(e),
    }
}

/// One call made on a digest engine, with what it was given and its answer:
/// a start in a mode, data added to a digest, or a digest written into a
/// buffer of the given length.
pub enum Sha2Call {
    Init(HashMode, Result<(), Error>),
    Update(Seq<u8>, Result<(), Error>),
    Final(nat, Result<(), Error>),
}

/// The SHA-2 primitives of the crypto hardware.
pub trait Sha2Engine {
    /// A running digest computation.
    type Context;

    /// The hash mode that `context` was started with.
    open spec fn spec_mode(context: Self::Context) -> HashMode {
        HashMode::Sha256
    }

    /// The bytes added to `context` since it was started.
    open spec fn spec_absorbed(context: Self::Context) -> Seq<u8> {
        Seq::empty()
    }

    /// The digest of `data` under `mode`, written into a buffer of `len` bytes.
    open spec fn spec_digest(mode: HashMode, data: Seq<u8>, len: nat) -> Seq<u8> {
        Seq::new(len, |i: int| 0u8)
    }

    /// The record of the calls made on the engine, oldest first.
    open spec fn calls(&self) -> Seq<Sha2Call> {
        Seq::empty()
    }

    /// Starts a digest.
    fn sha2_init(&mut self, mode: HashMode) -> (r: Result<Self::Context, Error>)
        ensures
            final(self).calls() == old(self).calls().push(Sha2Call::Init(mode, spec_status(r))),
            r matches Ok(c) ==> Self::spec_mode(c) == mode && Self::spec_absorbed(c) == Seq::<u8>::empty(),
    ;

    /// Adds data to a digest.
    fn sha2_update(&mut self, context: &mut Self::Context, data: &[u8]) -> (r: Result<(), Error>)
        ensures
            final(self).calls() == old(self).calls().push(Sha2Call::Update(data@, r)),
            r is Ok ==> Self::spec_mode(*final(context)) == Self::spec_mode(*old(context))
                && Self::spec_absorbed(*final(context)) == Self::spec_absorbed(*old(context)) + data@,
    ;

    /// Ends a digest, writing it into `digest`.
    fn sha2_final(&mut self, context: &mut Self::Context, digest: &mut [u8]) -> (r: Result<(), Error>)
        ensures
            final(digest)@.len() == old(digest)@.len(),
            final(self).calls() == old(self).calls().push(Sha2Call::Final(old(digest)@.len(), r)),
            r is Ok ==> final(digest)@ == Self::spec_digest(
                Self::spec_mode(*old(context)),
                Self::spec_absorbed(*old(context)),
                old(digest)@.len(),
            ),
    ;
}

/// The outcome of a request as the server answers it: the response bytes,
/// or the error.
pub open spec fn spec_answer(r: Result<&[u8], Error>) -> Result<Seq<u8>, Error> {
    match r {
        Ok(b) => Ok(b@),
        Err(e) => Err(e),
    }
}

/// A digest-init request with opcode `op` on a table of `n` slots that goes
/// from `t0` to `t1`, an engine whose record of calls goes from `before` to
/// `after`, and a response buffer that goes from `rsp0` to `rsp1`, with
/// outcome `out`. Refused before the engine is called: another opcode
/// (`InvalidArgument`), a response buffer under four bytes (`Internal`).
/// Otherwise the engine is asked once to start a digest in the opcode's
/// mode: its error is the outcome; on success the first free slot takes the
/// new digest, with nothing added yet, and its index is the answer (a
/// little-endian word at the start of the buffer), or `ResourceExhausted`
/// where no slot is free. A refusal leaves the table as it was.
pub open spec fn spec_digest_init<E: Sha2Engine>(
    n: int,
    t0: Seq<Option<E::Context>>,
    t1: Seq<Option<E::Context>>,
    before: Seq<Sha2Call>,
    after: Seq<Sha2Call>,
    op: Opcode,
    rsp0: Seq<u8>,
    rsp1: Seq<u8>,
    out: Result<Seq<u8>, Error>,
) -> bool {
    &&& out is Err ==> t1 == t0
    &&& match spec_init_hash_mode(op) {
        Err(_) => out == Err::<Seq<u8>, Error>(Error::InvalidArgument) && after == before,
        Ok(mode) => if rsp0.len() < 4 {
            out == Err::<Seq<u8>, Error>(Error::Internal) && after == before
        } else {
            &&& after.len() == before.len() + 1
            &&& after.take(before.len() as int) == before
            &&& match after.last() {
                Sha2Call::Init(m, res) => m == mode && match res {
                    Err(e) => out == Err::<Seq<u8>, Error>(e),
                    Ok(_) => if forall|j: int| 0 <= j < n ==> #[trigger] t0[j] is Some {
                        out == Err::<Seq<u8>, Error>(Error::ResourceExhausted)
                    } else {
                        out matches Ok(b) && {
                            let i = from_le32(b);
                            &&& b.len() == 4
                            &&& b =~= rsp1.take(4)
                            &&& i < n
                            &&& t0[i as int] is None
                            &&& forall|j: int| 0 <= j < i ==> t0[j] is Some
                            &&& t1[i as int] is Some
                            &&& t1 =~= t0.update(i as int, t1[i as int])
                            &&& E::spec_mode(t1[i as int]->0) == mode
                            &&& E::spec_absorbed(t1[i as int]->0) == Seq::<u8>::empty()
                        }
                    },
                },
                _ => false,
            }
        },
    }
}

/// A digest-update request `req` (an index word, then the data), in the
/// terms of `spec_digest_init`. Refused before the engine is called: a
/// request under four bytes (`Internal`), an index past the table
/// (`OutOfRange`), a free slot (`InvalidArgument`). For an open slot the
/// engine is called once with the data, and its answer is the outcome (an
/// empty answer on success, with the data added to the digest); the slot
/// stays open either way.
pub open spec fn spec_digest_update<E: Sha2Engine>(
    n: int,
    t0: Seq<Option<E::Context>>,
    t1: Seq<Option<E::Context>>,
    before: Seq<Sha2Call>,
    after: Seq<Sha2Call>,
    req: Seq<u8>,
    out: Result<Seq<u8>, Error>,
) -> bool {
    if req.len() < 4 {
        out == Err::<Seq<u8>, Error>(Error::Internal) && t1 == t0 && after == before
    } else {
        let i = from_le32(req.subrange(0, 4));
        if i >= n {
            out == Err::<Seq<u8>, Error>(Error::OutOfRange) && t1 == t0 && after == before
        } else if t0[i as int] is None {
            out == Err::<Seq<u8>, Error>(Error::InvalidArgument) && t1 == t0 && after == before
        } else {
            let c = t0[i as int]->0;
            let c2 = t1[i as int]->0;
            &&& after == before.push(Sha2Call::Update(req.skip(4), spec_status(out)))
            &&& t1[i as int] is Some
            &&& t1 =~= t0.update(i as int, t1[i as int])
            &&& out matches Ok(b) ==> {
                &&& b.len() == 0
                &&& E::spec_mode(c2) == E::spec_mode(c)
                &&& E::spec_absorbed(c2) == E::spec_absorbed(c) + req.skip(4)
            }
        }
    }
}

/// A digest-final request with opcode `op` and request `req` (an index
/// word), in the terms of `spec_digest_init`. Refused before the engine is
/// called: another opcode (`InvalidArgument`), a request under four bytes
/// (`Internal`), an index past the table (`OutOfRange`), a free slot
/// (`InvalidArgument`), a response buffer too short for the digest
/// (`Internal`). Otherwise the engine is called once to write the digest
/// of the opcode's size, and its answer is the outcome: the digest of the
/// slot's mode and data, which frees the slot; on an error the slot stays
/// open.
pub open spec fn spec_digest_final<E: Sha2Engine>(
    n: int,
    t0: Seq<Option<E::Context>>,
    t1: Seq<Option<E::Context>>,
    before: Seq<Sha2Call>,
    after: Seq<Sha2Call>,
    op: Opcode,
    req: Seq<u8>,
    rsp0: Seq<u8>,
    rsp1: Seq<u8>,
    out: Result<Seq<u8>, Error>,
) -> bool {
    match spec_final_digest_words(op) {
        Err(_) => out == Err::<Seq<u8>, Error>(Error::InvalidArgument) && t1 == t0 && after == before,
        Ok(w) => if req.len() < 4 {
            out == Err::<Seq<u8>, Error>(Error::Internal) && t1 == t0 && after == before
        } else {
            let i = from_le32(req.subrange(0, 4));
            if i >= n {
                out == Err::<Seq<u8>, Error>(Error::OutOfRange) && t1 == t0 && after == before
            } else if t0[i as int] is None {
                out == Err::<Seq<u8>, Error>(Error::InvalidArgument) && t1 == t0 && after == before
            } else if rsp0.len() < 4 * w {
                out == Err::<Seq<u8>, Error>(Error::Internal) && t1 == t0 && after == before
            } else {
                let c = t0[i as int]->0;
                &&& after == before.push(Sha2Call::Final((4 * w) as nat, spec_status(out)))
                &&& out matches Ok(b) ==> {
                    &&& b =~= rsp1.take(4 * w)
                    &&& b =~= E::spec_digest(E::spec_mode(c), E::spec_absorbed(c), (4 * w) as nat)
                    &&& t1 =~= t0.update(i as int, None)
                }
                &&& out is Err ==> t1[i as int] is Some && t1 =~= t0.update(i as int, t1[i as int])
            }
        },
    }
}

/// The open digest computations of the server, `N` at most.
pub struct Sha2Contexts<C, const N: usize> {
    table: ContextTable<C, N>,
}

impl<C, const N: usize> View for Sha2Contexts<C, N> {
    type V = Seq<Option<C>>;

    closed spec fn view(&self) -> Seq<Option<C>> {
        self.table@
    }
}

impl<C, const N: usize> Sha2Contexts<C, N> {
    /// The table has its `N` slots, numbered by `u32`.
    pub closed spec fn wf(&self) -> bool {
        self.table.wf() && N <= u32::MAX
    }

    /// No digest is open.
    pub fn new() -> (r: Self)
        requires
            N <= u32::MAX,
        ensures
            r.wf(),
            r@ == Seq::new(N as nat, |i: int| None::<C>),
    {
        Sha2Contexts { table: ContextTable::new() }
    }

    /// Starts a digest for a digest-init opcode and answers its index, as
    /// `spec_digest_init` says.
    pub fn init<'a, E: Sha2Engine<Context = C>>(
        &mut self,
        engine: &mut E,
        op: Opcode,
        rsp: &'a mut [u8],
    ) -> (r: Result<&'a [u8], Error>)
        requires
            old(self).wf(),
        ensures
            final(self).wf(),
            spec_digest_init::<E>(N as int, old(self)@, final(self)@, old(engine).calls(), final(engine).calls(), op,
                old(rsp)@, final(rsp)@, spec_answer(r)),
    {
        let mode = match init_hash_mode(op) {
            Ok(m) => m,
            Err(e) => return Err(e),
        };
        if rsp.len() < 4 {
            return Err(Error::Internal);
        }
        let ghost before = engine.calls();
        let res = engine.sha2_init(mode);
        assert(engine.calls().take(before.len() as int) =~= before);
        let context = match res {
            Ok(c) => c,
            Err(e) => return Err(e),
        };
        let index = match self.table.allocate(context) {
            Ok(i) => i,
            Err(e) => return Err(e),
        };
        let bytes = u32_to_le(index);
        rsp[0] = bytes[0];
        rsp[1] = bytes[1];
        rsp[2] = bytes[2];
        rsp[3] = bytes[3];
        let out: &'a [u8] = rsp;
        let b = vstd::slice::slice_subrange(out, 0, 4);
        assert(b@ =~= le32(index));
        proof {
            lemma_le32_roundtrip(index);
        }
        Ok(b)
    }

    /// Adds the data that follows the index word of `req` to the open
    /// digest of that index. Refused before the engine is called: a request
    /// under four bytes (`Internal`), an index past the table (`OutOfRange`),
    /// a free slot (`InvalidArgument`). For an open slot the engine is
    /// called once with the data, and its answer is the result (an empty
    /// answer on success); the slot stays open either way.
    pub fn update<'a, E: Sha2Engine<Context = C>>(
        &mut self,
        engine: &mut E,
        req: &[u8],
        rsp: &'a mut [u8],
    ) -> (r: Result<&'a [u8], Error>)
        requires
            old(self).wf(),
        ensures
            final(self).wf(),
            spec_digest_update::<E>(N as int, old(self)@, final(self)@, old(engine).calls(), final(engine).calls(),
                req@, spec_answer(r)),
    {
        let (index, data) = match request_index(req) {
            Ok(x) => x,
            Err(e) => return Err(e),
        };
        let mut context = match self.table.take(index) {
            Ok(c) => c,
            Err(e) => return Err(e),
        };
        let result = engine.sha2_update(&mut context, data);
        self.table.put(index, context);
        match result {
            Ok(u) => {
                let out: &'a [u8] = rsp;
                let b = vstd::slice::slice_subrange(out, 0, 0);
                assert(result == Ok::<(), Error>(u));
                assert(u == ());
                assert(spec_status(Ok::<&[u8], Error>(b)) == Ok::<(), Error>(()));
                Ok(b)
            },
            Err(e) => {
                assert(spec_status(Err::<&[u8], Error>(e)) == result);
                Err(e)
            },
        }
    }

    /// Ends the open digest of the index word of `req` and answers the
    /// digest of the size that the digest-final opcode names. Refused before
    /// the engine is called: another opcode (`InvalidArgument`), a request
    /// under four bytes (`Internal`), an index past the table
    /// (`OutOfRange`), a free slot (`InvalidArgument`), a response too short
    /// for the digest (`Internal`). Otherwise the engine is called once and
    /// its answer is the result: a finished digest frees its slot, a failed
    /// one stays open.
    pub fn finalize<'a, E: Sha2Engine<Context = C>>(
        &mut self,
        engine: &mut E,
        op: Opcode,
        req: &[u8],
        rsp: &'a mut [u8],
    ) -> (r: Result<&'a [u8], Error>)
        requires
            old(self).wf(),
        ensures
            final(self).wf(),
            spec_digest_final::<E>(N as int, old(self)@, final(self)@, old(engine).calls(), final(engine).calls(), op,
                req@, old(rsp)@, final(rsp)@, spec_answer(r)),
    {
        let words = match final_digest_words(op) {
            Ok(w) => w,
            Err(e) => return Err(e),
        };
        let (index, _) = match request_index(req) {
            Ok(x) => x,
            Err(e) => return Err(e),
        };
        if !self.table.is_open(index) {
            let taken = self.table.take(index);
            return match taken {
                Ok(_) => Err(Error::InvalidArgument),
                Err(e) => Err(e),
            };
        }
        let len = 4 * words;
        if rsp.len() < len {
            return Err(Error::Internal);
        }
        let mut context = match self.table.take(index) {
            Ok(c) => c,
            Err(e) => return Err(e),
        };
        let (digest, _) = rsp.split_at_mut(len);
        let result = engine.sha2_final(&mut context, digest);
        match result {
            Ok(u) => {
                assert(result == Ok::<(), Error>(u) && u == ());
            },
            Err(e) => {
                self.table.put(index, context);
                return Err(e);
            },
        }
        let out: &'a [u8] = rsp;
        let b = vstd::slice::slice_subrange(out, 0, len);
        assert(b@ =~= out@.take(len as int));
        Ok(b)
    }
}

/// The hash under an HMAC tag, which fixes the tag's size.
#[derive(Clone, Copy, PartialEq, Eq, Structural, Debug)]
pub enum HmacMode {
    Sha256,
    Sha384,
    Sha512,
}

/// The size of a tag in 32-bit words.
pub open spec fn spec_tag_words(mode: HmacMode) -> usize {
    match mode {
        HmacMode::Sha256 => 8,
        HmacMode::Sha384 => 12,
        HmacMode::Sha512 => 16,
    }
}

/// The size of a tag in 32-bit words.
pub fn tag_words(mode: HmacMode) -> (r: usize)
    ensures
        r == spec_tag_words(mode),
        32 * r == mode.spec_hash().spec_output_bits(),
{
    match mode {
        HmacMode::Sha256 => 256 / 32,
        HmacMode::Sha384 => 384 / 32,
        HmacMode::Sha512 => 512 / 32,
    }
}

/// One call made on an HMAC engine, with what it was given and its answer:
/// a start under a key (record, then material), data added to a tag, or a
/// tag written into a buffer of the given length.
pub enum HmacCall {
    Init(Seq<u8>, Seq<u8>, Result<(), Error>),
    Update(Seq<u8>, Result<(), Error>),
    Final(nat, Result<(), Error>),
}

/// The HMAC primitives of the crypto hardware, with the layout of its key
/// records.
pub trait HmacEngine {
    /// A running tag computation.
    type Context;

    /// The size of a key record, the part of a key that precedes its key
    /// material in a request.
    open spec fn spec_key_record_size(&self) -> nat {
        0
    }

    /// The key (record, then material) that `context` was started with.
    open spec fn spec_key(context: Self::Context) -> (Seq<u8>, Seq<u8>) {
        (Seq::empty(), Seq::empty())
    }

    /// The bytes added to `context` since it was started.
    open spec fn spec_absorbed(context: Self::Context) -> Seq<u8> {
        Seq::empty()
    }

    /// The tag of `data` under a key (record and material), written into a
    /// buffer of `len` bytes.
    open spec fn spec_tag(record: Seq<u8>, material: Seq<u8>, data: Seq<u8>, len: nat) -> Seq<u8> {
        Seq::new(len, |i: int| 0u8)
    }

    /// The record of the calls made on the engine, oldest first.
    open spec fn calls(&self) -> Seq<HmacCall> {
        Seq::empty()
    }

    /// The size of a key record.
    fn key_record_size(&self) -> (r: usize)
        ensures
            r == self.spec_key_record_size(),
    ;

    /// Starts a tag under a key.
    fn hmac_init(&mut self, record: &[u8], material: &[u8]) -> (r: Result<Self::Context, Error>)
        ensures
            final(self).calls() == old(self).calls().push(HmacCall::Init(record@, material@, spec_status(r))),
            r matches Ok(c) ==> Self::spec_key(c) == (record@, material@) && Self::spec_absorbed(c) == Seq::<
                u8,
            >::empty(),
    ;

    /// Adds data to a tag.
    fn hmac_update(&mut self, context: &mut Self::Context, data: &[u8]) -> (r: Result<(), Error>)
        ensures
            final(self).calls() == old(self).calls().push(HmacCall::Update(data@, r)),
            r is Ok ==> Self::spec_key(*final(context)) == Self::spec_key(*old(context))
                && Self::spec_absorbed(*final(context)) == Self::spec_absorbed(*old(context)) + data@,
    ;

    /// Ends a tag, writing it into `tag`.
    fn hmac_final(&mut self, context: &mut Self::Context, tag: &mut [u8]) -> (r: Result<(), Error>)
        ensures
            final(tag)@.len() == old(tag)@.len(),
            final(self).calls() == old(self).calls().push(HmacCall::Final(old(tag)@.len(), r)),
            r is Ok ==> final(tag)@ == Self::spec_tag(
                Self::spec_key(*old(context)).0,
                Self::spec_key(*old(context)).1,
                Self::spec_absorbed(*old(context)),
                old(tag)@.len(),
            ),
    ;
}

/// The open tag computations of the server, `N` at most.
pub struct HmacContexts<C, const N: usize> {
    table: ContextTable<C, N>,
}

impl<C, const N: usize> View for HmacContexts<C, N> {
    type V = Seq<Option<C>>;

    closed spec fn view(&self) -> Seq<Option<C>> {
        self.table@
    }
}

impl<C, const N: usize> HmacContexts<C, N> {
    /// The table has its `N` slots, numbered by `u32`.
    pub closed spec fn wf(&self) -> bool {
        self.table.wf() && N <= u32::MAX
    }

    /// No tag is open.
    pub fn new() -> (r: Self)
        requires
            N <= u32::MAX,
        ensures
            r.wf(),
            r@ == Seq::new(N as nat, |i: int| None::<C>),
    {
        HmacContexts { table: ContextTable::new() }
    }

    /// Starts a tag under the key that `req` holds (a key record, then its
    /// key material to the end) and answers its index (a little-endian word
    /// at the start of `rsp`). Refused before the engine is called: a
    /// request shorter than a key record or a response buffer under four
    /// bytes (`Internal`). Then: a failure of the engine (its error), no free
    /// slot (`ResourceExhausted`). A refusal leaves the table as it was.
    pub fn init<'a, E: HmacEngine<Context = C>>(
        &mut self,
        engine: &mut E,
        req: &[u8],
        rsp: &'a mut [u8],
    ) -> (r: Result<&'a [u8], Error>)
        requires
            old(self).wf(),
        ensures
            final(self).wf(),
            r is Err ==> final(self)@ == old(self)@,
            ({
                let h = old(engine).spec_key_record_size() as int;
                if req@.len() < h || old(rsp)@.len() < 4 {
                    r == Err::<&[u8], Error>(Error::Internal) && final(engine).calls() == old(engine).calls()
                } else {
                    let before = old(engine).calls();
                    let after = final(engine).calls();
                    &&& after.len() == before.len() + 1
                    &&& after.take(before.len() as int) == before
                    &&& match after.last() {
                        HmacCall::Init(rec, mat, res) => rec == req@.take(h) && mat == req@.skip(h) && match res {
                            Err(e) => r == Err::<&[u8], Error>(e),
                            Ok(_) => if forall|j: int| 0 <= j < N ==> #[trigger] old(self)@[j] is Some {
                                r == Err::<&[u8], Error>(Error::ResourceExhausted)
                            } else {
                                r matches Ok(b) && {
                                    let i = from_le32(b@);
                                    &&& b@.len() == 4
                                    &&& b@ == final(rsp)@.take(4)
                                    &&& i < N
                                    &&& old(self)@[i as int] is None
                                    &&& forall|j: int| 0 <= j < i ==> old(self)@[j] is Some
                                    &&& final(self)@[i as int] is Some
                                    &&& final(self)@ == old(self)@.update(i as int, final(self)@[i as int])
                                    &&& E::spec_key(final(self)@[i as int]->0) == (req@.take(h), req@.skip(h))
                                    &&& E::spec_absorbed(final(self)@[i as int]->0) == Seq::<u8>::empty()
                                }
                            },
                        },
                        _ => false,
                    }
                }
            }),
    {
        let h = engine.key_record_size();
        if req.len() < h {
            return Err(Error::Internal);
        }
        let record = vstd::slice::slice_subrange(req, 0, h);
        let material = vstd::slice::slice_subrange(req, h, req.len());
        assert(record@ =~= req@.take(h as int));
        assert(material@ =~= req@.skip(h as int));
        if rsp.len() < 4 {
            return Err(Error::Internal);
        }
        let ghost before = engine.calls();
        let res = engine.hmac_init(record, material);
        assert(engine.calls().take(before.len() as int) =~= before);
        let context = match res {
            Ok(c) => c,
            Err(e) => return Err(e),
        };
        let index = match self.table.allocate(context) {
            Ok(i) => i,
            Err(e) => return Err(e),
        };
        let bytes = u32_to_le(index);
        rsp[0] = bytes[0];
        rsp[1] = bytes[1];
        rsp[2] = bytes[2];
        rsp[3] = bytes[3];
        let out: &'a [u8] = rsp;
        let b = vstd::slice::slice_subrange(out, 0, 4);
        assert(b@ =~= le32(index));
        proof {
            lemma_le32_roundtrip(index);
        }
        Ok(b)
    }

    /// Adds the data that follows the index word of `req` to the open tag of
    /// that index. Refused before the engine is called: a request under four
    /// bytes (`Internal`), an index past the table (`OutOfRange`), a free
    /// slot (`InvalidArgument`). For an open slot the engine is called once
    /// with the data, and its answer is the result (an empty answer on
    /// success); the slot stays open either way.
    pub fn update<'a, E: HmacEngine<Context = C>>(
        &mut self,
        engine: &mut E,
        req: &[u8],
        rsp: &'a mut [u8],
    ) -> (r: Result<&'a [u8], Error>)
        requires
            old(self).wf(),
        ensures
            final(self).wf(),
            req@.len() < 4 ==> r == Err::<&[u8], Error>(Error::Internal) && final(self)@ == old(self)@
                && final(engine).calls() == old(engine).calls(),
            req@.len() >= 4 ==> ({
                let i = from_le32(req@.subrange(0, 4));
                &&& i >= N ==> r == Err::<&[u8], Error>(Error::OutOfRange) && final(self)@ == old(self)@
                    && final(engine).calls() == old(engine).calls()
                &&& i < N && old(self)@[i as int] is None ==> r == Err::<&[u8], Error>(Error::InvalidArgument)
                    && final(self)@ == old(self)@ && final(engine).calls() == old(engine).calls()
                &&& i < N && old(self)@[i as int] is Some ==> {
                    let c = old(self)@[i as int]->0;
                    let c2 = final(self)@[i as int]->0;
                    &&& final(engine).calls() == old(engine).calls().push(
                        HmacCall::Update(req@.skip(4), spec_status(r)),
                    )
                    &&& final(self)@[i as int] is Some
                    &&& final(self)@ == old(self)@.update(i as int, final(self)@[i as int])
                    &&& r matches Ok(b) ==> {
                        &&& b@.len() == 0
                        &&& E::spec_key(c2) == E::spec_key(c)
                        &&& E::spec_absorbed(c2) == E::spec_absorbed(c) + req@.skip(4)
                    }
                }
            }),
    {
        let (index, data) = match request_index(req) {
            Ok(x) => x,
            Err(e) => return Err(e),
        };
        let mut context = match self.table.take(index) {
            Ok(c) => c,
            Err(e) => return Err(e),
        };
        let result = engine.hmac_update(&mut context, data);
        self.table.put(index, context);
        match result {
            Ok(u) => {
                let out: &'a [u8] = rsp;
                let b = vstd::slice::slice_subrange(out, 0, 0);
                assert(result == Ok::<(), Error>(u) && u == ());
                Ok(b)
            },
            Err(e) => Err(e),
        }
    }

    /// Ends the open tag of the index word of `req` and answers the tag, of
    /// the size that `mode` fixes. Refused before the engine is called: a
    /// request under four bytes (`Internal`), an index past the table
    /// (`OutOfRange`), a free slot (`InvalidArgument`). Otherwise the engine
    /// is called once and its answer is the result: a finished tag frees its
    /// slot, a failed one stays open. The response buffer must hold the tag
    /// of an open slot.
    pub fn finalize<'a, E: HmacEngine<Context = C>>(
        &mut self,
        engine: &mut E,
        mode: HmacMode,
        req: &[u8],
        rsp: &'a mut [u8],
    ) -> (r: Result<&'a [u8], Error>)
        requires
            old(self).wf(),
            req@.len() >= 4 && from_le32(req@.subrange(0, 4)) < N && old(self)@[from_le32(
                req@.subrange(0, 4),
            ) as int] is Some ==> old(rsp)@.len() >= 4 * spec_tag_words(mode),
        ensures
            final(self).wf(),
            req@.len() < 4 ==> r == Err::<&[u8], Error>(Error::Internal) && final(self)@ == old(self)@
                && final(engine).calls() == old(engine).calls(),
            req@.len() >= 4 ==> ({
                let i = from_le32(req@.subrange(0, 4));
                let len = 4 * spec_tag_words(mode);
                &&& i >= N ==> r == Err::<&[u8], Error>(Error::OutOfRange) && final(self)@ == old(self)@
                    && final(engine).calls() == old(engine).calls()
                &&& i < N && old(self)@[i as int] is None ==> r == Err::<&[u8], Error>(Error::InvalidArgument)
                    && final(self)@ == old(self)@ && final(engine).calls() == old(engine).calls()
                &&& i < N && old(self)@[i as int] is Some ==> {
                    let c = old(self)@[i as int]->0;
                    &&& final(engine).calls() == old(engine).calls().push(
                        HmacCall::Final(len as nat, spec_status(r)),
                    )
                    &&& r matches Ok(b) ==> {
                        &&& b@ == final(rsp)@.take(len)
                        &&& b@ == E::spec_tag(E::spec_key(c).0, E::spec_key(c).1, E::spec_absorbed(c), len as nat)
                        &&& final(self)@ == old(self)@.update(i as int, None)
                    }
                    &&& r is Err ==> final(self)@[i as int] is Some && final(self)@ == old(self)@.update(
                        i as int,
                        final(self)@[i as int],
                    )
                }
            }),
    {
        let words = tag_words(mode);
        let (index, _) = match request_index(req) {
            Ok(x) => x,
            Err(e) => return Err(e),
        };
        let mut context = match self.table.take(index) {
            Ok(c) => c,
            Err(e) => return Err(e),
        };
        let len = 4 * words;
        let (tag, _) = rsp.split_at_mut(len);
        let result = engine.hmac_final(&mut context, tag);
        match result {
            Ok(u) => {
                assert(result == Ok::<(), Error>(u) && u == ());
            },
            Err(e) => {
                self.table.put(index, context);
                return Err(e);
            },
        }
        let out: &'a [u8] = rsp;
        let b = vstd::slice::slice_subrange(out, 0, len);
        assert(b@ =~= out@.take(len as int));
        Ok(b)
    }
}

/// One call made on the asymmetric handlers: the opcode and the request
/// after it, and the answer: the response bytes, or the error.
pub enum AsymmetricCall {
    KeyPairGen(Opcode, Seq<u8>, Result<Seq<u8>, Error>),
    Sign(Opcode, Seq<u8>, Result<Seq<u8>, Error>),
    Verify(Opcode, Seq<u8>, Result<Seq<u8>, Error>),
}

/// The answer of a handler that wrote `n` bytes at the start of `rsp`, or
/// failed.
pub open spec fn spec_written(r: Result<usize, Error>, rsp: Seq<u8>) -> Result<Seq<u8>, Error> {
    match r {
        Ok(n) => Ok(rsp.take(n as int)),
        Err(e) => Err(e),
    }
}

/// The key generation, signing and verification handlers of the crypto
/// hardware, which read and write its key records. Each writes its answer at
/// the start of the response buffer and returns its length.
pub trait AsymmetricEngine {
    /// The record of the calls made on the handlers, oldest first.
    open spec fn calls(&self) -> Seq<AsymmetricCall> {
        Seq::empty()
    }

    /// Generates a key pair.
    fn key_pair_gen(&mut self, op: Opcode, req: &[u8], rsp: &mut [u8]) -> (r: Result<usize, Error>)
        ensures
            final(rsp)@.len() == old(rsp)@.len(),
            r matches Ok(n) ==> n <= old(rsp)@.len(),
            final(self).calls() == old(self).calls().push(
                AsymmetricCall::KeyPairGen(op, req@, spec_written(r, final(rsp)@)),
            ),
    ;

    /// Signs a digest.
    fn sign(&mut self, op: Opcode, req: &[u8], rsp: &mut [u8]) -> (r: Result<usize, Error>)
        ensures
            final(rsp)@.len() == old(rsp)@.len(),
            r matches Ok(n) ==> n <= old(rsp)@.len(),
            final(self).calls() == old(self).calls().push(AsymmetricCall::Sign(op, req@, spec_written(r, final(rsp)@))),
    ;

    /// Verifies a signature.
    fn verify(&mut self, op: Opcode, req: &[u8], rsp: &mut [u8]) -> (r: Result<usize, Error>)
        ensures
            final(rsp)@.len() == old(rsp)@.len(),
            r matches Ok(n) ==> n <= old(rsp)@.len(),
            final(self).calls() == old(self).calls().push(
                AsymmetricCall::Verify(op, req@, spec_written(r, final(rsp)@)),
            ),
    ;
}

/// The crypto server: the open digests and tags between requests.
pub struct Server<D, H> {
    digest: Sha2Contexts<D, 4>,
    hmac: HmacContexts<H, 4>,
}

impl<D, H> Server<D, H> {
    /// The open digests.
    pub closed spec fn spec_digests(&self) -> Seq<Option<D>> {
        self.digest@
    }

    /// The open tags.
    pub closed spec fn spec_tags(&self) -> Seq<Option<H>> {
        self.hmac@
    }

    /// Both tables have their slots.
    pub closed spec fn wf(&self) -> bool {
        self.digest.wf() && self.hmac.wf()
    }

    /// A server with nothing open.
    pub fn new() -> (r: Self)
        ensures
            r.wf(),
            r.spec_digests() == Seq::new(4, |i: int| None::<D>),
            r.spec_tags() == Seq::new(4, |i: int| None::<H>),
    {
        Server { digest: Sha2Contexts::new(), hmac: HmacContexts::new() }
    }

    /// Runs one request: an opcode word, then what the operation reads.
    /// A request under four bytes is refused with `Internal`, an opcode
    /// without an operation with `Unknown`, neither calling anything. Key
    /// generation, signing and verification go to the asymmetric handlers
    /// with the rest of the request; the digest steps go to the open digests
    /// as `spec_digest_init`, `spec_digest_update` and `spec_digest_final`
    /// say. Nothing else is touched.
    pub fn exec<'a, E: Sha2Engine<Context = D>, A: AsymmetricEngine>(
        &mut self,
        engine: &mut E,
        asym: &mut A,
        req: &[u8],
        rsp: &'a mut [u8],
    ) -> (r: Result<&'a [u8], Error>)
        requires
            old(self).wf(),
        ensures
            final(self).wf(),
            final(self).spec_tags() == old(self).spec_tags(),
            req@.len() < 4 ==> r == Err::<&[u8], Error>(Error::Internal) && *final(self) == *old(self)
                && final(engine).calls() == old(engine).calls() && final(asym).calls() == old(asym).calls(),
            req@.len() >= 4 ==> ({
                let op = Opcode::spec_from_word(from_le32(req@.subrange(0, 4)));
                let rest = req@.skip(4);
                let d0 = old(self).spec_digests();
                let d1 = final(self).spec_digests();
                let e0 = old(engine).calls();
                let e1 = final(engine).calls();
                let a0 = old(asym).calls();
                let a1 = final(asym).calls();
                match spec_route(op.spec_class(), op.spec_op()) {
                    Route::KeyPairGen => a1 == a0.push(AsymmetricCall::KeyPairGen(op, rest, spec_answer(r)))
                        && d1 == d0 && e1 == e0,
                    Route::Sign => a1 == a0.push(AsymmetricCall::Sign(op, rest, spec_answer(r))) && d1 == d0
                        && e1 == e0,
                    Route::Verify => a1 == a0.push(AsymmetricCall::Verify(op, rest, spec_answer(r))) && d1 == d0
                        && e1 == e0,
                    Route::DigestInit => a1 == a0 && spec_digest_init::<E>(4, d0, d1, e0, e1, op, old(rsp)@,
                        final(rsp)@, spec_answer(r)),
                    Route::DigestUpdate => a1 == a0 && spec_digest_update::<E>(4, d0, d1, e0, e1, rest, spec_answer(r)),
                    Route::DigestFinal => a1 == a0 && spec_digest_final::<E>(4, d0, d1, e0, e1, op, rest, old(rsp)@,
                        final(rsp)@, spec_answer(r)),
                    Route::Unknown => r == Err::<&[u8], Error>(Error::Unknown) && d1 == d0 && e1 == e0 && a1 == a0,
                }
            }),
    {
        let op = match Opcode::read_from_prefix(req) {
            Ok(op) => op,
            Err(()) => return Err(Error::Internal),
        };
        proof {
            Opcode::lemma_from_word(from_le32(req@.subrange(0, 4)));
        }
        let rest = vstd::slice::slice_subrange(req, 4, req.len());
        assert(rest@ =~= req@.skip(4));
        match route(op) {
            Route::KeyPairGen => {
                let n = asym.key_pair_gen(op, rest, rsp);
                answer(n, rsp)
            },
            Route::Sign => {
                let n = asym.sign(op, rest, rsp);
                answer(n, rsp)
            },
            Route::Verify => {
                let n = asym.verify(op, rest, rsp);
                answer(n, rsp)
            },
            Route::DigestInit => self.digest.init(engine, op, rsp),
            Route::DigestUpdate => self.digest.update(engine, rest, rsp),
            Route::DigestFinal => self.digest.finalize(engine, op, rest, rsp),
            Route::Unknown => Err(Error::Unknown),
        }
    }
}

impl<D, H> Default for Server<D, H> {
    fn default() -> (r: Self)
        ensures
            r.wf(),
            r.spec_digests() == Seq::new(4, |i: int| None::<D>),
            r.spec_tags() == Seq::new(4, |i: int| None::<H>),
    {
        Self::new()
    }
}

/// The first `n` bytes of `rsp` where a handler answered `n`, or its error.
fn answer<'a>(n: Result<usize, Error>, rsp: &'a [u8]) -> (r: Result<&'a [u8], Error>)
    requires
        n matches Ok(k) ==> k <= rsp@.len(),
    ensures
        spec_answer(r) == spec_written(n, rsp@),
{
    match n {
        Ok(k) => {
            let b = vstd::slice::slice_subrange(rsp, 0, k);
            assert(b@ =~= rsp@.take(k as int));
            Ok(b)
        },
        Err(e) => Err(e),
    }
}

/// The digest-final opcode of a class finishes the hash that the
/// digest-init opcode of the same class starts: one is accepted exactly when
/// the other is, and the answer is that hash's whole output, in 32-bit
/// words (8 for SHA2-256, 12 for SHA2-384, 16 for SHA2-512).
pub proof fn lemma_final_words_match_init(init: Opcode, fin: Opcode)
    requires
        init.spec_class() == fin.spec_class(),
        init.spec_op() == 0x4e49,
        fin.spec_op() == 0x4946,
    ensures
        spec_final_digest_words(fin) is Ok <==> spec_init_hash_mode(init) is Ok,
        spec_init_hash_mode(init) matches Ok(m) ==> spec_final_digest_words(fin) == Ok::<usize, Error>(
            (m.spec_output_bits() / 32) as usize,
        ),
{
}

/// The digest opcodes are "S2", "S3" and "S5" (SHA2-256, SHA2-384,
/// SHA2-512) with "IN" to start: the mode started is the one whose digits
/// the class names, and the opcodes of the standard table start them.
pub proof fn lemma_init_modes_by_class(op: Opcode)
    ensures
        spec_init_hash_mode(op) is Ok ==> op.spec_op() == 0x4e49 && op.spec_class() % 256 == 0x53,
        spec_init_hash_mode(op) matches Ok(m) ==> m.spec_output_bits() == (match op.spec_class() / 256 {
            0x32 => 256int,
            0x33 => 384int,
            _ => 512int,
        }) && (op.spec_class() / 256 == 0x32 || op.spec_class() / 256 == 0x33 || op.spec_class() / 256 == 0x35),
{
}

impl HmacMode {
    /// The hash under the tag.
    pub open spec fn spec_hash(self) -> HashMode {
        match self {
            HmacMode::Sha256 => HashMode::Sha256,
            HmacMode::Sha384 => HashMode::Sha384,
            HmacMode::Sha512 => HashMode::Sha512,
        }
    }
}

/// An HMAC tag is the whole output of its hash: 32 bits per word of
/// `tag_words`, so 32 bytes for SHA-256, 48 for SHA-384, 64 for SHA-512.
pub proof fn lemma_tag_is_hash_output(mode: HmacMode)
    ensures
        32 * spec_tag_words(mode) == mode.spec_hash().spec_output_bits(),
{
}

/// The size in bits of the keys of an algorithm class: the curve or
/// modulus size that the class names, or 0 for a class without keys.
pub open spec fn class_key_bits(class: u16) -> int {
    if class == Opcode::CLASS_ECDSA_P256 || class == Opcode::CLASS_DICE_P256 || class == Opcode::CLASS_ECDH_P256 {
        256
    } else if class == Opcode::CLASS_ECDSA_P384 || class == Opcode::CLASS_ECDH_P384 {
        384
    } else if class == Opcode::CLASS_ED25519 || class == Opcode::CLASS_X25519 {
        256
    } else if class == Opcode::CLASS_RSA2048 {
        2048
    } else if class == Opcode::CLASS_RSA3072 {
        3072
    } else if class == Opcode::CLASS_RSA4096 {
        4096
    } else {
        0
    }
}

/// The key sizes of a class follow from its key size in bits: the private
/// key is that many bits; an elliptic-curve public key is a point, twice
/// the private size; an RSA public key is the modulus, the private size,
/// and its blinded form is three times that. Classes without keys have no
/// sizes.
pub proof fn lemma_keysize_by_bits(class: u16)
    ensures
        spec_keysize(class) is Some <==> class_key_bits(class) > 0,
        spec_keysize(class) matches Some((public, private, blinded)) ==> {
            &&& 8 * private == class_key_bits(class)
            &&& private < blinded
            &&& if class_key_bits(class) >= 2048 {
                public == private && blinded == 3 * private
            } else {
                public == 2 * private
            }
        },
{
}

} // verus!
