//! The TPM's deterministic random bit generator: a counter and a seed, both
//! hashed with SHA-256 into each 32-byte block of output.

use vstd::prelude::*;

use crate::bytes::{le32, u32_to_le, write_bytes};
use crate::status::Error;

verus! {

/// The little-endian bytes of a 64-bit value.
pub open spec fn le64(v: u64) -> Seq<u8> {
    le32((v % 0x1_0000_0000) as u32) + le32((v / 0x1_0000_0000) as u32)
}

/// The little-endian bytes of a 64-bit value.
pub fn u64_to_le(v: u64) -> (r: Vec<u8>)
    ensures
        r@ == le64(v),
{
    assert((v & 0xffff_ffffu64) == v % 0x1_0000_0000 && (v >> 32u64) == v / 0x1_0000_0000) by (bit_vector);
    let lo = u32_to_le((v & 0xffff_ffff) as u32);
    let hi = u32_to_le((v >> 32) as u32);
    let r: Vec<u8> = vec![lo[0], lo[1], lo[2], lo[3], hi[0], hi[1], hi[2], hi[3]];
    assert(r@ =~= le64(v));
    r
}

/// One SHA-256 computation made through a hasher: the bytes hashed, and
/// the digest or the error.
pub struct HashCall {
    pub input: Seq<u8>,
    pub result: Result<Seq<u8>, Error>,
}

/// SHA-256 through the crypto service.
pub trait Sha256Hasher {
    /// The SHA-256 digest of `data`.
    open spec fn spec_sha256(data: Seq<u8>) -> Seq<u8> {
        Seq::new(32, |i: int| 0u8)
    }

    /// The record of the computations made, oldest first.
    open spec fn calls(&self) -> Seq<HashCall> {
        Seq::empty()
    }

    /// The SHA-256 digest of `data`.
    fn sha256(&mut self, data: &[u8]) -> (r: Result<[u8; 32], Error>)
        ensures
            r matches Ok(d) ==> d@ == Self::spec_sha256(data@),
            final(self).calls() == old(self).calls().push(
                HashCall {
                    input: data@,
                    result: match r {
                        Ok(d) => Ok(d@),
                        Err(e) => Err(e),
                    },
                },
            ),
    ;
}

/// The 32 bytes of a digest.
pub open spec fn block(d: Seq<u8>) -> Seq<u8> {
    Seq::new(32, |i: int| d[i])
}

/// What is hashed for the output block of counter value `counter`.
pub open spec fn block_input(counter: u64, seed: Seq<u8>) -> Seq<u8> {
    le64(counter) + seed
}

/// The successful computation of the output block of counter `counter`.
pub open spec fn block_call<H: Sha256Hasher>(counter: u64, seed: Seq<u8>) -> HashCall {
    HashCall {
        input: block_input(counter, seed),
        result: Ok(H::spec_sha256(block_input(counter, seed))),
    }
}

/// The first `j` output blocks after counter `c0`: the digests for counter
/// values `c0 + 1` to `c0 + j`, one after the other.
pub open spec fn spec_stream<H: Sha256Hasher>(c0: u64, seed: Seq<u8>, j: nat) -> Seq<u8>
    decreases j,
{
    if j == 0 {
        Seq::empty()
    } else {
        spec_stream::<H>(c0, seed, (j - 1) as nat) + block(H::spec_sha256(block_input((c0 + j) as u64, seed)))
    }
}

/// The successful computations of the first `j` blocks after counter `c0`.
pub open spec fn stream_calls<H: Sha256Hasher>(c0: u64, seed: Seq<u8>, j: nat) -> Seq<HashCall> {
    Seq::new(j, |i: int| block_call::<H>((c0 + i + 1) as u64, seed))
}

/// The number of 32-byte blocks that cover `len` bytes.
pub open spec fn blocks(len: int) -> int {
    (len + 31) / 32
}

/// `j` blocks are `32 * j` bytes.
proof fn lemma_stream_len<H: Sha256Hasher>(c0: u64, seed: Seq<u8>, j: nat)
    ensures
        spec_stream::<H>(c0, seed, j).len() == 32 * j,
    decreases j,
{
    if j > 0 {
        lemma_stream_len::<H>(c0, seed, (j - 1) as nat);
    }
}

/// The generator: the count of blocks produced and the seed.
pub struct FakeDrbg {
    counter: u64,
    seed: [u8; 32],
}

impl FakeDrbg {
    /// The count of blocks produced.
    pub closed spec fn spec_counter(&self) -> u64 {
        self.counter
    }

    /// The seed.
    pub closed spec fn spec_seed(&self) -> Seq<u8> {
        self.seed@
    }

    /// A generator with counter 0 and a zero seed.
    pub fn new() -> (r: Self)
        ensures
            r.spec_counter() == 0,
            r.spec_seed() == Seq::new(32, |i: int| 0u8),
    {
        let r = FakeDrbg { counter: 0, seed: [0u8; 32] };
        assert(r.seed@ =~= Seq::new(32, |i: int| 0u8));
        r
    }

    /// The count of blocks produced.
    pub fn counter(&self) -> (r: u64)
        ensures
            r == self.spec_counter(),
    {
        self.counter
    }

    /// The seed.
    pub fn seed(&self) -> (r: [u8; 32])
        ensures
            r@ == self.spec_seed(),
    {
        self.seed
    }

    /// Seeds the generator with the digest of `seed`, `purpose`, `name` and
    /// `additional`, one after the other, and resets the counter; a failed
    /// digest leaves the generator as it was.
    pub fn init<H: Sha256Hasher>(
        &mut self,
        hasher: &mut H,
        seed: &[u8],
        purpose: &[u8],
        name: &[u8],
        additional: &[u8],
    ) -> (r: Result<(), Error>)
        requires
            seed@.len() + purpose@.len() + name@.len() + additional@.len() <= usize::MAX,
        ensures
            ({
                let input = seed@ + purpose@ + name@ + additional@;
                &&& final(hasher).calls().len() == old(hasher).calls().len() + 1
                &&& final(hasher).calls().take(old(hasher).calls().len() as int) == old(hasher).calls()
                &&& final(hasher).calls().last().input == input
                &&& match final(hasher).calls().last().result {
                    Ok(d) => r is Ok && final(self).spec_counter() == 0 && final(self).spec_seed() == d
                        && d == H::spec_sha256(input),
                    Err(e) => r == Err::<(), Error>(e) && *final(self) == *old(self),
                }
            }),
    {
        let mut all: Vec<u8> = Vec::new();
        append(&mut all, seed);
        append(&mut all, purpose);
        append(&mut all, name);
        append(&mut all, additional);
        let ghost before = hasher.calls();
        let res = hasher.sha256(all.as_slice());
        assert(hasher.calls().take(before.len() as int) =~= before);
        match res {
            Ok(d) => {
                self.counter = 0;
                self.seed = d;
                Ok(())
            },
            Err(e) => Err(e),
        }
    }

    /// Replaces the seed with the digest of `data`; a failed digest leaves
    /// the generator as it was.
    pub fn additional_data<H: Sha256Hasher>(&mut self, hasher: &mut H, data: &[u8]) -> (r: Result<(), Error>)
        ensures
            final(hasher).calls().len() == old(hasher).calls().len() + 1,
            final(hasher).calls().take(old(hasher).calls().len() as int) == old(hasher).calls(),
            final(hasher).calls().last().input == data@,
            match final(hasher).calls().last().result {
                Ok(d) => r is Ok && final(self).spec_counter() == old(self).spec_counter() && final(self).spec_seed()
                    == d && d == H::spec_sha256(data@),
                Err(e) => r == Err::<(), Error>(e) && *final(self) == *old(self),
            },
    {
        let ghost before = hasher.calls();
        let res = hasher.sha256(data);
        assert(hasher.calls().take(before.len() as int) =~= before);
        match res {
            Ok(d) => {
                self.seed = d;
                Ok(())
            },
            Err(e) => Err(e),
        }
    }

    /// Fills `data` block by block: for each 32-byte block (the last one
    /// cut short) the counter goes up by one, and the block is the digest of
    /// the counter (eight little-endian bytes) and the seed. At the first
    /// failed digest its error is returned: the blocks before it are
    /// written, the rest of `data` is left as it was.
    pub fn fill_bytes<H: Sha256Hasher>(&mut self, hasher: &mut H, data: &mut [u8]) -> (r: Result<(), Error>)
        requires
            old(self).spec_counter() + blocks(old(data)@.len() as int) <= u64::MAX,
        ensures
            final(data)@.len() == old(data)@.len(),
            final(self).spec_seed() == old(self).spec_seed(),
            ({
                let c0 = old(self).spec_counter();
                let seed = old(self).spec_seed();
                let len = old(data)@.len() as int;
                let calls0 = old(hasher).calls();
                match r {
                    Ok(_) => {
                        let k = blocks(len) as nat;
                        &&& final(self).spec_counter() == c0 + k
                        &&& final(hasher).calls() == calls0 + stream_calls::<H>(c0, seed, k)
                        &&& final(data)@ == spec_stream::<H>(c0, seed, k).take(len)
                    },
                    Err(e) => exists|m: nat| #![trigger stream_calls::<H>(c0, seed, m)] {
                        &&& m < blocks(len)
                        &&& final(self).spec_counter() == c0 + m + 1
                        &&& final(hasher).calls() == (calls0 + stream_calls::<H>(c0, seed, m)).push(
                            HashCall { input: block_input((c0 + m + 1) as u64, seed), result: Err(e) },
                        )
                        &&& final(data)@ == spec_stream::<H>(c0, seed, m) + old(data)@.skip((32 * m) as int)
                    },
                }
            }),
    {
        let ghost c0 = self.counter;
        let ghost seed = self.seed@;
        let ghost calls0 = hasher.calls();
        let ghost d0 = data@;
        let len = data.len();
        let mut pos: usize = 0;
        let ghost mut j: nat = 0;
        while pos < len
            invariant
                d0 == old(data)@,
                c0 == old(self).spec_counter(),
                seed == old(self).spec_seed(),
                calls0 == old(hasher).calls(),
                len == d0.len(),
                data@.len() == len,
                pos <= len,
                pos == 32 * j,
                j <= blocks(len as int),
                c0 + blocks(len as int) <= u64::MAX,
                self.counter == c0 + j,
                self.seed@ == seed,
                hasher.calls() == calls0 + stream_calls::<H>(c0, seed, j),
                data@ == spec_stream::<H>(c0, seed, j) + d0.skip(pos as int),
            decreases len - pos,
        {
            proof {
                lemma_stream_len::<H>(c0, seed, j);
            }
            let res = self.next_block(hasher);
            let d = match res {
                Ok(d) => d,
                Err(e) => {
                    proof {
                        assert(hasher.calls() == (calls0 + stream_calls::<H>(c0, seed, j)).push(
                            HashCall { input: block_input((c0 + j + 1) as u64, seed), result: Err(e) },
                        ));
                        assert(j < blocks(len as int));
                        assert(stream_calls::<H>(c0, seed, j) == stream_calls::<H>(c0, seed, j));
                    }
                    return Err(e);
                },
            };
            let n: usize = if len - pos < 32 {
                len - pos
            } else {
                32
            };
            let all: &[u8] = &d;
            let part = vstd::slice::slice_subrange(all, 0, n);
            write_bytes(data, pos, part);
            proof {
                let b = block(H::spec_sha256(block_input((c0 + j + 1) as u64, seed)));
                assert(b =~= d@);
                assert(stream_calls::<H>(c0, seed, j + 1) =~= stream_calls::<H>(c0, seed, j).push(
                    block_call::<H>((c0 + j + 1) as u64, seed),
                ));
                assert(hasher.calls() =~= calls0 + stream_calls::<H>(c0, seed, j + 1));
                lemma_stream_len::<H>(c0, seed, j + 1);
                if n == 32 {
                    assert(data@ =~= spec_stream::<H>(c0, seed, j + 1) + d0.skip(pos + 32));
                } else {
                    assert(data@ =~= spec_stream::<H>(c0, seed, j + 1).take(len as int));
                }
            }
            pos = pos + n;
            proof {
                j = j + 1;
            }
            if n < 32 {
                assert(j == blocks(len as int));
                return Ok(());
            }
        }
        proof {
            lemma_stream_len::<H>(c0, seed, j);
            assert(j == blocks(len as int));
            assert(data@ =~= spec_stream::<H>(c0, seed, j).take(len as int));
        }
        Ok(())
    }

    /// Counts one more block and hashes the new counter with the seed.
    fn next_block<H: Sha256Hasher>(&mut self, hasher: &mut H) -> (r: Result<[u8; 32], Error>)
        requires
            old(self).spec_counter() < u64::MAX,
        ensures
            final(self).spec_counter() == old(self).spec_counter() + 1,
            final(self).spec_seed() == old(self).spec_seed(),
            final(hasher).calls() == old(hasher).calls().push(
                HashCall {
                    input: block_input(final(self).spec_counter(), old(self).spec_seed()),
                    result: match r {
                        Ok(d) => Ok(d@),
                        Err(e) => Err(e),
                    },
                },
            ),
            r matches Ok(d) ==> d@ == H::spec_sha256(block_input(final(self).spec_counter(), old(self).spec_seed())),
    {
        self.counter = self.counter + 1;
        let mut input = u64_to_le(self.counter);
        let seed_bytes: &[u8] = &self.seed;
        append(&mut input, seed_bytes);
        hasher.sha256(input.as_slice())
    }

    /// Forgets the state: counter 0, zero seed.
    pub fn uninit(&mut self)
        ensures
            final(self).spec_counter() == 0,
            final(self).spec_seed() == Seq::new(32, |i: int| 0u8),
    {
        self.counter = 0;
        self.seed = [0u8; 32];
        assert(self.seed@ =~= Seq::new(32, |i: int| 0u8));
    }
}

/// Appends `b` to `v`.
fn append(v: &mut Vec<u8>, b: &[u8])
    requires
        old(v)@.len() + b@.len() <= usize::MAX,
    ensures
        final(v)@ == old(v)@ + b@,
{
    let mut i: usize = 0;
    while i < b.len()
        invariant
            i <= b@.len(),
            v@ == old(v)@ + b@.take(i as int),
        decreases b@.len() - i,
    {
        v.push(b[i]);
        assert(v@ =~= old(v)@ + b@.take(i + 1));
        i += 1;
    }
    assert(b@.take(i as int) =~= b@);
}

} // verus!
