//! The flash IPC wire format: opcodes, request and response headers, and
//! the payloads of the flash operations. Every structure is a sequence of
//! little-endian 32-bit words.

use vstd::prelude::*;

use crate::bytes::{from_le32, le32, lemma_le32_inverse, lemma_le32_roundtrip, u32_from_le, u32_to_le};

pub mod client;
pub mod server;

verus! {

/// Maximum data bytes carried by a single program or read payload.
pub const FLASH_IPC_MAX_DATA_LEN: usize = 2048;

/// An IPC operation code: four ASCII characters read as a little-endian word.
#[derive(Clone, Copy, PartialEq, Eq, Structural, Debug)]
pub struct Opcode(pub u32);

impl Opcode {
    /// The opcode of four characters.
    pub fn new(code: [u8; 4]) -> (r: Opcode)
        ensures
            r.0 == from_le32(code@),
    {
        let all: &[u8] = &code;
        Opcode(u32_from_le(all, 0))
    }
}

/// IPC opcode for erasing a flash block ("FLET").
#[allow(non_snake_case)]
pub fn IPC_OP_FLASH_ERASE() -> (r: Opcode)
    ensures
        r.0 == 0x5445_4c46,
{
    Opcode(0x5445_4c46)
}

/// IPC opcode for programming flash ("FLWR").
#[allow(non_snake_case)]
pub fn IPC_OP_FLASH_PROGRAM() -> (r: Opcode)
    ensures
        r.0 == 0x5257_4c46,
{
    Opcode(0x5257_4c46)
}

/// IPC opcode for reading from flash ("FLRD").
#[allow(non_snake_case)]
pub fn IPC_OP_FLASH_READ() -> (r: Opcode)
    ensures
        r.0 == 0x4452_4c46,
{
    Opcode(0x4452_4c46)
}

/// IPC opcode for retrieving flash information ("FLIN").
#[allow(non_snake_case)]
pub fn IPC_OP_FLASH_GET_INFO() -> (r: Opcode)
    ensures
        r.0 == 0x4e49_4c46,
{
    Opcode(0x4e49_4c46)
}

/// The encoding of two words.
pub open spec fn words2(a: u32, b: u32) -> Seq<u8> {
    le32(a) + le32(b)
}

/// The encoding of three words.
pub open spec fn words3(a: u32, b: u32, c: u32) -> Seq<u8> {
    le32(a) + le32(b) + le32(c)
}

/// Word `i` of an encoding.
pub open spec fn word(b: Seq<u8>, i: int) -> u32 {
    from_le32(b.subrange(4 * i, 4 * i + 4))
}

/// The words of an encoding of three words are the three words.
pub proof fn lemma_words3(a: u32, b: u32, c: u32)
    ensures
        words3(a, b, c).len() == 12,
        word(words3(a, b, c), 0) == a,
        word(words3(a, b, c), 1) == b,
        word(words3(a, b, c), 2) == c,
        words2(a, b).len() == 8,
        word(words2(a, b), 0) == a,
        word(words2(a, b), 1) == b,
        words3(a, b, c).take(8) == words2(a, b),
{
    lemma_le32_roundtrip(a);
    lemma_le32_roundtrip(b);
    lemma_le32_roundtrip(c);
    assert(words3(a, b, c).subrange(0, 4) =~= le32(a));
    assert(words3(a, b, c).subrange(4, 8) =~= le32(b));
    assert(words3(a, b, c).subrange(8, 12) =~= le32(c));
    assert(words2(a, b).subrange(0, 4) =~= le32(a));
    assert(words2(a, b).subrange(4, 8) =~= le32(b));
    assert(words3(a, b, c).take(8) =~= words2(a, b));
}

/// Twelve bytes are the encoding of their three words.
pub proof fn lemma_words3_inverse(b: Seq<u8>)
    requires
        b.len() == 12,
    ensures
        words3(word(b, 0), word(b, 1), word(b, 2)) == b,
{
    lemma_le32_inverse(b.subrange(0, 4));
    lemma_le32_inverse(b.subrange(4, 8));
    lemma_le32_inverse(b.subrange(8, 12));
    assert(words3(word(b, 0), word(b, 1), word(b, 2)) =~= b);
}

/// Encodes three words.
fn encode_words3(a: u32, b: u32, c: u32) -> (r: [u8; 12])
    ensures
        r@ == words3(a, b, c),
{
    let x = u32_to_le(a);
    let y = u32_to_le(b);
    let z = u32_to_le(c);
    let r: [u8; 12] = [x[0], x[1], x[2], x[3], y[0], y[1], y[2], y[3], z[0], z[1], z[2], z[3]];
    assert(r@ =~= words3(a, b, c));
    r
}

/// Encodes two words.
fn encode_words2(a: u32, b: u32) -> (r: [u8; 8])
    ensures
        r@ == words2(a, b),
{
    let x = u32_to_le(a);
    let y = u32_to_le(b);
    let r: [u8; 8] = [x[0], x[1], x[2], x[3], y[0], y[1], y[2], y[3]];
    assert(r@ =~= words2(a, b));
    r
}

/// Word `i` of the bytes.
fn read_word(b: &[u8], i: usize) -> (r: u32)
    requires
        i < 3,
        4 * i + 4 <= b@.len(),
    ensures
        r == word(b@, i as int),
{
    u32_from_le(b, 4 * i)
}

/// The bytes after the first `n`.
fn rest_after(b: &[u8], n: usize) -> (r: &[u8])
    requires
        n <= b@.len(),
    ensures
        r@ == b@.skip(n as int),
{
    let r = vstd::slice::slice_subrange(b, n, b.len());
    assert(r@ =~= b@.skip(n as int));
    r
}

/// Wire representation of a flash address: device and byte offset.
#[derive(Clone, Copy, PartialEq, Eq, Structural, Debug, Default)]
pub struct WireAddress {
    pub device_id: u32,
    pub offset: u32,
}

impl WireAddress {
    /// The address `offset` on device `device_id`.
    pub fn new(device_id: u32, offset: u32) -> (r: Self)
        ensures
            r == (WireAddress { device_id, offset }),
    {
        WireAddress { device_id, offset }
    }
}

/// Common request header for all flash IPC operations.
#[derive(Clone, Copy, PartialEq, Eq, Structural, Debug)]
pub struct FlashRequestHeader {
    pub opcode: Opcode,
    pub payload_len: u32,
    pub reserved: u32,
}

impl FlashRequestHeader {
    /// The encoded size.
    pub const SIZE: usize = 12;

    /// The encoding: opcode, payload length, reserved word.
    pub open spec fn spec_bytes(&self) -> Seq<u8> {
        words3(self.opcode.0, self.payload_len, self.reserved)
    }

    /// The header that twelve bytes encode.
    pub open spec fn spec_from_bytes(b: Seq<u8>) -> Self {
        FlashRequestHeader { opcode: Opcode(word(b, 0)), payload_len: word(b, 1), reserved: word(b, 2) }
    }

    /// A header for `opcode` with a payload of `payload_len` bytes (kept
    /// modulo 2^32).
    pub fn new(opcode: Opcode, payload_len: usize) -> (r: Self)
        ensures
            r == (FlashRequestHeader { opcode, payload_len: payload_len as u32, reserved: 0 }),
    {
        FlashRequestHeader { opcode, payload_len: payload_len as u32, reserved: 0 }
    }

    /// The payload length in bytes.
    pub fn payload_length(&self) -> (r: usize)
        ensures
            r == self.payload_len,
    {
        self.payload_len as usize
    }

    /// Encodes the header.
    pub fn as_bytes(&self) -> (r: [u8; 12])
        ensures
            r@ == self.spec_bytes(),
    {
        encode_words3(self.opcode.0, self.payload_len, self.reserved)
    }

    /// Decodes a header from the start of `b` and returns it with the bytes
    /// that follow; fails on fewer than twelve bytes.
    pub fn read_from_prefix(b: &[u8]) -> (r: Result<(Self, &[u8]), ()>)
        ensures
            r is Ok <==> b@.len() >= 12,
            r matches Ok((h, rest)) ==> h == Self::spec_from_bytes(b@) && rest@ == b@.skip(12),
    {
        if b.len() < Self::SIZE {
            return Err(());
        }
        let h = FlashRequestHeader {
            opcode: Opcode(read_word(b, 0)),
            payload_len: read_word(b, 1),
            reserved: read_word(b, 2),
        };
        Ok((h, rest_after(b, Self::SIZE)))
    }
}

/// Standard response header for all flash IPC operations.
#[derive(Clone, Copy, PartialEq, Eq, Structural, Debug)]
pub struct FlashResponseHeader {
    pub status: u32,
    pub payload_len: u32,
    pub value: u32,
}

impl FlashResponseHeader {
    /// The encoded size.
    pub const SIZE: usize = 12;

    /// The encoding: status, payload length, value.
    pub open spec fn spec_bytes(&self) -> Seq<u8> {
        words3(self.status, self.payload_len, self.value)
    }

    /// The header that twelve bytes encode.
    pub open spec fn spec_from_bytes(b: Seq<u8>) -> Self {
        FlashResponseHeader { status: word(b, 0), payload_len: word(b, 1), value: word(b, 2) }
    }

    /// A success response with a payload of `payload_len` bytes (kept
    /// modulo 2^32) and a value.
    pub fn success(payload_len: usize, value: u32) -> (r: Self)
        ensures
            r == (FlashResponseHeader { status: 0, payload_len: payload_len as u32, value }),
    {
        FlashResponseHeader { status: 0, payload_len: payload_len as u32, value }
    }

    /// An error response with the raw 32-bit error code and no payload.
    pub fn error(status: u32) -> (r: Self)
        ensures
            r == (FlashResponseHeader { status, payload_len: 0, value: 0 }),
    {
        FlashResponseHeader { status, payload_len: 0, value: 0 }
    }

    /// The payload length in bytes.
    pub fn payload_length(&self) -> (r: usize)
        ensures
            r == self.payload_len,
    {
        self.payload_len as usize
    }

    /// Encodes the header.
    pub fn as_bytes(&self) -> (r: [u8; 12])
        ensures
            r@ == self.spec_bytes(),
    {
        encode_words3(self.status, self.payload_len, self.value)
    }

    /// Decodes a header from the start of `b` and returns it with the bytes
    /// that follow; fails on fewer than twelve bytes.
    pub fn read_from_prefix(b: &[u8]) -> (r: Result<(Self, &[u8]), ()>)
        ensures
            r is Ok <==> b@.len() >= 12,
            r matches Ok((h, rest)) ==> h == Self::spec_from_bytes(b@) && rest@ == b@.skip(12),
    {
        if b.len() < Self::SIZE {
            return Err(());
        }
        let h = FlashResponseHeader { status: read_word(b, 0), payload_len: read_word(b, 1), value: read_word(b, 2) };
        Ok((h, rest_after(b, Self::SIZE)))
    }
}

/// Payload of `Erase` requests.
#[derive(Clone, Copy, PartialEq, Eq, Structural, Debug)]
pub struct FlashEraseRequest {
    pub addr: WireAddress,
    pub size: u32,
}

impl FlashEraseRequest {
    /// The encoded size.
    pub const SIZE: usize = 12;

    /// The encoding: device, offset, size.
    pub open spec fn spec_bytes(&self) -> Seq<u8> {
        words3(self.addr.device_id, self.addr.offset, self.size)
    }

    /// The request that twelve bytes encode.
    pub open spec fn spec_from_bytes(b: Seq<u8>) -> Self {
        FlashEraseRequest { addr: WireAddress { device_id: word(b, 0), offset: word(b, 1) }, size: word(b, 2) }
    }

    /// Encodes the request.
    pub fn as_bytes(&self) -> (r: [u8; 12])
        ensures
            r@ == self.spec_bytes(),
    {
        encode_words3(self.addr.device_id, self.addr.offset, self.size)
    }

    /// Decodes a request from the start of `b` and returns it with the
    /// bytes that follow; fails on fewer than twelve bytes.
    pub fn read_from_prefix(b: &[u8]) -> (r: Result<(Self, &[u8]), ()>)
        ensures
            r is Ok <==> b@.len() >= 12,
            r matches Ok((h, rest)) ==> h == Self::spec_from_bytes(b@) && rest@ == b@.skip(12),
    {
        if b.len() < Self::SIZE {
            return Err(());
        }
        let h = FlashEraseRequest {
            addr: WireAddress { device_id: read_word(b, 0), offset: read_word(b, 1) },
            size: read_word(b, 2),
        };
        Ok((h, rest_after(b, Self::SIZE)))
    }
}

/// Prefix payload of `Program` requests; the data follow it.
#[derive(Clone, Copy, PartialEq, Eq, Structural, Debug)]
pub struct FlashProgramRequest {
    pub addr: WireAddress,
}

impl FlashProgramRequest {
    /// The encoded size.
    pub const SIZE: usize = 8;

    /// The encoding: device, offset.
    pub open spec fn spec_bytes(&self) -> Seq<u8> {
        words2(self.addr.device_id, self.addr.offset)
    }

    /// The request that eight bytes encode.
    pub open spec fn spec_from_bytes(b: Seq<u8>) -> Self {
        FlashProgramRequest { addr: WireAddress { device_id: word(b, 0), offset: word(b, 1) } }
    }

    /// Encodes the request.
    pub fn as_bytes(&self) -> (r: [u8; 8])
        ensures
            r@ == self.spec_bytes(),
    {
        encode_words2(self.addr.device_id, self.addr.offset)
    }

    /// Decodes a request from the start of `b` and returns it with the
    /// bytes that follow (the data); fails on fewer than eight bytes.
    pub fn read_from_prefix(b: &[u8]) -> (r: Result<(Self, &[u8]), ()>)
        ensures
            r is Ok <==> b@.len() >= 8,
            r matches Ok((h, rest)) ==> h == Self::spec_from_bytes(b@) && rest@ == b@.skip(8),
    {
        if b.len() < Self::SIZE {
            return Err(());
        }
        let h = FlashProgramRequest { addr: WireAddress { device_id: read_word(b, 0), offset: read_word(b, 1) } };
        Ok((h, rest_after(b, Self::SIZE)))
    }
}

/// Payload of `Read` requests.
#[derive(Clone, Copy, PartialEq, Eq, Structural, Debug)]
pub struct FlashReadRequest {
    pub addr: WireAddress,
    pub length: u32,
}

impl FlashReadRequest {
    /// The encoded size.
    pub const SIZE: usize = 12;

    /// The encoding: device, offset, length.
    pub open spec fn spec_bytes(&self) -> Seq<u8> {
        words3(self.addr.device_id, self.addr.offset, self.length)
    }

    /// The request that twelve bytes encode.
    pub open spec fn spec_from_bytes(b: Seq<u8>) -> Self {
        FlashReadRequest { addr: WireAddress { device_id: word(b, 0), offset: word(b, 1) }, length: word(b, 2) }
    }

    /// Encodes the request.
    pub fn as_bytes(&self) -> (r: [u8; 12])
        ensures
            r@ == self.spec_bytes(),
    {
        encode_words3(self.addr.device_id, self.addr.offset, self.length)
    }

    /// Decodes a request from the start of `b` and returns it with the
    /// bytes that follow; fails on fewer than twelve bytes.
    pub fn read_from_prefix(b: &[u8]) -> (r: Result<(Self, &[u8]), ()>)
        ensures
            r is Ok <==> b@.len() >= 12,
            r matches Ok((h, rest)) ==> h == Self::spec_from_bytes(b@) && rest@ == b@.skip(12),
    {
        if b.len() < Self::SIZE {
            return Err(());
        }
        let h = FlashReadRequest {
            addr: WireAddress { device_id: read_word(b, 0), offset: read_word(b, 1) },
            length: read_word(b, 2),
        };
        Ok((h, rest_after(b, Self::SIZE)))
    }
}

/// Information about the flash device returned by `GET_INFO`.
#[derive(Clone, Copy, PartialEq, Eq, Structural, Debug)]
pub struct FlashInfo {
    /// The size of a single flash page in bytes.
    pub page_size: u32,
    /// The total size of the flash in bytes.
    pub total_size: u32,
    /// A bitmap of supported erase block sizes.
    pub erasable_sizes_bitmap: u32,
}

impl FlashInfo {
    /// The encoded size.
    pub const SIZE: usize = 12;

    /// The encoding: page size, total size, erase bitmap.
    pub open spec fn spec_bytes(&self) -> Seq<u8> {
        words3(self.page_size, self.total_size, self.erasable_sizes_bitmap)
    }

    /// The information that twelve bytes encode.
    pub open spec fn spec_from_bytes(b: Seq<u8>) -> Self {
        FlashInfo { page_size: word(b, 0), total_size: word(b, 1), erasable_sizes_bitmap: word(b, 2) }
    }

    /// Encodes the information.
    pub fn as_bytes(&self) -> (r: [u8; 12])
        ensures
            r@ == self.spec_bytes(),
    {
        encode_words3(self.page_size, self.total_size, self.erasable_sizes_bitmap)
    }

    /// Decodes the information from the start of `b` and returns it with
    /// the bytes that follow; fails on fewer than twelve bytes.
    pub fn read_from_prefix(b: &[u8]) -> (r: Result<(Self, &[u8]), ()>)
        ensures
            r is Ok <==> b@.len() >= 12,
            r matches Ok((h, rest)) ==> h == Self::spec_from_bytes(b@) && rest@ == b@.skip(12),
    {
        if b.len() < Self::SIZE {
            return Err(());
        }
        let h = FlashInfo {
            page_size: read_word(b, 0),
            total_size: read_word(b, 1),
            erasable_sizes_bitmap: read_word(b, 2),
        };
        Ok((h, rest_after(b, Self::SIZE)))
    }
}

/// Decoding any encoded wire structure gives it back, and its encoding has
/// the structure's size.
pub proof fn lemma_wire_roundtrip(
    req: FlashRequestHeader,
    rsp: FlashResponseHeader,
    erase: FlashEraseRequest,
    program: FlashProgramRequest,
    read: FlashReadRequest,
    info: FlashInfo,
)
    ensures
        req.spec_bytes().len() == 12 && FlashRequestHeader::spec_from_bytes(req.spec_bytes()) == req,
        rsp.spec_bytes().len() == 12 && FlashResponseHeader::spec_from_bytes(rsp.spec_bytes()) == rsp,
        erase.spec_bytes().len() == 12 && FlashEraseRequest::spec_from_bytes(erase.spec_bytes()) == erase,
        program.spec_bytes().len() == 8 && FlashProgramRequest::spec_from_bytes(program.spec_bytes())
            == program,
        read.spec_bytes().len() == 12 && FlashReadRequest::spec_from_bytes(read.spec_bytes()) == read,
        info.spec_bytes().len() == 12 && FlashInfo::spec_from_bytes(info.spec_bytes()) == info,
{
    lemma_words3(req.opcode.0, req.payload_len, req.reserved);
    lemma_words3(rsp.status, rsp.payload_len, rsp.value);
    lemma_words3(erase.addr.device_id, erase.addr.offset, erase.size);
    lemma_words3(program.addr.device_id, program.addr.offset, 0);
    lemma_words3(read.addr.device_id, read.addr.offset, read.length);
    lemma_words3(info.page_size, info.total_size, info.erasable_sizes_bitmap);
}

/// Encoding a decoded header gives the twelve bytes back.
pub proof fn lemma_header_bytes_inverse(b: Seq<u8>)
    requires
        b.len() == 12,
    ensures
        FlashRequestHeader::spec_from_bytes(b).spec_bytes() == b,
        FlashResponseHeader::spec_from_bytes(b).spec_bytes() == b,
{
    lemma_words3_inverse(b);
}

} // verus!
