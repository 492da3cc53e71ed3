//! The client side of the flash IPC protocol: the requests a client sends
//! and the checks of what the server answers to `GET_INFO`.

use vstd::prelude::*;

use crate::flash::server::{
    is_power_of_2, spec_parse_request, CommandView, ErrorCode, PowerOf2Usize, FLASH_GENERIC_INVALID_PAGE_SIZE,
    FLASH_GENERIC_INVALID_SIZE, IPC_ERROR_BAD_REQ_LEN, IPC_ERROR_RSP_BAD_LEN,
};
use crate::flash::{
    lemma_words3, word, FlashEraseRequest, FlashInfo, FlashProgramRequest, FlashReadRequest, FlashRequestHeader,
    Opcode, WireAddress, FLASH_IPC_MAX_DATA_LEN, IPC_OP_FLASH_ERASE, IPC_OP_FLASH_GET_INFO, IPC_OP_FLASH_PROGRAM,
    IPC_OP_FLASH_READ,
};

verus! {

/// The header of a request with opcode word `op` and a payload of `n` bytes.
pub open spec fn spec_header(op: u32, n: u32) -> Seq<u8> {
    FlashRequestHeader { opcode: Opcode(op), payload_len: n, reserved: 0 }.spec_bytes()
}

/// A `GET_INFO` request.
pub open spec fn spec_get_info_request() -> Seq<u8> {
    spec_header(0x4e49_4c46, 0)
}

/// An `ERASE` request.
pub open spec fn spec_erase_request(addr: WireAddress, size: u32) -> Seq<u8> {
    spec_header(0x5445_4c46, 12) + FlashEraseRequest { addr, size }.spec_bytes()
}

/// A `PROGRAM` request.
pub open spec fn spec_program_request(addr: WireAddress, data: Seq<u8>) -> Seq<u8> {
    spec_header(0x5257_4c46, (8 + data.len()) as u32) + FlashProgramRequest { addr }.spec_bytes() + data
}

/// A `READ` request.
pub open spec fn spec_read_request(addr: WireAddress, length: u32) -> Seq<u8> {
    spec_header(0x4452_4c46, 12) + FlashReadRequest { addr, length }.spec_bytes()
}

/// Appends `bytes` to `v`.
fn extend(v: &mut Vec<u8>, bytes: &[u8])
    ensures
        final(v)@ == old(v)@ + bytes@,
{
    let mut i: usize = 0;
    while i < bytes.len()
        invariant
            i <= bytes@.len(),
            v@ == old(v)@ + bytes@.take(i as int),
        decreases bytes@.len() - i,
    {
        v.push(bytes[i]);
        assert(bytes@.take(i + 1) =~= bytes@.take(i as int).push(bytes@[i as int]));
        i += 1;
    }
    assert(bytes@.take(i as int) =~= bytes@);
}

/// The `GET_INFO` request.
pub fn get_info_request() -> (r: [u8; 12])
    ensures
        r@ == spec_get_info_request(),
{
    FlashRequestHeader::new(IPC_OP_FLASH_GET_INFO(), 0).as_bytes()
}

/// The request to erase `size` bytes at `addr` (the size is sent modulo 2^32).
pub fn erase_request(addr: WireAddress, size: PowerOf2Usize) -> (r: Vec<u8>)
    ensures
        r@ == spec_erase_request(addr, size.spec_get() as u32),
{
    let hdr = FlashRequestHeader::new(IPC_OP_FLASH_ERASE(), FlashEraseRequest::SIZE).as_bytes();
    let payload = FlashEraseRequest { addr, size: size.get() as u32 }.as_bytes();
    let mut v: Vec<u8> = Vec::new();
    extend(&mut v, &hdr);
    extend(&mut v, &payload);
    v
}

/// The request to write `data` at `addr`; more than
/// `FLASH_IPC_MAX_DATA_LEN` bytes are refused.
pub fn program_request(addr: WireAddress, data: &[u8]) -> (r: Result<Vec<u8>, ErrorCode>)
    ensures
        r is Err <==> data@.len() > FLASH_IPC_MAX_DATA_LEN,
        r matches Err(e) ==> e == ErrorCode(IPC_ERROR_BAD_REQ_LEN),
        r matches Ok(v) ==> v@ == spec_program_request(addr, data@),
{
    if data.len() > FLASH_IPC_MAX_DATA_LEN {
        return Err(ErrorCode(IPC_ERROR_BAD_REQ_LEN));
    }
    let hdr = FlashRequestHeader::new(IPC_OP_FLASH_PROGRAM(), FlashProgramRequest::SIZE + data.len()).as_bytes();
    let prefix = FlashProgramRequest { addr }.as_bytes();
    let mut v: Vec<u8> = Vec::new();
    extend(&mut v, &hdr);
    extend(&mut v, &prefix);
    extend(&mut v, data);
    Ok(v)
}

/// The request to read `length` bytes at `addr`; more than
/// `FLASH_IPC_MAX_DATA_LEN` bytes are refused.
pub fn read_request(addr: WireAddress, length: usize) -> (r: Result<Vec<u8>, ErrorCode>)
    ensures
        r is Err <==> length > FLASH_IPC_MAX_DATA_LEN,
        r matches Err(e) ==> e == ErrorCode(IPC_ERROR_BAD_REQ_LEN),
        r matches Ok(v) ==> v@ == spec_read_request(addr, length as u32),
{
    if length > FLASH_IPC_MAX_DATA_LEN {
        return Err(ErrorCode(IPC_ERROR_BAD_REQ_LEN));
    }
    let hdr = FlashRequestHeader::new(IPC_OP_FLASH_READ(), FlashReadRequest::SIZE).as_bytes();
    let payload = FlashReadRequest { addr, length: length as u32 }.as_bytes();
    let mut v: Vec<u8> = Vec::new();
    extend(&mut v, &hdr);
    extend(&mut v, &payload);
    Ok(v)
}

/// The geometry that a successful `GET_INFO` answer with a payload of
/// `payload_len` bytes reports: total size, page size and erase bitmap. A
/// payload shorter than the information, a page size that is not a power of
/// two, or a total size of zero is refused, in that order.
pub fn geometry_from_info(payload_len: usize, info: &FlashInfo) -> (r: Result<(usize, PowerOf2Usize, u32), ErrorCode>)
    ensures
        payload_len < 12 ==> r == Err::<(usize, PowerOf2Usize, u32), ErrorCode>(ErrorCode(IPC_ERROR_RSP_BAD_LEN)),
        payload_len >= 12 && !is_power_of_2(info.page_size as usize) ==> r == Err::<
            (usize, PowerOf2Usize, u32),
            ErrorCode,
        >(ErrorCode(FLASH_GENERIC_INVALID_PAGE_SIZE)),
        payload_len >= 12 && is_power_of_2(info.page_size as usize) && info.total_size == 0 ==> r == Err::<
            (usize, PowerOf2Usize, u32),
            ErrorCode,
        >(ErrorCode(FLASH_GENERIC_INVALID_SIZE)),
        r matches Ok((total, page, bitmap)) ==> payload_len >= 12 && total == info.total_size && total != 0
            && page.spec_get() == info.page_size && page.wf() && bitmap == info.erasable_sizes_bitmap,
        (payload_len >= 12 && is_power_of_2(info.page_size as usize) && info.total_size != 0) ==> r is Ok,
{
    if payload_len < FlashInfo::SIZE {
        return Err(ErrorCode(IPC_ERROR_RSP_BAD_LEN));
    }
    let page_size = match PowerOf2Usize::new(info.page_size as usize) {
        Some(p) => p,
        None => return Err(ErrorCode(FLASH_GENERIC_INVALID_PAGE_SIZE)),
    };
    if info.total_size == 0 {
        return Err(ErrorCode(FLASH_GENERIC_INVALID_SIZE));
    }
    Ok((info.total_size as usize, page_size, info.erasable_sizes_bitmap))
}

/// The server decodes each request a client builds to the operation it was
/// built for: `GET_INFO`; an erase of a power-of-two size below 2^32 at the
/// address; a write of the data (within the data limit) at the address; a
/// read of the length (within the data limit and the response room) at the
/// address.
pub proof fn lemma_client_requests_parse(addr: WireAddress, size: u32, data: Seq<u8>, length: u32, out_cap: int)
    ensures
        spec_parse_request(spec_get_info_request(), out_cap) == Ok::<CommandView, u32>(CommandView::GetInfo),
        is_power_of_2(size as usize) ==> spec_parse_request(spec_erase_request(addr, size), out_cap) == Ok::<
            CommandView,
            u32,
        >(CommandView::Erase(addr, size as usize)),
        data.len() <= FLASH_IPC_MAX_DATA_LEN ==> spec_parse_request(spec_program_request(addr, data), out_cap)
            == Ok::<CommandView, u32>(CommandView::Program(addr, data)),
        length <= FLASH_IPC_MAX_DATA_LEN && length <= out_cap ==> spec_parse_request(
            spec_read_request(addr, length),
            out_cap,
        ) == Ok::<CommandView, u32>(CommandView::Read(addr, length as usize)),
{
    lemma_words3(0x4e49_4c46, 0, 0);
    lemma_words3(0x5445_4c46, 12, 0);
    lemma_words3(addr.device_id, addr.offset, size);
    lemma_words3(0x4452_4c46, 12, 0);
    lemma_words3(addr.device_id, addr.offset, length);
    assert(spec_get_info_request().skip(12).take(0) =~= Seq::<u8>::empty());
    let e = spec_erase_request(addr, size);
    assert(e.skip(12).take(12) =~= FlashEraseRequest { addr, size }.spec_bytes());
    assert(e.take(12) =~= spec_header(0x5445_4c46, 12));
    let rd = spec_read_request(addr, length);
    assert(rd.skip(12).take(12) =~= FlashReadRequest { addr, length }.spec_bytes());
    assert(rd.take(12) =~= spec_header(0x4452_4c46, 12));
    if data.len() <= FLASH_IPC_MAX_DATA_LEN {
        let n = (8 + data.len()) as u32;
        lemma_words3(0x5257_4c46, n, 0);
        lemma_words3(addr.device_id, addr.offset, 0);
        let p = spec_program_request(addr, data);
        assert(p.take(12) =~= spec_header(0x5257_4c46, n));
        let payload = p.skip(12).take(n as int);
        assert(payload =~= FlashProgramRequest { addr }.spec_bytes() + data);
        assert(payload.skip(8) =~= data);
        assert(payload.subrange(0, 4) =~= FlashProgramRequest { addr }.spec_bytes().subrange(0, 4));
        assert(payload.subrange(4, 8) =~= FlashProgramRequest { addr }.spec_bytes().subrange(4, 8));
    }
}

/// The ASCII name of a request's operation, as its first four bytes.
pub open spec fn ascii4(a: u8, b: u8, c: u8, d: u8) -> Seq<u8> {
    seq![a, b, c, d]
}

/// Every request a client builds starts with the four ASCII characters of
/// its operation ("FLIN", "FLET", "FLWR", "FLRD"), then the length of the
/// payload that follows the 12-byte header as the second little-endian
/// word, then 0; an erase or read payload is the device, the offset and the
/// size or length, and a program payload is the device and the offset
/// followed by the data.
pub proof fn lemma_client_request_layout(addr: WireAddress, size: u32, data: Seq<u8>, length: u32)
    requires
        data.len() <= FLASH_IPC_MAX_DATA_LEN,
    ensures
        ({
            let g = spec_get_info_request();
            &&& g.take(4) == ascii4(0x46, 0x4c, 0x49, 0x4e)
            &&& g.len() == 12 && word(g, 1) as int == g.len() - 12 && word(g, 2) == 0
        }),
        ({
            let e = spec_erase_request(addr, size);
            &&& e.take(4) == ascii4(0x46, 0x4c, 0x45, 0x54)
            &&& e.len() == 24 && word(e, 1) as int == e.len() - 12 && word(e, 2) == 0
            &&& word(e, 3) == addr.device_id && word(e, 4) == addr.offset && word(e, 5) == size
        }),
        ({
            let p = spec_program_request(addr, data);
            &&& p.take(4) == ascii4(0x46, 0x4c, 0x57, 0x52)
            &&& p.len() == 20 + data.len() && word(p, 1) as int == p.len() - 12 && word(p, 2) == 0
            &&& word(p, 3) == addr.device_id && word(p, 4) == addr.offset
            &&& p.skip(20) == data
        }),
        ({
            let r = spec_read_request(addr, length);
            &&& r.take(4) == ascii4(0x46, 0x4c, 0x52, 0x44)
            &&& r.len() == 24 && word(r, 1) as int == r.len() - 12 && word(r, 2) == 0
            &&& word(r, 3) == addr.device_id && word(r, 4) == addr.offset && word(r, 5) == length
        }),
{
    lemma_words3(0x4e49_4c46, 0, 0);
    lemma_words3(0x5445_4c46, 12, 0);
    lemma_words3(0x4452_4c46, 12, 0);
    lemma_words3(0x5257_4c46, (8 + data.len()) as u32, 0);
    lemma_words3(addr.device_id, addr.offset, size);
    lemma_words3(addr.device_id, addr.offset, length);
    lemma_words3(addr.device_id, addr.offset, 0);
    let g = spec_get_info_request();
    assert(g.take(4) =~= ascii4(0x46, 0x4c, 0x49, 0x4e));
    let e = spec_erase_request(addr, size);
    let eb = FlashEraseRequest { addr, size }.spec_bytes();
    assert(e.take(4) =~= ascii4(0x46, 0x4c, 0x45, 0x54));
    assert(e.subrange(4, 8) =~= spec_header(0x5445_4c46, 12).subrange(4, 8));
    assert(e.subrange(8, 12) =~= spec_header(0x5445_4c46, 12).subrange(8, 12));
    assert(e.subrange(12, 16) =~= eb.subrange(0, 4));
    assert(e.subrange(16, 20) =~= eb.subrange(4, 8));
    assert(e.subrange(20, 24) =~= eb.subrange(8, 12));
    let r = spec_read_request(addr, length);
    let rb = FlashReadRequest { addr, length }.spec_bytes();
    assert(r.take(4) =~= ascii4(0x46, 0x4c, 0x52, 0x44));
    assert(r.subrange(4, 8) =~= spec_header(0x4452_4c46, 12).subrange(4, 8));
    assert(r.subrange(8, 12) =~= spec_header(0x4452_4c46, 12).subrange(8, 12));
    assert(r.subrange(12, 16) =~= rb.subrange(0, 4));
    assert(r.subrange(16, 20) =~= rb.subrange(4, 8));
    assert(r.subrange(20, 24) =~= rb.subrange(8, 12));
    let n = (8 + data.len()) as u32;
    let p = spec_program_request(addr, data);
    let pb = FlashProgramRequest { addr }.spec_bytes();
    assert(p.take(4) =~= ascii4(0x46, 0x4c, 0x57, 0x52));
    assert(p.subrange(4, 8) =~= spec_header(0x5257_4c46, n).subrange(4, 8));
    assert(p.subrange(8, 12) =~= spec_header(0x5257_4c46, n).subrange(8, 12));
    assert(p.subrange(12, 16) =~= pb.subrange(0, 4));
    assert(p.subrange(16, 20) =~= pb.subrange(4, 8));
    assert(p.skip(20) =~= data);
}

} // verus!
