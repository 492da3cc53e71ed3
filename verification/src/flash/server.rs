//! The flash IPC server: decodes a request, checks it, runs it on a flash
//! device and encodes the response.

use vstd::prelude::*;

use crate::bytes::write_bytes;
use crate::flash::{
    word, FlashEraseRequest, FlashInfo, FlashProgramRequest, FlashReadRequest, FlashRequestHeader,
    FlashResponseHeader, WireAddress, FLASH_IPC_MAX_DATA_LEN,
};

verus! {

/// The request is too short, or its lengths are inconsistent.
pub const IPC_ERROR_BAD_REQ_LEN: u32 = 0x4950_0001;
/// The opcode is not a flash operation.
pub const IPC_ERROR_UNKNOWN_OP: u32 = 0x4950_0002;
/// The response is shorter than it claims.
pub const IPC_ERROR_RSP_BAD_LEN: u32 = 0x4950_0003;
/// An erase size that is not a power of two.
pub const FLASH_GENERIC_ERASE_INVALID_SIZE: u32 = 0x464c_0001;
/// A page size that is not a power of two.
pub const FLASH_GENERIC_INVALID_PAGE_SIZE: u32 = 0x464c_0002;
/// A flash size of zero.
pub const FLASH_GENERIC_INVALID_SIZE: u32 = 0x464c_0003;

/// An error code of the IPC protocol or of a flash device.
#[derive(Clone, Copy, PartialEq, Eq, Structural, Debug)]
pub struct ErrorCode(pub u32);

impl From<ErrorCode> for u32 {
    fn from(err: ErrorCode) -> (r: u32) {
        err.0
    }
}

impl vstd::std_specs::convert::FromSpecImpl<ErrorCode> for u32 {
    open spec fn obeys_from_spec() -> bool {
        true
    }

    open spec fn from_spec(err: ErrorCode) -> u32 {
        err.0
    }
}

/// An error response made from an `ErrorCode`.
pub trait FlashResponseHeaderExt: Sized {
    fn from_error(err: ErrorCode) -> Self;
}

impl FlashResponseHeaderExt for FlashResponseHeader {
    fn from_error(err: ErrorCode) -> (r: Self)
        ensures
            r == (FlashResponseHeader { status: err.0, payload_len: 0, value: 0 }),
    {
        FlashResponseHeader::error(u32::from(err))
    }
}

/// An address on a flash device.
#[derive(Clone, Copy, PartialEq, Eq, Structural, Debug)]
pub struct FlashAddress {
    device_id: u32,
    offset: u32,
}

impl FlashAddress {
    /// The device of the address.
    pub closed spec fn spec_device_id(&self) -> u32 {
        self.device_id
    }

    /// The byte offset on the device.
    pub closed spec fn spec_offset(&self) -> u32 {
        self.offset
    }

    /// The address `offset` on device `device_id`.
    pub fn new(device_id: u32, offset: u32) -> (r: Self)
        ensures
            r.spec_device_id() == device_id,
            r.spec_offset() == offset,
    {
        FlashAddress { device_id, offset }
    }

    /// The device of the address.
    pub fn device_id(&self) -> (r: u32)
        ensures
            r == self.spec_device_id(),
    {
        self.device_id
    }

    /// The byte offset on the device.
    pub fn offset(&self) -> (r: u32)
        ensures
            r == self.spec_offset(),
    {
        self.offset
    }
}

impl From<FlashAddress> for WireAddress {
    fn from(a: FlashAddress) -> (r: WireAddress) {
        WireAddress::new(a.device_id(), a.offset())
    }
}

impl vstd::std_specs::convert::FromSpecImpl<FlashAddress> for WireAddress {
    open spec fn obeys_from_spec() -> bool {
        true
    }

    open spec fn from_spec(a: FlashAddress) -> WireAddress {
        WireAddress { device_id: a.spec_device_id(), offset: a.spec_offset() }
    }
}

impl From<WireAddress> for FlashAddress {
    fn from(w: WireAddress) -> (r: FlashAddress) {
        FlashAddress::new(w.device_id, w.offset)
    }
}

impl vstd::std_specs::convert::FromSpecImpl<WireAddress> for FlashAddress {
    open spec fn obeys_from_spec() -> bool {
        true
    }

    closed spec fn from_spec(w: WireAddress) -> FlashAddress {
        FlashAddress { device_id: w.device_id, offset: w.offset }
    }
}

/// Converting an address to the wire and back gives it back.
pub proof fn lemma_address_roundtrip(w: WireAddress, a: FlashAddress)
    ensures
        <WireAddress as vstd::std_specs::convert::FromSpec<FlashAddress>>::from_spec(
            <FlashAddress as vstd::std_specs::convert::FromSpec<WireAddress>>::from_spec(w),
        ) == w,
        <FlashAddress as vstd::std_specs::convert::FromSpec<WireAddress>>::from_spec(
            <WireAddress as vstd::std_specs::convert::FromSpec<FlashAddress>>::from_spec(a),
        ) == a,
{
}

/// `v` is a power of two.
pub open spec fn is_power_of_2(v: usize) -> bool {
    v != 0 && v & ((v - 1) as usize) == 0
}

/// A power of two.
#[derive(Clone, Copy, PartialEq, Eq, Structural, Debug)]
pub struct PowerOf2Usize(usize);

impl PowerOf2Usize {
    /// The value.
    pub closed spec fn spec_get(&self) -> usize {
        self.0
    }

    /// Always a power of two.
    pub proof fn lemma_is_power_of_2(&self)
        requires
            self.wf(),
        ensures
            is_power_of_2(self.spec_get()),
    {
    }

    /// The value is a power of two.
    pub closed spec fn wf(&self) -> bool {
        is_power_of_2(self.0)
    }

    /// `v` as a power of two, or `None` where it is not one.
    pub fn new(v: usize) -> (r: Option<Self>)
        ensures
            r is Some <==> is_power_of_2(v),
            r matches Some(p) ==> p.spec_get() == v && p.wf(),
    {
        if v != 0 && (v & (v - 1)) == 0 {
            Some(PowerOf2Usize(v))
        } else {
            None
        }
    }

    /// The value.
    pub fn get(&self) -> (r: usize)
        ensures
            r == self.spec_get(),
    {
        self.0
    }
}

/// A call made on a flash device, with what it was given and what it gave
/// back: the address, then the erase size, the data written or the bytes
/// read, then the device's answer.
pub enum FlashCall {
    Erase(FlashAddress, usize, Result<(), ErrorCode>),
    Program(FlashAddress, Seq<u8>, Result<(), ErrorCode>),
    Read(FlashAddress, Seq<u8>, Result<(), ErrorCode>),
}

/// A flash device.
pub trait Flash {
    /// The record of the erase, program and read calls made on the device,
    /// oldest first.
    open spec fn calls(&self) -> Seq<FlashCall> {
        Seq::empty()
    }

    /// What `geometry` reports: total size, page size and the bitmap of
    /// erasable block sizes.
    open spec fn spec_geometry(&self) -> (usize, usize, u32) {
        (0, 1, 0)
    }

    /// Total size, page size and the bitmap of erasable block sizes.
    fn geometry(&self) -> (r: (usize, PowerOf2Usize, u32))
        ensures
            (r.0, r.1.spec_get(), r.2) == self.spec_geometry(),
    ;

    /// Erases `size` bytes at `start_addr`.
    fn erase(&mut self, start_addr: FlashAddress, size: PowerOf2Usize) -> (r: Result<(), ErrorCode>)
        ensures
            final(self).calls() == old(self).calls().push(FlashCall::Erase(start_addr, size.spec_get(), r)),
    ;

    /// Writes `data` at `start_addr`.
    fn program(&mut self, start_addr: FlashAddress, data: &[u8]) -> (r: Result<(), ErrorCode>)
        ensures
            final(self).calls() == old(self).calls().push(FlashCall::Program(start_addr, data@, r)),
    ;

    /// Fills `buf` from `start_addr`.
    fn read(&mut self, start_addr: FlashAddress, buf: &mut [u8]) -> (r: Result<(), ErrorCode>)
        ensures
            final(buf)@.len() == old(buf)@.len(),
            final(self).calls() == old(self).calls().push(FlashCall::Read(start_addr, final(buf)@, r)),
    ;
}

/// `a` is the address that `w` gives on the wire.
pub open spec fn same_address(a: FlashAddress, w: WireAddress) -> bool {
    a.spec_device_id() == w.device_id && a.spec_offset() == w.offset
}

/// The outcome of a device call: its payload on success, else the error code.
pub open spec fn spec_call_result(res: Result<(), ErrorCode>, payload: Seq<u8>) -> Result<Seq<u8>, u32> {
    match res {
        Ok(_) => Ok(payload),
        Err(e) => Err(e.0),
    }
}

/// The outcome of a checked erase, program or read command whose device
/// call is `call`, or `None` where `call` is not the call that the command
/// makes (same operation, address, size, data and read length).
pub open spec fn spec_call_outcome(cmd: CommandView, call: FlashCall) -> Option<Result<Seq<u8>, u32>> {
    match (cmd, call) {
        (CommandView::Erase(w, size), FlashCall::Erase(a, s, res)) => if same_address(a, w) && s == size {
            Some(spec_call_result(res, Seq::empty()))
        } else {
            None
        },
        (CommandView::Program(w, data), FlashCall::Program(a, d, res)) => if same_address(a, w) && d == data {
            Some(spec_call_result(res, Seq::empty()))
        } else {
            None
        },
        (CommandView::Read(w, n), FlashCall::Read(a, d, res)) => if same_address(a, w) && d.len() == n {
            Some(spec_call_result(res, d))
        } else {
            None
        },
        _ => None,
    }
}

/// A checked flash request.
pub enum FlashCommand<'a> {
    GetInfo,
    Erase { addr: WireAddress, size: PowerOf2Usize },
    Program { addr: WireAddress, data: &'a [u8] },
    Read { addr: WireAddress, length: usize },
}

/// The meaning of a checked request.
pub enum CommandView {
    GetInfo,
    Erase(WireAddress, usize),
    Program(WireAddress, Seq<u8>),
    Read(WireAddress, usize),
}

impl<'a> View for FlashCommand<'a> {
    type V = CommandView;

    open spec fn view(&self) -> CommandView {
        match *self {
            FlashCommand::GetInfo => CommandView::GetInfo,
            FlashCommand::Erase { addr, size } => CommandView::Erase(addr, size.spec_get()),
            FlashCommand::Program { addr, data } => CommandView::Program(addr, data@),
            FlashCommand::Read { addr, length } => CommandView::Read(addr, length),
        }
    }
}

/// What a request decodes to, or the error that refuses it, given room for
/// `out_cap` bytes of response payload. The header is followed by a payload
/// of the length it gives (more bytes may follow and are ignored); GET_INFO
/// carries no payload, ERASE and READ exactly their request, PROGRAM its
/// address and at most `FLASH_IPC_MAX_DATA_LEN` bytes of data; an erase size
/// must be a power of two; a read must fit the data limit and the response.
pub open spec fn spec_parse_request(req: Seq<u8>, out_cap: int) -> Result<CommandView, u32> {
    if req.len() < 12 {
        Err(IPC_ERROR_BAD_REQ_LEN)
    } else {
        let hdr = FlashRequestHeader::spec_from_bytes(req);
        let n = hdr.payload_len as int;
        let rest = req.skip(12);
        if n > rest.len() {
            Err(IPC_ERROR_BAD_REQ_LEN)
        } else {
            let payload = rest.take(n);
            let op = hdr.opcode.0;
            if op == 0x4e49_4c46 {
                if n != 0 {
                    Err(IPC_ERROR_BAD_REQ_LEN)
                } else {
                    Ok(CommandView::GetInfo)
                }
            } else if op == 0x5445_4c46 {
                if n != 12 {
                    Err(IPC_ERROR_BAD_REQ_LEN)
                } else {
                    let e = FlashEraseRequest::spec_from_bytes(payload);
                    if !is_power_of_2(e.size as usize) {
                        Err(FLASH_GENERIC_ERASE_INVALID_SIZE)
                    } else {
                        Ok(CommandView::Erase(e.addr, e.size as usize))
                    }
                }
            } else if op == 0x5257_4c46 {
                if n < 8 {
                    Err(IPC_ERROR_BAD_REQ_LEN)
                } else if n - 8 > FLASH_IPC_MAX_DATA_LEN {
                    Err(IPC_ERROR_BAD_REQ_LEN)
                } else {
                    Ok(CommandView::Program(FlashProgramRequest::spec_from_bytes(payload).addr, payload.skip(8)))
                }
            } else if op == 0x4452_4c46 {
                if n != 12 {
                    Err(IPC_ERROR_BAD_REQ_LEN)
                } else {
                    let r = FlashReadRequest::spec_from_bytes(payload);
                    if r.length > FLASH_IPC_MAX_DATA_LEN || r.length > out_cap {
                        Err(IPC_ERROR_BAD_REQ_LEN)
                    } else {
                        Ok(CommandView::Read(r.addr, r.length as usize))
                    }
                }
            } else {
                Err(IPC_ERROR_UNKNOWN_OP)
            }
        }
    }
}

/// Decodes and checks a request, with room for `out_cap` bytes of response
/// payload.
pub fn parse_request(req: &[u8], out_cap: usize) -> (r: Result<FlashCommand<'_>, ErrorCode>)
    ensures
        match spec_parse_request(req@, out_cap as int) {
            Ok(c) => r matches Ok(cmd) && cmd@ == c,
            Err(e) => r == Err::<FlashCommand<'_>, ErrorCode>(ErrorCode(e)),
        },
{
    let (hdr, rest) = match FlashRequestHeader::read_from_prefix(req) {
        Ok(x) => x,
        Err(_) => return Err(ErrorCode(IPC_ERROR_BAD_REQ_LEN)),
    };
    let payload_len = hdr.payload_length();
    if payload_len > rest.len() {
        return Err(ErrorCode(IPC_ERROR_BAD_REQ_LEN));
    }
    let payload = vstd::slice::slice_subrange(rest, 0, payload_len);
    assert(payload@ =~= req@.skip(12).take(payload_len as int));
    let op = hdr.opcode.0;
    if op == 0x4e49_4c46 {
        if payload_len != 0 {
            return Err(ErrorCode(IPC_ERROR_BAD_REQ_LEN));
        }
        Ok(FlashCommand::GetInfo)
    } else if op == 0x5445_4c46 {
        if payload_len != FlashEraseRequest::SIZE {
            return Err(ErrorCode(IPC_ERROR_BAD_REQ_LEN));
        }
        let (e, _) = match FlashEraseRequest::read_from_prefix(payload) {
            Ok(x) => x,
            Err(_) => return Err(ErrorCode(IPC_ERROR_BAD_REQ_LEN)),
        };
        match PowerOf2Usize::new(e.size as usize) {
            Some(size) => Ok(FlashCommand::Erase { addr: e.addr, size }),
            None => Err(ErrorCode(FLASH_GENERIC_ERASE_INVALID_SIZE)),
        }
    } else if op == 0x5257_4c46 {
        if payload_len < FlashProgramRequest::SIZE {
            return Err(ErrorCode(IPC_ERROR_BAD_REQ_LEN));
        }
        let (p, data) = match FlashProgramRequest::read_from_prefix(payload) {
            Ok(x) => x,
            Err(_) => return Err(ErrorCode(IPC_ERROR_BAD_REQ_LEN)),
        };
        if data.len() > FLASH_IPC_MAX_DATA_LEN {
            return Err(ErrorCode(IPC_ERROR_BAD_REQ_LEN));
        }
        Ok(FlashCommand::Program { addr: p.addr, data })
    } else if op == 0x4452_4c46 {
        if payload_len != FlashReadRequest::SIZE {
            return Err(ErrorCode(IPC_ERROR_BAD_REQ_LEN));
        }
        let (rd, _) = match FlashReadRequest::read_from_prefix(payload) {
            Ok(x) => x,
            Err(_) => return Err(ErrorCode(IPC_ERROR_BAD_REQ_LEN)),
        };
        let length = rd.length as usize;
        if length > FLASH_IPC_MAX_DATA_LEN || length > out_cap {
            return Err(ErrorCode(IPC_ERROR_BAD_REQ_LEN));
        }
        Ok(FlashCommand::Read { addr: rd.addr, length })
    } else {
        Err(ErrorCode(IPC_ERROR_UNKNOWN_OP))
    }
}

/// The response to a request whose operation ended with `outcome`: the
/// payload that a success carries, or the error code.
pub open spec fn spec_response(outcome: Result<Seq<u8>, u32>) -> Seq<u8> {
    match outcome {
        Ok(payload) => FlashResponseHeader {
            status: 0,
            payload_len: payload.len() as u32,
            value: payload.len() as u32,
        }.spec_bytes() + payload,
        Err(e) => FlashResponseHeader { status: e, payload_len: 0, value: 0 }.spec_bytes(),
    }
}

/// The geometry of a flash device as `GET_INFO` reports it: page size,
/// total size (both modulo 2^32) and the erase bitmap.
pub open spec fn spec_info(total_size: usize, page_size: usize, bitmap: u32) -> FlashInfo {
    FlashInfo { page_size: page_size as u32, total_size: total_size as u32, erasable_sizes_bitmap: bitmap }
}

/// Encodes the response to an outcome at the start of `rsp` and returns its
/// length: the header, then for a success the `payload_len` bytes that the
/// operation left at offset 12.
pub fn finish_response(outcome: Result<usize, ErrorCode>, rsp: &mut [u8]) -> (r: usize)
    requires
        old(rsp)@.len() >= 12,
        outcome matches Ok(n) ==> 12 + n <= old(rsp)@.len() && n <= u32::MAX,
    ensures
        final(rsp)@.len() == old(rsp)@.len(),
        r <= old(rsp)@.len(),
        final(rsp)@.take(r as int) == spec_response(
            match outcome {
                Ok(n) => Ok(old(rsp)@.subrange(12, 12 + n)),
                Err(e) => Err(e.0),
            },
        ),
{
    let cap: usize = rsp.len();
    let (hdr, len) = match outcome {
        Ok(n) => (FlashResponseHeader::success(n, n as u32), 12 + n),
        Err(e) => (FlashResponseHeader::error(u32::from(e)), 12),
    };
    let bytes = hdr.as_bytes();
    let ghost d0 = rsp@;
    write_bytes(rsp, 0, &bytes);
    assert(rsp@.take(len as int) =~= spec_response(
        match outcome {
            Ok(n) => Ok(d0.subrange(12, 12 + n)),
            Err(e) => Err(e.0),
        },
    ));
    len
}

/// The `GET_INFO` payload for a device geometry, written at offset 12 of
/// `rsp`; returns its length.
pub fn info_payload(geometry: (usize, PowerOf2Usize, u32), rsp: &mut [u8]) -> (r: usize)
    requires
        old(rsp)@.len() >= 24,
    ensures
        r == 12,
        final(rsp)@.len() == old(rsp)@.len(),
        final(rsp)@.subrange(12, 24) == spec_info(geometry.0, geometry.1.spec_get(), geometry.2).spec_bytes(),
{
    let (total_size, page_size, erasable_sizes_bitmap) = geometry;
    let info = FlashInfo {
        page_size: page_size.get() as u32,
        total_size: total_size as u32,
        erasable_sizes_bitmap,
    };
    let bytes = info.as_bytes();
    write_bytes(rsp, 12, &bytes);
    assert(rsp@.subrange(12, 24) =~= bytes@);
    12
}

/// `resp` answers `req` in a response buffer of `cap` bytes, where the
/// device's record of calls went from `before` to `after`. A refused request
/// gets its error and leaves the device alone; `GET_INFO` makes no erase,
/// program or read call and answers the device's `geometry` (or a refusal
/// where it does not fit); every other request makes exactly the one
/// call that it asks for, and the device's answer to it decides the
/// response: the bytes read, an empty success, or the device's error.
pub open spec fn spec_handled(
    req: Seq<u8>,
    cap: int,
    geometry: (usize, usize, u32),
    before: Seq<FlashCall>,
    after: Seq<FlashCall>,
    resp: Seq<u8>,
) -> bool {
    match spec_parse_request(req, cap - 12) {
        Err(e) => after == before && resp == spec_response(Err(e)),
        Ok(CommandView::GetInfo) => {
            &&& after == before
            &&& if cap < 24 {
                resp == spec_response(Err(IPC_ERROR_BAD_REQ_LEN))
            } else {
                resp == spec_response(Ok(spec_info(geometry.0, geometry.1, geometry.2).spec_bytes()))
            }
        },
        Ok(cmd) => {
            &&& after.len() == before.len() + 1
            &&& after.take(before.len() as int) == before
            &&& match spec_call_outcome(cmd, after.last()) {
                Some(outcome) => resp == spec_response(outcome),
                None => false,
            }
        },
    }
}

/// A flash server around a flash device.
pub struct FlashIpcServer<TFlash: Flash> {
    flash: TFlash,
}

impl<TFlash: Flash> FlashIpcServer<TFlash> {
    /// The device.
    pub closed spec fn spec_flash(&self) -> TFlash {
        self.flash
    }

    /// A server for the device.
    pub fn new(flash: TFlash) -> (r: Self)
        ensures
            r.spec_flash() == flash,
    {
        FlashIpcServer { flash }
    }

    /// The device.
    pub fn flash(&self) -> (r: &TFlash)
        ensures
            *r == self.spec_flash(),
    {
        &self.flash
    }

    /// Runs a checked command on the device, its payload (if any) written at
    /// offset 12 of `rsp`; returns the payload length or the device's error.
    fn run_command(&mut self, cmd: FlashCommand, rsp: &mut [u8]) -> (r: Result<usize, ErrorCode>)
        requires
            old(rsp)@.len() >= 12,
            cmd@ matches CommandView::Read(_, n) ==> 12 + n <= old(rsp)@.len() && n <= FLASH_IPC_MAX_DATA_LEN,
        ensures
            final(rsp)@.len() == old(rsp)@.len(),
            ({
                let before = old(self).spec_flash().calls();
                let after = final(self).spec_flash().calls();
                match cmd@ {
                    CommandView::GetInfo => after == before && if old(rsp)@.len() < 24 {
                        r == Err::<usize, ErrorCode>(ErrorCode(IPC_ERROR_BAD_REQ_LEN))
                    } else {
                        let g = old(self).spec_flash().spec_geometry();
                        r == Ok::<usize, ErrorCode>(12) && final(rsp)@.subrange(12, 24) == spec_info(g.0, g.1, g.2).spec_bytes()
                    },
                    _ => {
                        &&& after.len() == before.len() + 1
                        &&& after.take(before.len() as int) == before
                        &&& match spec_call_outcome(cmd@, after.last()) {
                            Some(Ok(payload)) => r == Ok::<usize, ErrorCode>(payload.len() as usize)
                                && final(rsp)@.subrange(12, 12 + payload.len() as int) == payload,
                            Some(Err(e)) => r == Err::<usize, ErrorCode>(ErrorCode(e)),
                            None => false,
                        }
                    },
                }
            }),
    {
        match cmd {
            FlashCommand::GetInfo => {
                if rsp.len() < 24 {
                    return Err(ErrorCode(IPC_ERROR_BAD_REQ_LEN));
                }
                let geometry = self.flash.geometry();
                Ok(info_payload(geometry, rsp))
            },
            FlashCommand::Erase { addr, size } => {
                let ghost before = self.flash.calls();
                let res = self.flash.erase(FlashAddress::from(addr), size);
                assert(self.flash.calls().take(before.len() as int) =~= before);
                match res {
                    Ok(()) => Ok(0),
                    Err(e) => Err(e),
                }
            },
            FlashCommand::Program { addr, data } => {
                let ghost before = self.flash.calls();
                let res = self.flash.program(FlashAddress::from(addr), data);
                assert(self.flash.calls().take(before.len() as int) =~= before);
                match res {
                    Ok(()) => Ok(0),
                    Err(e) => Err(e),
                }
            },
            FlashCommand::Read { addr, length } => {
                let (_, tail) = rsp.split_at_mut(12);
                let (out, _) = tail.split_at_mut(length);
                let ghost before = self.flash.calls();
                let res = self.flash.read(FlashAddress::from(addr), out);
                assert(self.flash.calls().take(before.len() as int) =~= before);
                match res {
                    Ok(()) => Ok(length),
                    Err(e) => Err(e),
                }
            },
        }
    }

    /// Handles one request: `req` is the request as received, and the
    /// response is encoded at the start of `rsp`; returns the response
    /// length. A request that is refused, or an operation the device fails,
    /// gives an error response of 12 bytes.
    pub fn handle_request(&mut self, req: &[u8], rsp: &mut [u8]) -> (r: usize)
        requires
            old(rsp)@.len() >= 12,
        ensures
            final(rsp)@.len() == old(rsp)@.len(),
            r <= old(rsp)@.len(),
            spec_handled(req@, old(rsp)@.len() as int, old(self).spec_flash().spec_geometry(), old(self).spec_flash().calls(),
                final(self).spec_flash().calls(), final(rsp)@.take(r as int)),
    {
        let out_cap = rsp.len() - 12;
        let outcome = match parse_request(req, out_cap) {
            Ok(cmd) => self.run_command(cmd, rsp),
            Err(e) => Err(e),
        };
        finish_response(outcome, rsp)
    }
}

/// A response is a 12-byte header of three little-endian words, the
/// status (0 for success, else the error code), the payload length and the
/// same value again, then the payload: a success carries its payload, an
/// error carries none.
pub proof fn lemma_response_layout(outcome: Result<Seq<u8>, u32>)
    requires
        outcome matches Ok(p) ==> p.len() <= u32::MAX,
    ensures
        ({
            let b = spec_response(outcome);
            &&& b.len() >= 12
            &&& word(b, 1) as int == b.len() - 12
            &&& word(b, 2) == word(b, 1)
            &&& match outcome {
                Ok(p) => word(b, 0) == 0 && b.skip(12) == p,
                Err(e) => word(b, 0) == e && b.len() == 12,
            }
        }),
{
    match outcome {
        Ok(p) => {
            let h = FlashResponseHeader { status: 0, payload_len: p.len() as u32, value: p.len() as u32 }.spec_bytes();
            crate::flash::lemma_words3(0, p.len() as u32, p.len() as u32);
            let b = spec_response(outcome);
            assert(b.subrange(0, 4) =~= h.subrange(0, 4));
            assert(b.subrange(4, 8) =~= h.subrange(4, 8));
            assert(b.subrange(8, 12) =~= h.subrange(8, 12));
            assert(b.skip(12) =~= p);
        },
        Err(e) => {
            crate::flash::lemma_words3(e, 0, 0);
        },
    }
}

} // verus!
