//! The USB TPM class: TPM commands carried over a pair of bulk endpoints,
//! each command and response framed by a 16-byte header.

use vstd::prelude::*;

use crate::bytes::{from_le32, le32, lemma_le32_inverse, lemma_le32_roundtrip, u32_from_le, u32_to_le};
use crate::descriptor::{EndpointDescriptor, InterfaceDescriptor, StringHandle, TransferType};
use crate::driver::{DriverCall, EpIn, EpOut, UsbDriver, UsbEvent, UsbPacket};
use crate::hal_usb::{lemma_bits_injective, Direction, Recipient, Request, RequestType, SetupPacket};
use crate::usb_stack::{ActionView, Transfer, UsbAction, UsbClass};

verus! {

/// USB TPM interface class, subclass and protocol.
pub const USB_CLASS_VENDOR: u8 = 0xFF;
pub const USB_SUBCLASS_TPM: u8 = 0xCF;
pub const USB_PROTOCOL_TPM: u8 = 0x66;

/// FourCC constants: "TPM_", "_REQ", "_RSP".
pub const FOURCC_TPM: u32 = 0x5F4D5054;
pub const FOURCC_REQ: u32 = 0x5145525F;
pub const FOURCC_RSP: u32 = 0x5053525F;

/// Command codes.
pub const MS_SIM_TPM_SEND_COMMAND: u32 = 8;
pub const TPM_SESSION_END: u32 = 20;

/// Status codes.
pub const STATUS_SUCCESS: u32 = 0;
pub const STATUS_ERR_UNKNOWN_CMD: u32 = 12;
pub const STATUS_ERR_INTERNAL: u32 = 13;
pub const STATUS_ERR_BUSY: u32 = 14;

/// Vendor request: set the locality of the following commands.
#[allow(non_snake_case)]
pub fn REQ_SET_LOCALITY() -> (r: Request)
    ensures
        r.raw() == 0x0141,
{
    Request::new(Direction::HostToDevice, RequestType::Vendor, Recipient::Interface, 0x01)
}

/// Vendor request: cancel the current command.
#[allow(non_snake_case)]
pub fn REQ_CANCEL() -> (r: Request)
    ensures
        r.raw() == 0x0241,
{
    Request::new(Direction::HostToDevice, RequestType::Vendor, Recipient::Interface, 0x02)
}

/// The 16-byte header of a TPM command or response (four little-endian words).
#[derive(Clone, Copy, PartialEq, Eq, Structural, Debug)]
pub struct UsbTpmHeader {
    pub header: u32,
    pub identifier: u32,
    pub command_status: u32,
    pub length: u32,
}

impl UsbTpmHeader {
    /// The encoded header.
    pub open spec fn spec_bytes(&self) -> Seq<u8> {
        le32(self.header) + le32(self.identifier) + le32(self.command_status) + le32(self.length)
    }

    /// The header that 16 bytes encode.
    pub open spec fn spec_from_bytes(b: Seq<u8>) -> UsbTpmHeader {
        UsbTpmHeader {
            header: from_le32(b.subrange(0, 4)),
            identifier: from_le32(b.subrange(4, 8)),
            command_status: from_le32(b.subrange(8, 12)),
            length: from_le32(b.subrange(12, 16)),
        }
    }

    /// A header marks a command request: "TPM_" then "_REQ".
    pub open spec fn spec_is_request(&self) -> bool {
        self.header == FOURCC_TPM && self.identifier == FOURCC_REQ
    }

    /// Encodes the header.
    pub fn as_bytes(&self) -> (r: [u8; 16])
        ensures
            r@ == self.spec_bytes(),
    {
        let a = u32_to_le(self.header);
        let b = u32_to_le(self.identifier);
        let c = u32_to_le(self.command_status);
        let d = u32_to_le(self.length);
        let r: [u8; 16] = [
            a[0], a[1], a[2], a[3], b[0], b[1], b[2], b[3], c[0], c[1], c[2], c[3], d[0], d[1], d[2], d[3],
        ];
        assert(r@ =~= self.spec_bytes());
        r
    }

    /// Decodes a header from exactly 16 bytes.
    pub fn read_from_bytes(b: &[u8]) -> (r: Result<UsbTpmHeader, ()>)
        ensures
            r is Ok <==> b@.len() == 16,
            r matches Ok(h) ==> h == Self::spec_from_bytes(b@),
    {
        if b.len() != 16 {
            return Err(());
        }
        Ok(UsbTpmHeader {
            header: u32_from_le(b, 0),
            identifier: u32_from_le(b, 4),
            command_status: u32_from_le(b, 8),
            length: u32_from_le(b, 12),
        })
    }
}

/// Decoding an encoded header gives the header back.
pub proof fn lemma_header_roundtrip(h: UsbTpmHeader)
    ensures
        h.spec_bytes().len() == 16,
        UsbTpmHeader::spec_from_bytes(h.spec_bytes()) == h,
{
    lemma_le32_roundtrip(h.header);
    lemma_le32_roundtrip(h.identifier);
    lemma_le32_roundtrip(h.command_status);
    lemma_le32_roundtrip(h.length);
    let b = h.spec_bytes();
    assert(b.subrange(0, 4) =~= le32(h.header));
    assert(b.subrange(4, 8) =~= le32(h.identifier));
    assert(b.subrange(8, 12) =~= le32(h.command_status));
    assert(b.subrange(12, 16) =~= le32(h.length));
}

/// Encoding a decoded header gives the 16 bytes back.
pub proof fn lemma_header_bytes_inverse(b: Seq<u8>)
    requires
        b.len() == 16,
    ensures
        UsbTpmHeader::spec_from_bytes(b).spec_bytes() == b,
{
    lemma_le32_inverse(b.subrange(0, 4));
    lemma_le32_inverse(b.subrange(4, 8));
    lemma_le32_inverse(b.subrange(8, 12));
    lemma_le32_inverse(b.subrange(12, 16));
    assert(UsbTpmHeader::spec_from_bytes(b).spec_bytes() =~= b);
}

/// A call a TPM device received, with what it answered.
pub enum TpmCall {
    /// A command run at a locality, with the response it gave.
    Execute(u8, Seq<u8>, Seq<u8>),
    /// A cancellation.
    Cancel,
}

/// A TPM that runs commands.
///
/// `calls` is the record of the calls the device has received. A device
/// verified with the class keeps it; every method below states how it grows.
pub trait TpmDevice {
    /// The calls received so far, oldest first.
    open spec fn calls(&self) -> Seq<TpmCall> {
        Seq::empty()
    }

    /// Executes a raw TPM command, writing the response into `response`, and
    /// returns the response length, which is at most `response.len()`.
    fn execute_command(&mut self, locality: u8, command: &[u8], response: &mut [u8]) -> (r: usize)
        ensures
            r <= old(response)@.len(),
            final(response)@.len() == old(response)@.len(),
            final(self).calls() == old(self).calls().push(
                TpmCall::Execute(locality, command@, final(response)@.take(r as int)),
            ),
    ;

    /// Signals the device to abort the current TPM command.
    fn cancel(&mut self)
        ensures
            final(self).calls() == old(self).calls().push(TpmCall::Cancel),
    ;
}

/// The interface and endpoint numbers of a USB TPM function.
#[derive(Copy, Clone)]
pub struct UsbTpmBuilder {
    pub interface_num: u8,
    pub bulk_in_ep: u8,
    pub bulk_out_ep: u8,
}

impl UsbTpmBuilder {
    /// Creates a new UsbTpm configuration.
    pub fn new(interface_num: u8, bulk_in_ep: u8, bulk_out_ep: u8) -> (r: Self)
        ensures
            r.interface_num == interface_num,
            r.bulk_in_ep == bulk_in_ep,
            r.bulk_out_ep == bulk_out_ep,
    {
        UsbTpmBuilder { interface_num, bulk_in_ep, bulk_out_ep }
    }

    /// The bulk OUT and bulk IN endpoints of the interface (64-byte packets).
    pub fn endpoints(&self) -> (r: [EndpointDescriptor; 2])
        ensures
            r[0].direction == Direction::HostToDevice && r[0].endpoint_num == self.bulk_out_ep
                && r[0].interval == 0 && r[0].max_packet_size == 64 && r[0].transfer_type == TransferType::Bulk,
            r[1].direction == Direction::DeviceToHost && r[1].endpoint_num == self.bulk_in_ep
                && r[1].interval == 0 && r[1].max_packet_size == 64 && r[1].transfer_type == TransferType::Bulk,
    {
        [
            EndpointDescriptor {
                direction: Direction::HostToDevice,
                endpoint_num: self.bulk_out_ep,
                interval: 0,
                max_packet_size: 64,
                transfer_type: TransferType::Bulk,
            },
            EndpointDescriptor {
                direction: Direction::DeviceToHost,
                endpoint_num: self.bulk_in_ep,
                interval: 0,
                max_packet_size: 64,
                transfer_type: TransferType::Bulk,
            },
        ]
    }

    /// The peripheral endpoint configuration: the bulk IN endpoint with one
    /// buffer, and the bulk OUT endpoint.
    pub fn eps(&self) -> (r: ([EpIn; 1], [EpOut; 1]))
        ensures
            r.0[0] == (EpIn { num: self.bulk_in_ep, buf_pool_size: 1 }),
            r.1[0] == (EpOut { num: self.bulk_out_ep, set_nak: false }),
    {
        ([EpIn { num: self.bulk_in_ep, buf_pool_size: 1 }], [EpOut { num: self.bulk_out_ep, set_nak: false }])
    }

    /// The vendor-class TPM interface descriptor.
    pub fn interface(&self, name: StringHandle, endpoints: Vec<EndpointDescriptor>) -> (r: InterfaceDescriptor)
        ensures
            r.name == name,
            r.interface_number == self.interface_num,
            r.alternate_setting == 0,
            r.interface_class == USB_CLASS_VENDOR,
            r.interface_sub_class == USB_SUBCLASS_TPM,
            r.interface_protocol == USB_PROTOCOL_TPM,
            r.func_descs@.len() == 0,
            r.endpoints@ == endpoints@,
    {
        InterfaceDescriptor {
            name,
            interface_number: self.interface_num,
            alternate_setting: 0,
            interface_class: USB_CLASS_VENDOR,
            interface_sub_class: USB_SUBCLASS_TPM,
            interface_protocol: USB_PROTOCOL_TPM,
            func_descs: Vec::new(),
            endpoints,
        }
    }
}


/// Where the class is in a command exchange.
#[derive(Copy, Clone, PartialEq, Eq, Structural, Debug)]
pub enum State {
    Idle,
    ReceivingPayload,
    SendingHeader,
    SendingPayload,
}

/// The observable state of a USB TPM class handler.
pub struct UsbTpmView {
    pub state: State,
    pub locality: u8,
    pub status: u32,
    pub response_len: usize,
    pub tx_offset: usize,
    pub req_header: UsbTpmHeader,
    /// Payload bytes received so far.
    pub received: Seq<u8>,
    /// The response of the last command (`response_len` bytes).
    pub response: Seq<u8>,
    /// The calls the device has received.
    pub calls: Seq<TpmCall>,
}

/// Running command `cs` with `payload` at `locality` took the handler from
/// `o` to `f` (status, response and device calls), with a response buffer
/// of `cap` bytes: sending a command runs the device once on the payload and
/// reports success with the device's response; ending a session reports
/// success with no response and no device call; anything else is an unknown
/// command, with no response and no device call.
pub open spec fn spec_command_result(cs: u32, locality: u8, payload: Seq<u8>, o: UsbTpmView, f: UsbTpmView, cap: int) -> bool {
    if cs == MS_SIM_TPM_SEND_COMMAND {
        &&& f.status == STATUS_SUCCESS
        &&& f.response_len <= cap
        &&& f.response.len() == f.response_len
        &&& f.calls == o.calls.push(TpmCall::Execute(locality, payload, f.response))
    } else if cs == TPM_SESSION_END {
        f.status == STATUS_SUCCESS && f.response_len == 0 && f.response.len() == 0 && f.calls == o.calls
    } else {
        f.status == STATUS_ERR_UNKNOWN_CMD && f.response_len == 0 && f.response.len() == 0 && f.calls == o.calls
    }
}

/// The USB TPM class handler.
pub struct UsbTpm<T: TpmDevice, const PAYLOAD_WORDS: usize> {
    config: UsbTpmBuilder,
    device: T,
    state: State,
    locality: u8,
    req_header: UsbTpmHeader,
    payload_transfer: Transfer<PAYLOAD_WORDS>,
    response_buf: Vec<u8>,
    response_len: usize,
    tx_offset: usize,
    status: u32,
}

impl<T: TpmDevice, const PAYLOAD_WORDS: usize> View for UsbTpm<T, PAYLOAD_WORDS> {
    type V = UsbTpmView;

    closed spec fn view(&self) -> UsbTpmView {
        UsbTpmView {
            state: self.state,
            locality: self.locality,
            status: self.status,
            response_len: self.response_len,
            tx_offset: self.tx_offset,
            req_header: self.req_header,
            received: self.payload_transfer.received(),
            response: self.response_buf@.take(self.response_len as int),
            calls: self.device.calls(),
        }
    }
}

impl<T: TpmDevice, const PAYLOAD_WORDS: usize> UsbTpm<T, PAYLOAD_WORDS> {
    /// The interface and endpoint numbers.
    pub closed spec fn spec_config(&self) -> UsbTpmBuilder {
        self.config
    }

    /// The consistency of the handler: buffers of `PAYLOAD_WORDS` words, a
    /// response that fits its buffer, and a send position within what is sent.
    pub closed spec fn inv(&self) -> bool {
        &&& self.payload_transfer.wf()
        &&& self.response_buf@.len() == 4 * PAYLOAD_WORDS
        &&& 4 * PAYLOAD_WORDS <= usize::MAX
        &&& self.response_len <= self.response_buf@.len()
        &&& self.state == State::SendingHeader ==> self.tx_offset <= 16
        &&& self.state == State::SendingPayload ==> self.tx_offset <= self.response_len
    }

    /// The capacity of the response buffer in bytes.
    pub open spec fn spec_capacity() -> int {
        4 * PAYLOAD_WORDS
    }

    /// Creates an idle handler for the given endpoints and device.
    pub fn new(config: UsbTpmBuilder, device: T) -> (r: Self)
        requires
            4 * PAYLOAD_WORDS <= usize::MAX,
        ensures
            r.inv(),
            r.spec_config() == config,
            r.spec_device() == device,
            r@.state == State::Idle,
            r@.locality == 0,
            r@.status == STATUS_SUCCESS,
            r@.response_len == 0,
            r@.tx_offset == 0,
            r@.received == Seq::<u8>::empty(),
            r@.response == Seq::<u8>::empty(),
            r@.calls == device.calls(),
    {
        UsbTpm {
            config,
            device,
            state: State::Idle,
            locality: 0,
            req_header: UsbTpmHeader { header: 0, identifier: 0, command_status: 0, length: 0 },
            payload_transfer: Transfer::new(),
            response_buf: vec![0u8; 4 * PAYLOAD_WORDS],
            response_len: 0,
            tx_offset: 0,
            status: STATUS_SUCCESS,
        }
    }

    /// The current state.
    pub fn state(&self) -> (r: State)
        ensures
            r == self@.state,
    {
        self.state
    }

    /// The locality of the commands.
    pub fn locality(&self) -> (r: u8)
        ensures
            r == self@.locality,
    {
        self.locality
    }

    /// The status of the last command.
    pub fn status(&self) -> (r: u32)
        ensures
            r == self@.status,
    {
        self.status
    }

    /// The length of the last response.
    pub fn response_len(&self) -> (r: usize)
        ensures
            r == self@.response_len,
    {
        self.response_len
    }

    /// The device.
    pub closed spec fn spec_device(&self) -> T {
        self.device
    }

    /// The device.
    pub fn device(&self) -> (r: &T)
        ensures
            *r == self.spec_device(),
    {
        &self.device
    }

    /// Claims the vendor requests addressed to this interface: SET_LOCALITY
    /// records the locality, CANCEL cancels the device's command.
    fn handle_setup(&mut self, pkt: SetupPacket) -> (r: (UsbAction<'static>, bool))
        requires
            old(self).inv(),
        ensures
            final(self).inv(),
            final(self).spec_config() == old(self).spec_config(),
            ({
                let req = pkt.spec_request_raw();
                let mine = req % 32 == 1 && pkt.spec_index() as u8 == old(self).spec_config().interface_num;
                &&& (mine && req == 0x0141) ==> (r.1 && r.0@ == ActionView::TransferIn(0, seq![], true)
                    && final(self)@ == (UsbTpmView { locality: pkt.spec_value() as u8, ..old(self)@ }))
                &&& (mine && req == 0x0241) ==> (r.1 && r.0@ == ActionView::TransferIn(0, seq![], true)
                    && final(self)@ == (UsbTpmView { calls: old(self)@.calls.push(TpmCall::Cancel), ..old(self)@ }))
                &&& !(mine && (req == 0x0141 || req == 0x0241)) ==> (!r.1 && r.0@ is NoAction
                    && final(self)@ == old(self)@)
            }),
    {
        let req = pkt.request();
        proof {
            lemma_bits_injective();
        }
        if !(req.recipient() == Recipient::Interface && (pkt.index() as u8) == self.config.interface_num) {
            return (UsbAction::NoAction, false);
        }
        let set_locality = REQ_SET_LOCALITY();
        let cancel = REQ_CANCEL();
        proof {
            Request::lemma_raw_injective(req, set_locality);
            Request::lemma_raw_injective(req, cancel);
        }
        let empty: &'static [u8] = &[];
        assert(empty@ =~= Seq::<u8>::empty());
        if req == set_locality {
            self.locality = pkt.value() as u8;
            (UsbAction::TransferIn { endpoint: 0, data: empty, zlp: true }, true)
        } else if req == cancel {
            self.device.cancel();
            (UsbAction::TransferIn { endpoint: 0, data: empty, zlp: true }, true)
        } else {
            (UsbAction::NoAction, false)
        }
    }

    /// Runs one command on the device and returns its status and response length.
    fn process_payload_inner(
        device: &mut T,
        locality: u8,
        command_status: u32,
        payload: &[u8],
        response_buf: &mut [u8],
    ) -> (r: (u32, usize))
        ensures
            final(response_buf)@.len() == old(response_buf)@.len(),
            command_status == MS_SIM_TPM_SEND_COMMAND ==> {
                &&& r.0 == STATUS_SUCCESS
                &&& r.1 <= old(response_buf)@.len()
                &&& final(device).calls() == old(device).calls().push(
                    TpmCall::Execute(locality, payload@, final(response_buf)@.take(r.1 as int)),
                )
            },
            command_status != MS_SIM_TPM_SEND_COMMAND ==> {
                &&& r.0 == (if command_status == TPM_SESSION_END {
                    STATUS_SUCCESS
                } else {
                    STATUS_ERR_UNKNOWN_CMD
                })
                &&& r.1 == 0
                &&& final(device).calls() == old(device).calls()
            },
    {
        if command_status == MS_SIM_TPM_SEND_COMMAND {
            let len = device.execute_command(locality, payload, response_buf);
            (STATUS_SUCCESS, len)
        } else if command_status == TPM_SESSION_END {
            (STATUS_SUCCESS, 0)
        } else {
            (STATUS_ERR_UNKNOWN_CMD, 0)
        }
    }

    /// Runs the command of the current header; a session end sends no reply.
    fn process_payload(&mut self, payload: &[u8])
        requires
            old(self).inv(),
        ensures
            final(self).inv(),
            final(self).spec_config() == old(self).spec_config(),
            spec_command_result(old(self)@.req_header.command_status, old(self)@.locality, payload@,
                old(self)@, final(self)@, Self::spec_capacity()),
            final(self)@.state == (if old(self)@.req_header.command_status == TPM_SESSION_END {
                State::Idle
            } else {
                State::SendingHeader
            }),
            final(self)@ == (UsbTpmView {
                state: final(self)@.state,
                status: final(self)@.status,
                response_len: final(self)@.response_len,
                tx_offset: 0,
                response: final(self)@.response,
                calls: final(self)@.calls,
                ..old(self)@
            }),
    {
        let (status, resp_len) = Self::process_payload_inner(
            &mut self.device,
            self.locality,
            self.req_header.command_status,
            payload,
            self.response_buf.as_mut_slice(),
        );
        self.status = status;
        self.response_len = resp_len;
        self.state = if self.req_header.command_status == TPM_SESSION_END {
            State::Idle
        } else {
            State::SendingHeader
        };
        self.tx_offset = 0;
    }

    /// Sends what is pending: the response header, then the response payload.
    /// A part the driver did not take is sent on a later call.
    pub fn poll_transmit<D: UsbDriver>(&mut self, driver: &mut D)
        requires
            old(self).inv(),
        ensures
            final(self).inv(),
            final(self).spec_config() == old(self).spec_config(),
            spec_poll_transmit(old(self)@, final(self)@, old(driver).calls(), final(driver).calls(),
                old(self).spec_config().bulk_in_ep),
    {
        match self.state {
            State::SendingHeader => {
                let header = UsbTpmHeader {
                    header: FOURCC_TPM,
                    identifier: FOURCC_RSP,
                    command_status: self.status,
                    length: self.response_len as u32,
                };
                let bytes = header.as_bytes();
                let all: &[u8] = &bytes;
                let rest = vstd::slice::slice_subrange(all, self.tx_offset, 16);
                let ghost before = driver.calls();
                let n = driver.transfer_in_unaligned(self.config.bulk_in_ep, rest, true);
                assert(driver.calls().take(before.len() as int) =~= before);
                self.tx_offset = self.tx_offset + n;
                if self.tx_offset == 16 {
                    self.tx_offset = 0;
                    if self.response_len > 0 {
                        self.state = State::SendingPayload;
                    } else {
                        self.state = State::Idle;
                    }
                }
            },
            State::SendingPayload => {
                let all: &[u8] = self.response_buf.as_slice();
                let data = vstd::slice::slice_subrange(all, self.tx_offset, self.response_len);
                assert(data@ =~= self@.response.subrange(self.tx_offset as int, self.response_len as int));
                let ghost before = driver.calls();
                let n = driver.transfer_in_unaligned(self.config.bulk_in_ep, data, true);
                assert(driver.calls().take(before.len() as int) =~= before);
                self.tx_offset = self.tx_offset + n;
                if self.tx_offset == self.response_len {
                    self.state = State::Idle;
                    self.tx_offset = 0;
                }
            },
            _ => {},
        }
    }
}


/// The 16 bytes of the response header for the handler in state `o`.
pub open spec fn spec_response_header(o: UsbTpmView) -> Seq<u8> {
    UsbTpmHeader {
        header: FOURCC_TPM,
        identifier: FOURCC_RSP,
        command_status: o.status,
        length: o.response_len as u32,
    }.spec_bytes()
}

/// One step of sending: in `SendingHeader` the rest of the response header,
/// in `SendingPayload` the rest of the response, goes to the driver once on
/// the bulk IN endpoint `ep` with a zero-length packet allowed; the offset
/// moves on by what the driver took, and when all is taken the handler moves
/// to the payload (if there is one) or back to idle. In any other state the
/// driver is not called and nothing changes.
pub open spec fn spec_poll_transmit(o: UsbTpmView, f: UsbTpmView, before: Seq<DriverCall>, after: Seq<DriverCall>, ep: u8) -> bool {
    if o.state == State::SendingHeader || o.state == State::SendingPayload {
        let header = o.state == State::SendingHeader;
        let total: int = if header { 16 } else { o.response_len as int };
        let data = if header { spec_response_header(o) } else { o.response };
        let next = if header && o.response_len > 0 { State::SendingPayload } else { State::Idle };
        &&& after.len() == before.len() + 1
        &&& after.take(before.len() as int) == before
        &&& match after.last() {
            DriverCall::TransferInUnaligned(e, sent, z, n) => {
                &&& e == ep
                &&& sent == data.subrange(o.tx_offset as int, total)
                &&& z
                &&& if o.tx_offset + n == total {
                    f == (UsbTpmView { state: next, tx_offset: 0, ..o })
                } else {
                    f == (UsbTpmView { tx_offset: (o.tx_offset + n) as usize, ..o })
                }
            },
            _ => false,
        }
    } else {
        after == before && f == o
    }
}

/// What a packet on the bulk OUT endpoint does to an idle or receiving
/// handler with response capacity `cap`, given the packet bytes `d` and the
/// action `act` returned.
pub open spec fn spec_bulk_out_step(o: UsbTpmView, f: UsbTpmView, d: Seq<u8>, act: ActionView, cap: int, bulk_out_ep: u8) -> bool {
    match o.state {
        State::Idle => {
            let h = UsbTpmHeader::spec_from_bytes(d.take(16));
            if d.len() >= 16 && h.spec_is_request() {
                &&& act is NoAction
                &&& f.req_header == h
                &&& f.locality == o.locality
                &&& f.received == o.received
                &&& if h.length > 0 {
                    f == (UsbTpmView { state: State::ReceivingPayload, req_header: h, ..o })
                } else {
                    &&& spec_command_result(h.command_status, o.locality, Seq::<u8>::empty(), o, f, cap)
                    &&& f.tx_offset == 0
                    &&& f.state == (if h.command_status == TPM_SESSION_END {
                        State::Idle
                    } else {
                        State::SendingHeader
                    })
                }
            } else {
                act == ActionView::StallInAndOut(bulk_out_ep) && f == o
            }
        },
        State::ReceivingPayload => {
            let words = (d.len() + 3) / 4;
            &&& act is NoAction
            &&& if o.received.len() / 4 + words > cap / 4 {
                f == (UsbTpmView { state: State::Idle, ..o })
            } else if d.len() >= 64 {
                f == (UsbTpmView { received: o.received + d.take(64), ..o })
            } else if (o.received + d).len() >= o.req_header.length {
                &&& spec_command_result(
                    o.req_header.command_status,
                    o.locality,
                    (o.received + d).take(o.req_header.length as int),
                    o,
                    f,
                    cap,
                )
                &&& f == (UsbTpmView {
                    state: State::SendingHeader,
                    status: f.status,
                    response_len: f.response_len,
                    tx_offset: 0,
                    received: Seq::<u8>::empty(),
                    response: f.response,
                    calls: f.calls,
                    ..o
                })
            } else {
                f == (UsbTpmView { received: Seq::<u8>::empty(), ..o })
            }
        },
        _ => act is NoAction && f == o,
    }
}

impl<T: TpmDevice, const PAYLOAD_WORDS: usize> UsbClass for UsbTpm<T, PAYLOAD_WORDS> {
    closed spec fn wf(&self) -> bool {
        self.inv()
    }

    /// SETUP packets on endpoint 0 go to the vendor requests; packets on the
    /// bulk OUT endpoint carry a command header, then its payload. When the
    /// payload is complete the command runs and the response waits to be sent.
    /// Everything else is handed back.
    fn handle_event<'b, P: UsbPacket>(&'b mut self, event: UsbEvent<P>) -> (r: Result<UsbAction<'b>, UsbEvent<P>>)
        ensures
            final(self).spec_config() == old(self).spec_config(),
            match event {
                UsbEvent::SetupPacket { pkt, endpoint } => {
                    let req = pkt.spec_request_raw();
                    let mine = req % 32 == 1 && pkt.spec_index() as u8 == old(self).spec_config().interface_num;
                    if endpoint == 0 && mine && req == 0x0141 {
                        r matches Ok(a) && a@ == ActionView::TransferIn(0, seq![], true)
                            && final(self)@ == (UsbTpmView { locality: pkt.spec_value() as u8, ..old(self)@ })
                    } else if endpoint == 0 && mine && req == 0x0241 {
                        r matches Ok(a) && a@ == ActionView::TransferIn(0, seq![], true)
                            && final(self)@ == (UsbTpmView { calls: old(self)@.calls.push(TpmCall::Cancel), ..old(self)@ })
                    } else {
                        r == Err::<UsbAction<'b>, UsbEvent<P>>(event) && final(self)@ == old(self)@
                    }
                },
                UsbEvent::DataOutPacket(pkt) => {
                    if pkt.spec_endpoint() == old(self).spec_config().bulk_out_ep as usize {
                        r matches Ok(a) && spec_bulk_out_step(old(self)@, final(self)@, pkt.spec_data(), a@,
                            Self::spec_capacity(), old(self).spec_config().bulk_out_ep)
                    } else {
                        r == Err::<UsbAction<'b>, UsbEvent<P>>(event) && final(self)@ == old(self)@
                    }
                },
                _ => r == Err::<UsbAction<'b>, UsbEvent<P>>(event) && final(self)@ == old(self)@,
            },
    {
        match event {
            UsbEvent::SetupPacket { pkt, endpoint } => {
                if endpoint == 0 {
                    let (action, claimed) = self.handle_setup(pkt);
                    if !action.is_none() || claimed {
                        Ok(action)
                    } else {
                        Err(UsbEvent::SetupPacket { pkt, endpoint })
                    }
                } else {
                    Err(UsbEvent::SetupPacket { pkt, endpoint })
                }
            },
            UsbEvent::DataOutPacket(pkt) => {
                if pkt.endpoint_index() == self.config.bulk_out_ep as usize {
                    match self.state {
                        State::Idle => {
                            let ghost d = pkt.spec_data();
                            let mut tmp: Vec<u8> = vec![0u8; 16];
                            let buf = pkt.copy_to_unaligned(tmp.as_mut_slice());
                            if buf.len() == 16 {
                                assert(buf@ =~= d.take(16));
                                if let Ok(header) = UsbTpmHeader::read_from_bytes(buf) {
                                    if header.header == FOURCC_TPM && header.identifier == FOURCC_REQ {
                                        self.req_header = header;
                                        if header.length > 0 {
                                            self.state = State::ReceivingPayload;
                                        } else {
                                            let empty: &[u8] = &[];
                                            self.process_payload(empty);
                                            assert(empty@ =~= Seq::<u8>::empty());
                                        }
                                        return Ok(UsbAction::NoAction);
                                    }
                                }
                            }
                            Ok(UsbAction::StallInAndOut { endpoint: self.config.bulk_out_ep })
                        },
                        State::ReceivingPayload => {
                            let payload_len = self.req_header.length as usize;
                            let command_status = self.req_header.command_status;
                            let locality = self.locality;
                            match self.payload_transfer.splice(pkt) {
                                Ok(Some(data)) => {
                                    if data.len() >= payload_len {
                                        let payload = vstd::slice::slice_subrange(data, 0, payload_len);
                                        assert(payload@ =~= data@.take(payload_len as int));
                                        let (status, resp_len) = Self::process_payload_inner(
                                            &mut self.device,
                                            locality,
                                            command_status,
                                            payload,
                                            self.response_buf.as_mut_slice(),
                                        );
                                        self.status = status;
                                        self.response_len = resp_len;
                                        self.state = State::SendingHeader;
                                        self.tx_offset = 0;
                                    }
                                },
                                Ok(None) => {},
                                Err(_) => {
                                    self.state = State::Idle;
                                },
                            }
                            Ok(UsbAction::NoAction)
                        },
                        _ => Ok(UsbAction::NoAction),
                    }
                } else {
                    Err(UsbEvent::DataOutPacket(pkt))
                }
            },
            _ => Err(event),
        }
    }
}

/// An encoded header is 16 bytes: the magic, identifier, command or
/// status, and payload length as little-endian 32-bit values in that
/// order. The magic reads "TPM_", a request's identifier "_REQ" and a
/// response's "_RSP".
pub proof fn lemma_header_layout(h: UsbTpmHeader)
    ensures
        ({
            let b = h.spec_bytes();
            &&& b.len() == 16
            &&& forall|k: int| 0 <= k < 4 ==> #[trigger] (b[4 * k] as int + 256 * b[4 * k + 1] as int + 65536 * b[4 * k + 2] as int
                + 16777216 * b[4 * k + 3] as int) == (if k == 0 {
                h.header
            } else if k == 1 {
                h.identifier
            } else if k == 2 {
                h.command_status
            } else {
                h.length
            }) as int
        }),
        le32(FOURCC_TPM) == seq![0x54u8, 0x50u8, 0x4du8, 0x5fu8],
        le32(FOURCC_REQ) == seq![0x5fu8, 0x52u8, 0x45u8, 0x51u8],
        le32(FOURCC_RSP) == seq![0x5fu8, 0x52u8, 0x53u8, 0x50u8],
{
    let b = h.spec_bytes();
    crate::bytes::lemma_le32_little_endian(h.header, le32(h.header));
    crate::bytes::lemma_le32_little_endian(h.identifier, le32(h.identifier));
    crate::bytes::lemma_le32_little_endian(h.command_status, le32(h.command_status));
    crate::bytes::lemma_le32_little_endian(h.length, le32(h.length));
    assert(le32(FOURCC_TPM) =~= seq![0x54u8, 0x50u8, 0x4du8, 0x5fu8]);
    assert(le32(FOURCC_REQ) =~= seq![0x5fu8, 0x52u8, 0x45u8, 0x51u8]);
    assert(le32(FOURCC_RSP) =~= seq![0x5fu8, 0x52u8, 0x53u8, 0x50u8]);
}

/// The vendor requests are addressed to an interface (request type 0x41:
/// host to device, vendor, interface): request 1 sets the locality, 2
/// cancels.
pub proof fn lemma_vendor_request_codes()
    ensures
        0x0141int == Request::spec_pack(Direction::HostToDevice, RequestType::Vendor, Recipient::Interface, 1),
        0x0241int == Request::spec_pack(Direction::HostToDevice, RequestType::Vendor, Recipient::Interface, 2),
{
}

} // verus!
