//! The CDC-ACM (serial port) USB class: a communication interface with its
//! line coding requests, and a data interface with a bulk OUT and a bulk IN
//! endpoint feeding a receive and a transmit queue.

use vstd::prelude::*;

use crate::bytes::{from_le32, le32, lemma_le32_inverse, lemma_le32_roundtrip, u32_from_le, u32_to_le};
use crate::descriptor::{
    EndpointDescriptor, FunctionalDescriptor, InterfaceDescriptor, StringHandle, TransferType,
};
use crate::driver::{DriverCall, EpIn, EpOut, UsbDriver, UsbEvent, UsbPacket};
use crate::hal_usb::{lemma_bits_injective, Direction, Recipient, Request, RequestType, SetupPacket};
use crate::usb_stack::{ActionView, UsbAction, UsbClass};
use vstd::math::min;

verus! {

/// CDC interface classes, subclass and protocol.
pub const USB_CLASS_CDC: u8 = 0x02;
pub const USB_CLASS_CDC_DATA: u8 = 0x0a;
pub const CDC_SUBCLASS_ACM: u8 = 0x02;
pub const CDC_PROTOCOL_NONE: u8 = 0x00;

/// Class-specific interface descriptor type and its subtypes.
pub const CS_INTERFACE: u8 = 0x24;
pub const CDC_TYPE_HEADER: u8 = 0x00;
pub const CDC_TYPE_ACM: u8 = 0x02;
pub const CDC_TYPE_UNION: u8 = 0x06;

/// Class request SEND_ENCAPSULATED_COMMAND.
#[allow(non_snake_case)]
pub fn REQ_SEND_ENCAPSULATED_COMMAND() -> (r: Request)
    ensures
        r.raw() == 0x0021,
{
    Request::new(Direction::HostToDevice, RequestType::Class, Recipient::Interface, 0x00)
}

/// Class request GET_ENCAPSULATED_RESPONSE.
#[allow(non_snake_case)]
pub fn REQ_GET_ENCAPSULATED_COMMAND() -> (r: Request)
    ensures
        r.raw() == 0x01a1,
{
    Request::new(Direction::DeviceToHost, RequestType::Class, Recipient::Interface, 0x01)
}

/// Class request SET_LINE_CODING.
#[allow(non_snake_case)]
pub fn REQ_SET_LINE_CODING() -> (r: Request)
    ensures
        r.raw() == 0x2021,
{
    Request::new(Direction::HostToDevice, RequestType::Class, Recipient::Interface, 0x20)
}

/// Class request GET_LINE_CODING.
#[allow(non_snake_case)]
pub fn REQ_GET_LINE_CODING() -> (r: Request)
    ensures
        r.raw() == 0x21a1,
{
    Request::new(Direction::DeviceToHost, RequestType::Class, Recipient::Interface, 0x21)
}

/// Class request SET_CONTROL_LINE_STATE.
#[allow(non_snake_case)]
pub fn REQ_SET_CONTROL_LINE_STATE() -> (r: Request)
    ensures
        r.raw() == 0x2221,
{
    Request::new(Direction::HostToDevice, RequestType::Class, Recipient::Interface, 0x22)
}

/// Number of stop bits of the serial line.
#[derive(Clone, Copy, PartialEq, Eq, Structural, Debug)]
pub enum StopBits {
    One,
    OnePointFive,
    Two,
}

impl StopBits {
    /// The wire code: 0, 1 or 2.
    pub open spec fn code(self) -> u8 {
        match self {
            StopBits::One => 0,
            StopBits::OnePointFive => 1,
            StopBits::Two => 2,
        }
    }

    /// The setting a wire code names; unknown codes mean one stop bit.
    pub open spec fn spec_from_code(x: u8) -> StopBits {
        if x == 1 {
            StopBits::OnePointFive
        } else if x == 2 {
            StopBits::Two
        } else {
            StopBits::One
        }
    }

    /// The wire code.
    pub fn as_u8(self) -> (r: u8)
        ensures
            r == self.code(),
    {
        match self {
            StopBits::One => 0,
            StopBits::OnePointFive => 1,
            StopBits::Two => 2,
        }
    }
}

impl Default for StopBits {
    fn default() -> (r: Self)
        ensures
            r == StopBits::One,
    {
        StopBits::One
    }
}

impl From<u8> for StopBits {
    fn from(x: u8) -> (r: Self) {
        match x {
            1 => StopBits::OnePointFive,
            2 => StopBits::Two,
            _ => StopBits::One,
        }
    }
}

impl vstd::std_specs::convert::FromSpecImpl<u8> for StopBits {
    open spec fn obeys_from_spec() -> bool {
        true
    }

    open spec fn from_spec(v: u8) -> StopBits {
        StopBits::spec_from_code(v)
    }
}

/// Parity of the serial line.
#[derive(Clone, Copy, PartialEq, Eq, Structural, Debug)]
pub enum Parity {
    NoParity,
    Odd,
    Even,
    Mark,
    Space,
}

impl Parity {
    /// The wire code: 0 to 4.
    pub open spec fn code(self) -> u8 {
        match self {
            Parity::NoParity => 0,
            Parity::Odd => 1,
            Parity::Even => 2,
            Parity::Mark => 3,
            Parity::Space => 4,
        }
    }

    /// The setting a wire code names; unknown codes mean no parity.
    pub open spec fn spec_from_code(x: u8) -> Parity {
        if x == 1 {
            Parity::Odd
        } else if x == 2 {
            Parity::Even
        } else if x == 3 {
            Parity::Mark
        } else if x == 4 {
            Parity::Space
        } else {
            Parity::NoParity
        }
    }

    /// The wire code.
    pub fn as_u8(self) -> (r: u8)
        ensures
            r == self.code(),
    {
        match self {
            Parity::NoParity => 0,
            Parity::Odd => 1,
            Parity::Even => 2,
            Parity::Mark => 3,
            Parity::Space => 4,
        }
    }
}

impl Default for Parity {
    fn default() -> (r: Self)
        ensures
            r == Parity::NoParity,
    {
        Parity::NoParity
    }
}

impl From<u8> for Parity {
    fn from(x: u8) -> (r: Self) {
        match x {
            1 => Parity::Odd,
            2 => Parity::Even,
            3 => Parity::Mark,
            4 => Parity::Space,
            _ => Parity::NoParity,
        }
    }
}

impl vstd::std_specs::convert::FromSpecImpl<u8> for Parity {
    open spec fn obeys_from_spec() -> bool {
        true
    }

    open spec fn from_spec(v: u8) -> Parity {
        Parity::spec_from_code(v)
    }
}

/// Decoding the code of a setting gives the setting back.
pub proof fn lemma_line_settings_roundtrip(s: StopBits, p: Parity)
    ensures
        StopBits::spec_from_code(s.code()) == s,
        Parity::spec_from_code(p.code()) == p,
{
}

/// The line coding of the serial port: rate, stop bits, parity and data bits.
#[derive(Clone, Copy, PartialEq, Eq, Structural, Debug)]
pub struct LineCoding {
    pub data_rate: u32,
    pub stop_bits: StopBits,
    pub parity: Parity,
    pub data_bits: u8,
}

/// Size of an encoded line coding.
pub const LINE_CODING_SIZE: usize = 7;

impl LineCoding {
    /// The seven bytes of the encoding: rate (little-endian), stop bits,
    /// parity, data bits.
    pub open spec fn spec_bytes(&self) -> Seq<u8> {
        le32(self.data_rate) + seq![self.stop_bits.code(), self.parity.code(), self.data_bits]
    }

    /// The line coding that the first seven bytes of `b` encode.
    pub open spec fn spec_from_bytes(b: Seq<u8>) -> LineCoding {
        LineCoding {
            data_rate: from_le32(b.subrange(0, 4)),
            stop_bits: StopBits::spec_from_code(b[4]),
            parity: Parity::spec_from_code(b[5]),
            data_bits: b[6],
        }
    }

    /// Decodes a line coding from the first seven bytes of `data`; fails on
    /// fewer than seven bytes.
    pub fn try_from(data: &[u8]) -> (r: Result<LineCoding, ()>)
        ensures
            r is Ok <==> data@.len() >= 7,
            r matches Ok(lc) ==> lc == Self::spec_from_bytes(data@),
    {
        if data.len() >= LINE_CODING_SIZE {
            Ok(LineCoding {
                data_rate: u32_from_le(data, 0),
                stop_bits: StopBits::from(data[4]),
                parity: Parity::from(data[5]),
                data_bits: data[6],
            })
        } else {
            Err(())
        }
    }

    /// Encodes the line coding.
    pub fn as_bytes(&self) -> (r: [u8; 7])
        ensures
            r@ == self.spec_bytes(),
    {
        let rate = u32_to_le(self.data_rate);
        let r: [u8; 7] = [
            rate[0], rate[1], rate[2], rate[3], self.stop_bits.as_u8(), self.parity.as_u8(), self.data_bits,
        ];
        assert(r@ =~= self.spec_bytes());
        r
    }
}

impl Default for LineCoding {
    /// 9600 baud, one stop bit, no parity, 8 data bits.
    fn default() -> (r: Self)
        ensures
            r == (LineCoding {
                data_rate: 9600,
                stop_bits: StopBits::One,
                parity: Parity::NoParity,
                data_bits: 8,
            }),
    {
        LineCoding {
            data_rate: 9600,
            stop_bits: StopBits::default(),
            parity: Parity::default(),
            data_bits: 8,
        }
    }
}

/// Decoding an encoded line coding gives it back.
pub proof fn lemma_line_coding_roundtrip(lc: LineCoding)
    ensures
        lc.spec_bytes().len() == 7,
        LineCoding::spec_from_bytes(lc.spec_bytes()) == lc,
{
    lemma_le32_roundtrip(lc.data_rate);
    assert(lc.spec_bytes().subrange(0, 4) =~= le32(lc.data_rate));
}

/// Seven bytes whose stop-bit and parity codes are known encode a line
/// coding whose encoding is those seven bytes again: what SET_LINE_CODING
/// stores, GET_LINE_CODING reports unchanged.
pub proof fn lemma_line_coding_bytes_inverse(b: Seq<u8>)
    requires
        b.len() >= 7,
        b[4] <= 2,
        b[5] <= 4,
    ensures
        LineCoding::spec_from_bytes(b).spec_bytes() == b.take(7),
{
    lemma_le32_inverse(b.subrange(0, 4));
    assert(LineCoding::spec_from_bytes(b).spec_bytes() =~= b.take(7));
}

/// A byte queue of capacity `N`: bytes leave in the order they came.
pub struct ByteQueue<const N: usize> {
    buf: Vec<u8>,
}

impl<const N: usize> View for ByteQueue<N> {
    type V = Seq<u8>;

    closed spec fn view(&self) -> Seq<u8> {
        self.buf@
    }
}

/// `q` with as much of `data` appended as fits in capacity `cap`.
pub open spec fn spec_push_slice(q: Seq<u8>, data: Seq<u8>, cap: int) -> Seq<u8> {
    q + data.take(min(data.len() as int, cap - q.len()))
}

impl<const N: usize> ByteQueue<N> {
    /// The queue holds at most `N` bytes.
    pub closed spec fn wf(&self) -> bool {
        self.buf@.len() <= N
    }

    /// An empty queue.
    pub fn new() -> (r: Self)
        ensures
            r.wf(),
            r@ == Seq::<u8>::empty(),
    {
        ByteQueue { buf: Vec::new() }
    }

    /// The number of queued bytes.
    pub fn len(&self) -> (r: usize)
        ensures
            r == self@.len(),
    {
        self.buf.len()
    }

    /// Whether nothing is queued.
    pub fn is_empty(&self) -> (r: bool)
        ensures
            r == (self@.len() == 0),
    {
        self.buf.len() == 0
    }

    /// The capacity `N`.
    pub fn capacity(&self) -> (r: usize)
        ensures
            r == N,
    {
        N
    }

    /// Appends one byte; false (and no change) when the queue is full.
    pub fn push(&mut self, b: u8) -> (r: bool)
        requires
            old(self).wf(),
        ensures
            final(self).wf(),
            r == (old(self)@.len() < N),
            r ==> final(self)@ == old(self)@.push(b),
            !r ==> final(self)@ == old(self)@,
    {
        if self.buf.len() < N {
            self.buf.push(b);
            true
        } else {
            false
        }
    }

    /// Appends as much of `data` as fits and returns how many bytes that was.
    pub fn push_slice(&mut self, data: &[u8]) -> (r: usize)
        requires
            old(self).wf(),
        ensures
            final(self).wf(),
            r == min(data@.len() as int, N - old(self)@.len()),
            final(self)@ == spec_push_slice(old(self)@, data@, N as int),
    {
        let room: usize = N - self.buf.len();
        let n: usize = if data.len() < room {
            data.len()
        } else {
            room
        };
        let ghost q0 = self.buf@;
        let mut i: usize = 0;
        while i < n
            invariant
                i <= n,
                n <= data@.len(),
                n == min(data@.len() as int, N - q0.len()),
                q0.len() <= N,
                self.buf@ == q0 + data@.take(i as int),
            decreases n - i,
        {
            self.buf.push(data[i]);
            assert(data@.take(i + 1) =~= data@.take(i as int).push(data@[i as int]));
            i += 1;
        }
        n
    }

    /// Removes and returns the oldest byte.
    pub fn pop(&mut self) -> (r: Option<u8>)
        requires
            old(self).wf(),
        ensures
            final(self).wf(),
            old(self)@.len() == 0 ==> r is None && final(self)@ == old(self)@,
            old(self)@.len() > 0 ==> r == Some(old(self)@[0]) && final(self)@ == old(self)@.skip(1),
    {
        if self.buf.len() == 0 {
            None
        } else {
            let b = self.buf.remove(0);
            assert(self.buf@ =~= old(self)@.skip(1));
            Some(b)
        }
    }

    /// The queued bytes, oldest first.
    pub fn as_slice(&self) -> (r: &[u8])
        ensures
            r@ == self@,
    {
        self.buf.as_slice()
    }

    /// Drops the `n` oldest bytes (all of them if fewer are queued).
    pub fn consume(&mut self, n: usize)
        requires
            old(self).wf(),
        ensures
            final(self).wf(),
            final(self)@ == old(self)@.skip(min(n as int, old(self)@.len() as int)),
    {
        let len = self.buf.len();
        let k: usize = if n < len {
            n
        } else {
            len
        };
        let mut rest: Vec<u8> = Vec::new();
        let mut i: usize = k;
        while i < len
            invariant
                k <= i <= len,
                len == self.buf@.len(),
                rest@ == self.buf@.subrange(k as int, i as int),
            decreases len - i,
        {
            rest.push(self.buf[i]);
            assert(self.buf@.subrange(k as int, i + 1) =~= self.buf@.subrange(k as int, i as int).push(
                self.buf@[i as int],
            ));
            i += 1;
        }
        assert(rest@ =~= old(self)@.skip(k as int));
        self.buf = rest;
    }
}

/// The interface and endpoint numbers of a CDC-ACM function.
#[derive(Clone, Copy, PartialEq, Eq, Structural, Debug)]
pub struct CdcAcmBuilder {
    pub comm_if: u8,
    pub data_if: u8,
    pub comm_ep: u8,
    pub data_out_ep: u8,
    pub data_in_ep: u8,
}

/// `f` is a class-specific interface descriptor with the given content.
pub open spec fn is_cs_interface(f: FunctionalDescriptor, content: Seq<u8>) -> bool {
    f matches FunctionalDescriptor::Raw(raw) && raw.descriptor_type == CS_INTERFACE && raw.content@ == content
}

impl CdcAcmBuilder {
    /// Creates a new CDC-ACM configuration.
    pub fn new(comm_if: u8, data_if: u8, comm_ep: u8, data_out_ep: u8, data_in_ep: u8) -> (r: Self)
        ensures
            r == (CdcAcmBuilder { comm_if, data_if, comm_ep, data_out_ep, data_in_ep }),
    {
        CdcAcmBuilder { comm_if, data_if, comm_ep, data_out_ep, data_in_ep }
    }

    /// The functional descriptors of the communication interface: header
    /// (CDC 1.10), abstract control management (line coding requests), and
    /// the union of the communication and data interfaces.
    pub fn comm_func_descs(&self) -> (r: [FunctionalDescriptor; 3])
        ensures
            is_cs_interface(r[0], seq![CDC_TYPE_HEADER, 0x10u8, 0x01u8]),
            is_cs_interface(r[1], seq![CDC_TYPE_ACM, 0x02u8]),
            is_cs_interface(r[2], seq![CDC_TYPE_UNION, self.comm_if, self.data_if]),
    {
        let header = FunctionalDescriptor::raw(CS_INTERFACE, vec![CDC_TYPE_HEADER, 0x10, 0x01]);
        let acm = FunctionalDescriptor::raw(CS_INTERFACE, vec![CDC_TYPE_ACM, 0x02]);
        let union = FunctionalDescriptor::raw(CS_INTERFACE, vec![CDC_TYPE_UNION, self.comm_if, self.data_if]);
        [header, acm, union]
    }

    /// The notification endpoint of the communication interface: interrupt
    /// IN, 8-byte packets, polled every 255 ms.
    pub fn comm_endpoints(&self) -> (r: [EndpointDescriptor; 1])
        ensures
            r[0].direction == Direction::DeviceToHost && r[0].endpoint_num == self.comm_ep
                && r[0].interval == 255 && r[0].max_packet_size == 8
                && r[0].transfer_type == TransferType::Interrupt,
    {
        [
            EndpointDescriptor {
                direction: Direction::DeviceToHost,
                endpoint_num: self.comm_ep,
                interval: 255,
                max_packet_size: 8,
                transfer_type: TransferType::Interrupt,
            },
        ]
    }

    /// The bulk OUT and bulk IN endpoints of the data interface (64-byte packets).
    pub fn data_endpoints(&self) -> (r: [EndpointDescriptor; 2])
        ensures
            r[0].direction == Direction::HostToDevice && r[0].endpoint_num == self.data_out_ep
                && r[0].interval == 0 && r[0].max_packet_size == 64 && r[0].transfer_type == TransferType::Bulk,
            r[1].direction == Direction::DeviceToHost && r[1].endpoint_num == self.data_in_ep
                && r[1].interval == 0 && r[1].max_packet_size == 64 && r[1].transfer_type == TransferType::Bulk,
    {
        [
            EndpointDescriptor {
                direction: Direction::HostToDevice,
                endpoint_num: self.data_out_ep,
                interval: 0,
                max_packet_size: 64,
                transfer_type: TransferType::Bulk,
            },
            EndpointDescriptor {
                direction: Direction::DeviceToHost,
                endpoint_num: self.data_in_ep,
                interval: 0,
                max_packet_size: 64,
                transfer_type: TransferType::Bulk,
            },
        ]
    }

    /// The communication (control) interface descriptor.
    pub fn comm_interface(
        &self,
        name: StringHandle,
        func_descs: Vec<FunctionalDescriptor>,
        endpoints: Vec<EndpointDescriptor>,
    ) -> (r: InterfaceDescriptor)
        ensures
            r.name == name,
            r.interface_number == self.comm_if,
            r.alternate_setting == 0,
            r.interface_class == USB_CLASS_CDC,
            r.interface_sub_class == CDC_SUBCLASS_ACM,
            r.interface_protocol == CDC_PROTOCOL_NONE,
            r.func_descs@ == func_descs@,
            r.endpoints@ == endpoints@,
    {
        InterfaceDescriptor {
            name,
            interface_number: self.comm_if,
            alternate_setting: 0,
            interface_class: USB_CLASS_CDC,
            interface_sub_class: CDC_SUBCLASS_ACM,
            interface_protocol: CDC_PROTOCOL_NONE,
            func_descs,
            endpoints,
        }
    }

    /// The data interface descriptor (no functional descriptors).
    pub fn data_interface(&self, name: StringHandle, endpoints: Vec<EndpointDescriptor>) -> (r: InterfaceDescriptor)
        ensures
            r.name == name,
            r.interface_number == self.data_if,
            r.alternate_setting == 0,
            r.interface_class == USB_CLASS_CDC_DATA,
            r.interface_sub_class == 0,
            r.interface_protocol == CDC_PROTOCOL_NONE,
            r.func_descs@.len() == 0,
            r.endpoints@ == endpoints@,
    {
        InterfaceDescriptor {
            name,
            interface_number: self.data_if,
            alternate_setting: 0,
            interface_class: USB_CLASS_CDC_DATA,
            interface_sub_class: 0,
            interface_protocol: CDC_PROTOCOL_NONE,
            func_descs: Vec::new(),
            endpoints,
        }
    }

    /// The peripheral endpoint configuration: the notification and data IN
    /// endpoints with one buffer each, and the data OUT endpoint.
    pub fn eps(&self) -> (r: ([EpIn; 2], [EpOut; 1]))
        ensures
            r.0[0] == (EpIn { num: self.comm_ep, buf_pool_size: 1 }),
            r.0[1] == (EpIn { num: self.data_in_ep, buf_pool_size: 1 }),
            r.1[0] == (EpOut { num: self.data_out_ep, set_nak: false }),
    {
        (
            [EpIn { num: self.comm_ep, buf_pool_size: 1 }, EpIn { num: self.data_in_ep, buf_pool_size: 1 }],
            [EpOut { num: self.data_out_ep, set_nak: false }],
        )
    }
}

/// The observable state of a CDC-ACM class handler.
pub struct CdcAcmView {
    pub line_coding: LineCoding,
    /// A SET_LINE_CODING request waits for its data stage.
    pub expecting_control_out: bool,
    /// Bytes received from the host, not yet taken by the application.
    pub rx: Seq<u8>,
    /// Bytes queued for the host, not yet taken by the driver.
    pub tx: Seq<u8>,
}

/// The reply to a class request `req` addressed to the communication
/// interface, with line coding `lc`.
pub open spec fn spec_cdc_setup_action(req: u16, lc: LineCoding) -> ActionView {
    if req == 0x0021 {
        ActionView::TransferIn(0, seq![], true)
    } else if req == 0x2021 {
        ActionView::NoAction
    } else if req == 0x21a1 {
        ActionView::TransferInUnaligned(0, lc.spec_bytes(), true)
    } else if req == 0x2221 {
        ActionView::TransferIn(0, seq![], true)
    } else {
        ActionView::StallInAndOut(0)
    }
}

/// What the data stage of SET_LINE_CODING sets, GET_LINE_CODING answers:
/// the first seven bytes of the data stage, where their stop-bit and parity
/// codes are known.
pub proof fn lemma_get_returns_set_line_coding(d: Seq<u8>)
    requires
        d.len() >= 7,
        d[4] <= 2,
        d[5] <= 4,
    ensures
        spec_cdc_setup_action(0x21a1, LineCoding::spec_from_bytes(d)) == ActionView::TransferInUnaligned(
            0,
            d.take(7),
            true,
        ),
{
    lemma_line_coding_bytes_inverse(d);
}

/// The CDC-ACM class handler, with a receive queue of `RX_SIZE` bytes and a
/// transmit queue of `TX_SIZE` bytes.
pub struct CdcAcm<const RX_SIZE: usize, const TX_SIZE: usize> {
    config: CdcAcmBuilder,
    line_coding: LineCoding,
    line_coding_bytes: [u8; 7],
    expecting_control_out: bool,
    pub rx_queue: ByteQueue<RX_SIZE>,
    pub tx_queue: ByteQueue<TX_SIZE>,
}

impl<const RX_SIZE: usize, const TX_SIZE: usize> View for CdcAcm<RX_SIZE, TX_SIZE> {
    type V = CdcAcmView;

    closed spec fn view(&self) -> CdcAcmView {
        CdcAcmView {
            line_coding: self.line_coding,
            expecting_control_out: self.expecting_control_out,
            rx: self.rx_queue@,
            tx: self.tx_queue@,
        }
    }
}

impl<const RX_SIZE: usize, const TX_SIZE: usize> CdcAcm<RX_SIZE, TX_SIZE> {
    /// The interface and endpoint numbers.
    pub closed spec fn spec_config(&self) -> CdcAcmBuilder {
        self.config
    }

    /// The queues stay within their capacities and the encoded line coding
    /// matches the line coding.
    pub closed spec fn inv(&self) -> bool {
        &&& self.rx_queue.wf()
        &&& self.tx_queue.wf()
        &&& self.line_coding_bytes@ == self.line_coding.spec_bytes()
    }

    /// A handler with the default line coding and empty queues.
    pub fn new(config: CdcAcmBuilder) -> (r: Self)
        ensures
            r.inv(),
            r.spec_config() == config,
            r@.line_coding == (LineCoding {
                data_rate: 9600,
                stop_bits: StopBits::One,
                parity: Parity::NoParity,
                data_bits: 8,
            }),
            !r@.expecting_control_out,
            r@.rx == Seq::<u8>::empty(),
            r@.tx == Seq::<u8>::empty(),
    {
        let line_coding = LineCoding::default();
        let line_coding_bytes = line_coding.as_bytes();
        CdcAcm {
            config,
            line_coding,
            line_coding_bytes,
            expecting_control_out: false,
            rx_queue: ByteQueue::new(),
            tx_queue: ByteQueue::new(),
        }
    }

    /// The interface and endpoint numbers of this instance.
    pub fn config(&self) -> (r: &CdcAcmBuilder)
        ensures
            *r == self.spec_config(),
    {
        &self.config
    }

    /// The current line coding.
    pub fn line_coding(&self) -> (r: LineCoding)
        ensures
            r == self@.line_coding,
    {
        self.line_coding
    }

    /// Claims the class requests addressed to the communication interface.
    /// SET_LINE_CODING is claimed with no action: its data stage follows.
    fn handle_setup(&mut self, pkt: SetupPacket) -> (r: (UsbAction<'_>, bool))
        requires
            old(self).inv(),
        ensures
            final(self).inv(),
            final(self).spec_config() == old(self).spec_config(),
            ({
                let req = pkt.spec_request_raw();
                let mine = req % 32 == 1 && pkt.spec_index() as u8 == old(self).spec_config().comm_if;
                &&& mine ==> (r.0@ == spec_cdc_setup_action(req, old(self)@.line_coding)
                    && r.1 == (req == 0x2021)
                    && final(self)@ == (CdcAcmView {
                        expecting_control_out: old(self)@.expecting_control_out || req == 0x2021,
                        ..old(self)@
                    }))
                &&& !mine ==> (!r.1 && r.0@ is NoAction && final(self)@ == old(self)@)
            }),
    {
        let req = pkt.request();
        proof {
            lemma_bits_injective();
        }
        if !(req.recipient() == Recipient::Interface && (pkt.index() as u8) == self.config.comm_if) {
            return (UsbAction::NoAction, false);
        }
        let send_encapsulated = REQ_SEND_ENCAPSULATED_COMMAND();
        let get_encapsulated = REQ_GET_ENCAPSULATED_COMMAND();
        let set_line_coding = REQ_SET_LINE_CODING();
        let get_line_coding = REQ_GET_LINE_CODING();
        let set_control_line_state = REQ_SET_CONTROL_LINE_STATE();
        proof {
            Request::lemma_raw_injective(req, send_encapsulated);
            Request::lemma_raw_injective(req, get_encapsulated);
            Request::lemma_raw_injective(req, set_line_coding);
            Request::lemma_raw_injective(req, get_line_coding);
            Request::lemma_raw_injective(req, set_control_line_state);
        }
        let empty: &'static [u8] = &[];
        assert(empty@ =~= Seq::<u8>::empty());
        if req == send_encapsulated {
            (UsbAction::TransferIn { endpoint: 0, data: empty, zlp: true }, false)
        } else if req == get_encapsulated {
            (UsbAction::StallInAndOut { endpoint: 0 }, false)
        } else if req == set_line_coding {
            self.expecting_control_out = true;
            (UsbAction::NoAction, true)
        } else if req == get_line_coding {
            let data: &[u8] = &self.line_coding_bytes;
            (UsbAction::TransferInUnaligned { endpoint: 0, data, zlp: true }, false)
        } else if req == set_control_line_state {
            (UsbAction::TransferIn { endpoint: 0, data: empty, zlp: true }, false)
        } else {
            (UsbAction::StallInAndOut { endpoint: 0 }, false)
        }
    }

    /// The data stage of SET_LINE_CODING: seven or more bytes set the line
    /// coding and are acknowledged; fewer are refused with a stall.
    fn handle_control_out<P: UsbPacket>(&mut self, pkt: P) -> (r: UsbAction<'static>)
        requires
            old(self).inv(),
        ensures
            final(self).inv(),
            final(self).spec_config() == old(self).spec_config(),
            ({
                let d = pkt.spec_data();
                &&& d.len() >= 7 ==> r@ == ActionView::TransferIn(0, seq![], true) && final(self)@ == (
                CdcAcmView {
                    line_coding: LineCoding::spec_from_bytes(d),
                    expecting_control_out: false,
                    ..old(self)@
                })
                &&& d.len() < 7 ==> r@ == ActionView::StallInAndOut(0) && final(self)@ == (CdcAcmView {
                    expecting_control_out: false,
                    ..old(self)@
                })
            }),
    {
        let ghost d = pkt.spec_data();
        let mut control_buf: Vec<u8> = vec![0u8; 8];
        let buf = pkt.copy_to_unaligned(control_buf.as_mut_slice());
        self.expecting_control_out = false;
        match LineCoding::try_from(buf) {
            Ok(x) => {
                assert(buf@.subrange(0, 4) =~= d.subrange(0, 4));
                self.line_coding = x;
                self.line_coding_bytes = x.as_bytes();
                let empty: &'static [u8] = &[];
                assert(empty@ =~= Seq::<u8>::empty());
                UsbAction::TransferIn { endpoint: 0, data: empty, zlp: true }
            },
            Err(_) => UsbAction::StallInAndOut { endpoint: 0 },
        }
    }

    /// What a transmission hands to the driver: the data IN endpoint and the
    /// whole transmit queue, oldest byte first.
    pub fn pending_transmit(&self) -> (r: (u8, &[u8]))
        ensures
            r.0 == self.spec_config().data_in_ep,
            r.1@ == self@.tx,
    {
        (self.config.data_in_ep, self.tx_queue.as_slice())
    }

    /// Hands the queued bytes to the driver on the data IN endpoint and drops
    /// what it took. An empty queue sends nothing.
    pub fn poll_transmit<D: UsbDriver>(&mut self, driver: &mut D)
        requires
            old(self).inv(),
        ensures
            final(self).inv(),
            final(self).spec_config() == old(self).spec_config(),
            old(self)@.tx.len() == 0 ==> final(driver).calls() == old(driver).calls() && final(self)@ == old(self)@,
            old(self)@.tx.len() > 0 ==> {
                let calls = final(driver).calls();
                let k = old(driver).calls().len();
                &&& calls.len() == k + 1
                &&& calls.take(k as int) == old(driver).calls()
                &&& match calls.last() {
                    DriverCall::TransferInUnaligned(e, sent, z, n) => {
                        &&& e == old(self).spec_config().data_in_ep
                        &&& sent == old(self)@.tx
                        &&& z
                        &&& final(self)@ == (CdcAcmView { tx: old(self)@.tx.skip(n as int), ..old(self)@ })
                    },
                    _ => false,
                }
            },
    {
        let (endpoint, data) = self.pending_transmit();
        if !data.is_empty() {
            let ghost before = driver.calls();
            let n = driver.transfer_in_unaligned(endpoint, data, true);
            assert(driver.calls().take(before.len() as int) =~= before);
            self.tx_queue.consume(n);
        }
    }
}

impl<const RX_SIZE: usize, const TX_SIZE: usize> UsbClass for CdcAcm<RX_SIZE, TX_SIZE> {
    closed spec fn wf(&self) -> bool {
        self.inv()
    }

    /// SETUP packets on endpoint 0 addressed to the communication interface
    /// get the class replies; the data stage of SET_LINE_CODING sets the
    /// line coding; packets on the data OUT endpoint go to the receive
    /// queue (their first 64 bytes, as far as the queue has room).
    /// Everything else is handed back.
    fn handle_event<'b, P: UsbPacket>(&'b mut self, event: UsbEvent<P>) -> (r: Result<UsbAction<'b>, UsbEvent<P>>)
        ensures
            final(self).spec_config() == old(self).spec_config(),
            match event {
                UsbEvent::SetupPacket { pkt, endpoint } => {
                    let req = pkt.spec_request_raw();
                    let mine = req % 32 == 1 && pkt.spec_index() as u8 == old(self).spec_config().comm_if;
                    if endpoint == 0 && mine {
                        r matches Ok(a) && a@ == spec_cdc_setup_action(req, old(self)@.line_coding)
                            && final(self)@ == (CdcAcmView {
                                expecting_control_out: old(self)@.expecting_control_out || req == 0x2021,
                                ..old(self)@
                            })
                    } else {
                        r == Err::<UsbAction<'b>, UsbEvent<P>>(event) && final(self)@ == old(self)@
                    }
                },
                UsbEvent::DataOutPacket(pkt) => {
                    let d = pkt.spec_data();
                    if pkt.spec_endpoint() == 0 && old(self)@.expecting_control_out {
                        r matches Ok(a) && if d.len() >= 7 {
                            a@ == ActionView::TransferIn(0, seq![], true) && final(self)@ == (CdcAcmView {
                                line_coding: LineCoding::spec_from_bytes(d),
                                expecting_control_out: false,
                                ..old(self)@
                            })
                        } else {
                            a@ == ActionView::StallInAndOut(0) && final(self)@ == (CdcAcmView {
                                expecting_control_out: false,
                                ..old(self)@
                            })
                        }
                    } else if pkt.spec_endpoint() == old(self).spec_config().data_out_ep as usize {
                        r matches Ok(a) && a@ is NoAction && final(self)@ == (CdcAcmView {
                            rx: spec_push_slice(old(self)@.rx, d.take(min(d.len() as int, 64)), RX_SIZE as int),
                            ..old(self)@
                        })
                    } else {
                        r == Err::<UsbAction<'b>, UsbEvent<P>>(event) && final(self)@ == old(self)@
                    }
                },
                _ => r == Err::<UsbAction<'b>, UsbEvent<P>>(event) && final(self)@ == old(self)@,
            },
    {
        match event {
            UsbEvent::SetupPacket { pkt, endpoint } => {
                if endpoint == 0 {
                    let (action, claimed) = self.handle_setup(pkt);
                    if !action.is_none() || claimed {
                        Ok(action)
                    } else {
                        Err(UsbEvent::SetupPacket { pkt, endpoint })
                    }
                } else {
                    Err(UsbEvent::SetupPacket { pkt, endpoint })
                }
            },
            UsbEvent::DataOutPacket(pkt) => {
                let ep = pkt.endpoint_index();
                if ep == 0 && self.expecting_control_out {
                    Ok(self.handle_control_out(pkt))
                } else if ep == self.config.data_out_ep as usize {
                    let mut tmp: Vec<u8> = vec![0u8; 64];
                    let buf = pkt.copy_to_unaligned(tmp.as_mut_slice());
                    let _ = self.rx_queue.push_slice(buf);
                    Ok(UsbAction::NoAction)
                } else {
                    Err(UsbEvent::DataOutPacket(pkt))
                }
            },
            _ => Err(event),
        }
    }
}

/// An encoded line coding is seven bytes: the data rate as a
/// little-endian 32-bit value, then the stop-bit code (0 for one, 1 for one
/// and a half, 2 for two stop bits), the parity code (0 none, 1 odd, 2
/// even, 3 mark, 4 space) and the number of data bits.
pub proof fn lemma_line_coding_fields(lc: LineCoding)
    ensures
        ({
            let b = lc.spec_bytes();
            &&& b.len() == 7
            &&& b[0] as int + 256 * b[1] as int + 65536 * b[2] as int + 16777216 * b[3] as int == lc.data_rate
            &&& b[4] == (match lc.stop_bits {
                StopBits::One => 0u8,
                StopBits::OnePointFive => 1u8,
                StopBits::Two => 2u8,
            })
            &&& b[5] == (match lc.parity {
                Parity::NoParity => 0u8,
                Parity::Odd => 1u8,
                Parity::Even => 2u8,
                Parity::Mark => 3u8,
                Parity::Space => 4u8,
            })
            &&& b[6] == lc.data_bits
        }),
{
    crate::bytes::lemma_le32_little_endian(lc.data_rate, lc.spec_bytes());
}

/// The class requests to the communication interface: GET_LINE_CODING
/// (0x21, device to host) answers the current line coding, SET_LINE_CODING
/// (0x20, host to device) waits for its data stage, SEND_ENCAPSULATED_COMMAND
/// (0x00) and SET_CONTROL_LINE_STATE (0x22) are acknowledged with an empty
/// status stage, and every other request is stalled.
pub proof fn lemma_class_requests(request: u8, dir: Direction, lc: LineCoding)
    ensures
        ({
            let req = Request::spec_pack(dir, RequestType::Class, Recipient::Interface, request) as u16;
            let a = spec_cdc_setup_action(req, lc);
            &&& (request == 0x21 && dir == Direction::DeviceToHost) ==> a == ActionView::TransferInUnaligned(
                0,
                lc.spec_bytes(),
                true,
            )
            &&& (request == 0x20 && dir == Direction::HostToDevice) ==> a is NoAction
            &&& ((request == 0x00 || request == 0x22) && dir == Direction::HostToDevice) ==> a
                == ActionView::TransferIn(0, seq![], true)
            &&& !((request == 0x21 && dir == Direction::DeviceToHost) || ((request == 0x20 || request == 0x00
                || request == 0x22) && dir == Direction::HostToDevice)) ==> a == ActionView::StallInAndOut(0)
        }),
{
}

} // verus!
