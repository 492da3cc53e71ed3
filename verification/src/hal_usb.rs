//! USB control-request vocabulary: request words, directions, request types,
//! recipients, descriptor types and the 8-byte SETUP packet.

use vstd::prelude::*;

verus! {

/// Data-transfer direction of a control request (bit 7 of `bmRequestType`).
#[derive(Clone, Copy, PartialEq, Eq, Structural, Debug)]
pub enum Direction {
    HostToDevice,
    DeviceToHost,
}

impl Direction {
    /// The numeric encoding of the direction.
    pub open spec fn bits(self) -> u32 {
        match self {
            Direction::HostToDevice => 0,
            Direction::DeviceToHost => 1,
        }
    }

    /// Decodes a direction; only 0 and 1 are directions.
    pub fn try_from(val: u32) -> (r: Result<Direction, ()>)
        ensures
            r is Ok <==> val < 2,
            r matches Ok(d) ==> d.bits() == val,
    {
        match val {
            0 => Ok(Direction::HostToDevice),
            1 => Ok(Direction::DeviceToHost),
            _ => Err(()),
        }
    }
}

impl From<Direction> for u32 {
    fn from(val: Direction) -> (r: u32) {
        match val {
            Direction::HostToDevice => 0,
            Direction::DeviceToHost => 1,
        }
    }
}

impl vstd::std_specs::convert::FromSpecImpl<Direction> for u32 {
    open spec fn obeys_from_spec() -> bool {
        true
    }

    open spec fn from_spec(v: Direction) -> u32 {
        v.bits()
    }
}

/// Request type of a control request (bits 5..6 of `bmRequestType`).
#[derive(Clone, Copy, PartialEq, Eq, Structural, Debug)]
pub enum RequestType {
    Standard,
    Class,
    Vendor,
    Reserved,
}

impl RequestType {
    /// The numeric encoding of the request type.
    pub open spec fn bits(self) -> u32 {
        match self {
            RequestType::Standard => 0,
            RequestType::Class => 1,
            RequestType::Vendor => 2,
            RequestType::Reserved => 3,
        }
    }

    /// Decodes a request type; only 0..=3 are request types.
    pub fn try_from(val: u32) -> (r: Result<RequestType, ()>)
        ensures
            r is Ok <==> val < 4,
            r matches Ok(t) ==> t.bits() == val,
    {
        match val {
            0 => Ok(RequestType::Standard),
            1 => Ok(RequestType::Class),
            2 => Ok(RequestType::Vendor),
            3 => Ok(RequestType::Reserved),
            _ => Err(()),
        }
    }
}

impl From<RequestType> for u32 {
    fn from(val: RequestType) -> (r: u32) {
        match val {
            RequestType::Standard => 0,
            RequestType::Class => 1,
            RequestType::Vendor => 2,
            RequestType::Reserved => 3,
        }
    }
}

impl vstd::std_specs::convert::FromSpecImpl<RequestType> for u32 {
    open spec fn obeys_from_spec() -> bool {
        true
    }

    open spec fn from_spec(v: RequestType) -> u32 {
        v.bits()
    }
}

/// Recipient of a control request (bits 0..4 of `bmRequestType`).
#[derive(Clone, Copy, PartialEq, Eq, Structural, Debug)]
pub enum Recipient {
    Device,
    Interface,
    Endpoint,
    Other,
    Reserved4,
    Reserved5,
    Reserved6,
    Reserved7,
    Reserved8,
    Reserved9,
    Reserved10,
    Reserved11,
    Reserved12,
    Reserved13,
    Reserved14,
    Reserved15,
    Reserved16,
    Reserved17,
    Reserved18,
    Reserved19,
    Reserved20,
    Reserved21,
    Reserved22,
    Reserved23,
    Reserved24,
    Reserved25,
    Reserved26,
    Reserved27,
    Reserved28,
    Reserved29,
    Reserved30,
    Reserved31,
}

impl Recipient {
    /// The numeric encoding of the recipient.
    pub open spec fn bits(self) -> u32 {
        match self {
            Recipient::Device => 0,
            Recipient::Interface => 1,
            Recipient::Endpoint => 2,
            Recipient::Other => 3,
            Recipient::Reserved4 => 4,
            Recipient::Reserved5 => 5,
            Recipient::Reserved6 => 6,
            Recipient::Reserved7 => 7,
            Recipient::Reserved8 => 8,
            Recipient::Reserved9 => 9,
            Recipient::Reserved10 => 10,
            Recipient::Reserved11 => 11,
            Recipient::Reserved12 => 12,
            Recipient::Reserved13 => 13,
            Recipient::Reserved14 => 14,
            Recipient::Reserved15 => 15,
            Recipient::Reserved16 => 16,
            Recipient::Reserved17 => 17,
            Recipient::Reserved18 => 18,
            Recipient::Reserved19 => 19,
            Recipient::Reserved20 => 20,
            Recipient::Reserved21 => 21,
            Recipient::Reserved22 => 22,
            Recipient::Reserved23 => 23,
            Recipient::Reserved24 => 24,
            Recipient::Reserved25 => 25,
            Recipient::Reserved26 => 26,
            Recipient::Reserved27 => 27,
            Recipient::Reserved28 => 28,
            Recipient::Reserved29 => 29,
            Recipient::Reserved30 => 30,
            Recipient::Reserved31 => 31,
        }
    }

    /// Decodes a recipient; only 0..=31 are recipients.
    pub fn try_from(val: u32) -> (r: Result<Recipient, ()>)
        ensures
            r is Ok <==> val < 32,
            r matches Ok(x) ==> x.bits() == val,
    {
        match val {
            0 => Ok(Recipient::Device),
            1 => Ok(Recipient::Interface),
            2 => Ok(Recipient::Endpoint),
            3 => Ok(Recipient::Other),
            4 => Ok(Recipient::Reserved4),
            5 => Ok(Recipient::Reserved5),
            6 => Ok(Recipient::Reserved6),
            7 => Ok(Recipient::Reserved7),
            8 => Ok(Recipient::Reserved8),
            9 => Ok(Recipient::Reserved9),
            10 => Ok(Recipient::Reserved10),
            11 => Ok(Recipient::Reserved11),
            12 => Ok(Recipient::Reserved12),
            13 => Ok(Recipient::Reserved13),
            14 => Ok(Recipient::Reserved14),
            15 => Ok(Recipient::Reserved15),
            16 => Ok(Recipient::Reserved16),
            17 => Ok(Recipient::Reserved17),
            18 => Ok(Recipient::Reserved18),
            19 => Ok(Recipient::Reserved19),
            20 => Ok(Recipient::Reserved20),
            21 => Ok(Recipient::Reserved21),
            22 => Ok(Recipient::Reserved22),
            23 => Ok(Recipient::Reserved23),
            24 => Ok(Recipient::Reserved24),
            25 => Ok(Recipient::Reserved25),
            26 => Ok(Recipient::Reserved26),
            27 => Ok(Recipient::Reserved27),
            28 => Ok(Recipient::Reserved28),
            29 => Ok(Recipient::Reserved29),
            30 => Ok(Recipient::Reserved30),
            31 => Ok(Recipient::Reserved31),
            _ => Err(()),
        }
    }
}

impl From<Recipient> for u32 {
    fn from(val: Recipient) -> (r: u32) {
        match val {
            Recipient::Device => 0,
            Recipient::Interface => 1,
            Recipient::Endpoint => 2,
            Recipient::Other => 3,
            Recipient::Reserved4 => 4,
            Recipient::Reserved5 => 5,
            Recipient::Reserved6 => 6,
            Recipient::Reserved7 => 7,
            Recipient::Reserved8 => 8,
            Recipient::Reserved9 => 9,
            Recipient::Reserved10 => 10,
            Recipient::Reserved11 => 11,
            Recipient::Reserved12 => 12,
            Recipient::Reserved13 => 13,
            Recipient::Reserved14 => 14,
            Recipient::Reserved15 => 15,
            Recipient::Reserved16 => 16,
            Recipient::Reserved17 => 17,
            Recipient::Reserved18 => 18,
            Recipient::Reserved19 => 19,
            Recipient::Reserved20 => 20,
            Recipient::Reserved21 => 21,
            Recipient::Reserved22 => 22,
            Recipient::Reserved23 => 23,
            Recipient::Reserved24 => 24,
            Recipient::Reserved25 => 25,
            Recipient::Reserved26 => 26,
            Recipient::Reserved27 => 27,
            Recipient::Reserved28 => 28,
            Recipient::Reserved29 => 29,
            Recipient::Reserved30 => 30,
            Recipient::Reserved31 => 31,
        }
    }
}

impl vstd::std_specs::convert::FromSpecImpl<Recipient> for u32 {
    open spec fn obeys_from_spec() -> bool {
        true
    }

    open spec fn from_spec(v: Recipient) -> u32 {
        v.bits()
    }
}

/// Each numeric encoding decodes back to the value it came from: a decoded
/// direction, request type or recipient is determined by its bits.
pub proof fn lemma_bits_injective()
    ensures
        forall|a: Direction, b: Direction| a.bits() == b.bits() ==> a == b,
        forall|a: RequestType, b: RequestType| a.bits() == b.bits() ==> a == b,
        forall|a: Recipient, b: Recipient| a.bits() == b.bits() ==> a == b,
        forall|a: Direction| a.bits() < 2,
        forall|a: RequestType| a.bits() < 4,
        forall|a: Recipient| a.bits() < 32,
{
}

/// The 16-bit `bmRequestType | bRequest << 8` word of a control request.
#[derive(Clone, Copy, PartialEq, Eq, Structural)]
pub struct Request(u16);

impl Request {
    /// The raw 16-bit request word.
    pub closed spec fn raw(self) -> u16 {
        self.0
    }

    /// The request word that `new` builds from its parts.
    pub open spec fn spec_pack(d: Direction, t: RequestType, r: Recipient, request: u8) -> int {
        request as int * 256 + d.bits() as int * 128 + t.bits() as int * 32 + r.bits() as int
    }

    /// Two requests are equal exactly when their words are.
    pub proof fn lemma_raw_injective(a: Request, b: Request)
        ensures
            a.raw() == b.raw() <==> a == b,
    {
    }

    /// Builds a request word from its direction, type, recipient and request code.
    pub fn new(direction: Direction, ty: RequestType, recipient: Recipient, request: u8) -> (r: Self)
        ensures
            r.raw() as int == Self::spec_pack(direction, ty, recipient, request),
    {
        let d: u16 = match direction {
            Direction::HostToDevice => 0,
            Direction::DeviceToHost => 1,
        };
        let t: u16 = match ty {
            RequestType::Standard => 0,
            RequestType::Class => 1,
            RequestType::Vendor => 2,
            RequestType::Reserved => 3,
        };
        let rc32: u32 = u32::from(recipient);
        let rc: u16 = rc32 as u16;
        let rq: u16 = request as u16;
        proof {
            lemma_bits_injective();
        }
        assert(d < 2 && t < 4 && rc < 32 ==> ((d << 7u16) | (t << 5u16) | rc | (rq << 8u16)) as int
            == rq as int * 256 + d as int * 128 + t as int * 32 + rc as int) by (bit_vector)
            requires rq < 256;
        Request((d << 7) | (t << 5) | rc | (rq << 8))
    }

    /// The direction bit of the request.
    pub fn direction(&self) -> (r: Direction)
        ensures
            r.bits() as int == (self.raw() as int / 128) % 2,
    {
        let w: u32 = self.0 as u32;
        let v: u32 = (w >> 7u32) & 1u32;
        assert((w >> 7u32) & 1u32 == (w / 128) % 2) by (bit_vector);
        match Direction::try_from(v) {
            Ok(d) => d,
            Err(_) => Direction::HostToDevice,
        }
    }

    /// The request-type bits of the request.
    pub fn request_type(&self) -> (r: RequestType)
        ensures
            r.bits() as int == (self.raw() as int / 32) % 4,
    {
        let w: u16 = self.0;
        let v: u32 = ((w >> 5u16) & 3u16) as u32;
        assert((w >> 5u16) & 3u16 == (w / 32) % 4) by (bit_vector);
        match RequestType::try_from(v) {
            Ok(t) => t,
            Err(_) => RequestType::Standard,
        }
    }

    /// The recipient bits of the request.
    pub fn recipient(&self) -> (r: Recipient)
        ensures
            r.bits() as int == self.raw() as int % 32,
    {
        let w: u16 = self.0;
        let v: u32 = (w & 0x1fu16) as u32;
        assert(w & 0x1fu16 == w % 32) by (bit_vector);
        match Recipient::try_from(v) {
            Ok(x) => x,
            Err(_) => Recipient::Device,
        }
    }

    /// The `bRequest` code of the request.
    pub fn request(&self) -> (r: u8)
        ensures
            r as int == self.raw() as int / 256,
    {
        let w: u16 = self.0;
        assert((w >> 8u16) & 0xffu16 == w / 256) by (bit_vector);
        ((w >> 8u16) & 0xffu16) as u8
    }

    /// Standard request `DEVICE_GET_STATUS`.
    #[allow(non_snake_case)]
    pub fn DEVICE_GET_STATUS() -> (r: Request)
        ensures
            r.raw() as int == Request::spec_pack(Direction::DeviceToHost, RequestType::Standard, Recipient::Device, 0x00),
            r.raw() == 0x0080,
    {
        Request::new(Direction::DeviceToHost, RequestType::Standard, Recipient::Device, 0x00)
    }

    /// Standard request `DEVICE_CLEAR_FEATURE`.
    #[allow(non_snake_case)]
    pub fn DEVICE_CLEAR_FEATURE() -> (r: Request)
        ensures
            r.raw() as int == Request::spec_pack(Direction::HostToDevice, RequestType::Standard, Recipient::Device, 0x01),
            r.raw() == 0x0100,
    {
        Request::new(Direction::HostToDevice, RequestType::Standard, Recipient::Device, 0x01)
    }

    /// Standard request `DEVICE_SET_FEATURE`.
    #[allow(non_snake_case)]
    pub fn DEVICE_SET_FEATURE() -> (r: Request)
        ensures
            r.raw() as int == Request::spec_pack(Direction::HostToDevice, RequestType::Standard, Recipient::Device, 0x03),
            r.raw() == 0x0300,
    {
        Request::new(Direction::HostToDevice, RequestType::Standard, Recipient::Device, 0x03)
    }

    /// Standard request `DEVICE_SET_ADDRESS`.
    #[allow(non_snake_case)]
    pub fn DEVICE_SET_ADDRESS() -> (r: Request)
        ensures
            r.raw() as int == Request::spec_pack(Direction::HostToDevice, RequestType::Standard, Recipient::Device, 0x05),
            r.raw() == 0x0500,
    {
        Request::new(Direction::HostToDevice, RequestType::Standard, Recipient::Device, 0x05)
    }

    /// Standard request `DEVICE_GET_DESCRIPTOR`.
    #[allow(non_snake_case)]
    pub fn DEVICE_GET_DESCRIPTOR() -> (r: Request)
        ensures
            r.raw() as int == Request::spec_pack(Direction::DeviceToHost, RequestType::Standard, Recipient::Device, 0x06),
            r.raw() == 0x0680,
    {
        Request::new(Direction::DeviceToHost, RequestType::Standard, Recipient::Device, 0x06)
    }

    /// Standard request `DEVICE_SET_DESCRIPTOR`.
    #[allow(non_snake_case)]
    pub fn DEVICE_SET_DESCRIPTOR() -> (r: Request)
        ensures
            r.raw() as int == Request::spec_pack(Direction::HostToDevice, RequestType::Standard, Recipient::Device, 0x07),
            r.raw() == 0x0700,
    {
        Request::new(Direction::HostToDevice, RequestType::Standard, Recipient::Device, 0x07)
    }

    /// Standard request `DEVICE_GET_CONFIGURATION`.
    #[allow(non_snake_case)]
    pub fn DEVICE_GET_CONFIGURATION() -> (r: Request)
        ensures
            r.raw() as int == Request::spec_pack(Direction::DeviceToHost, RequestType::Standard, Recipient::Device, 0x08),
            r.raw() == 0x0880,
    {
        Request::new(Direction::DeviceToHost, RequestType::Standard, Recipient::Device, 0x08)
    }

    /// Standard request `DEVICE_SET_CONFIGURATION`.
    #[allow(non_snake_case)]
    pub fn DEVICE_SET_CONFIGURATION() -> (r: Request)
        ensures
            r.raw() as int == Request::spec_pack(Direction::HostToDevice, RequestType::Standard, Recipient::Device, 0x09),
            r.raw() == 0x0900,
    {
        Request::new(Direction::HostToDevice, RequestType::Standard, Recipient::Device, 0x09)
    }

    /// Standard request `INTERFACE_GET_STATUS`.
    #[allow(non_snake_case)]
    pub fn INTERFACE_GET_STATUS() -> (r: Request)
        ensures
            r.raw() as int == Request::spec_pack(Direction::DeviceToHost, RequestType::Standard, Recipient::Interface, 0x00),
            r.raw() == 0x0081,
    {
        Request::new(Direction::DeviceToHost, RequestType::Standard, Recipient::Interface, 0x00)
    }

    /// Standard request `INTERFACE_CLEAR_FEATURE`.
    #[allow(non_snake_case)]
    pub fn INTERFACE_CLEAR_FEATURE() -> (r: Request)
        ensures
            r.raw() as int == Request::spec_pack(Direction::HostToDevice, RequestType::Standard, Recipient::Interface, 0x01),
            r.raw() == 0x0101,
    {
        Request::new(Direction::HostToDevice, RequestType::Standard, Recipient::Interface, 0x01)
    }

    /// Standard request `INTERFACE_SET_FEATURE`.
    #[allow(non_snake_case)]
    pub fn INTERFACE_SET_FEATURE() -> (r: Request)
        ensures
            r.raw() as int == Request::spec_pack(Direction::HostToDevice, RequestType::Standard, Recipient::Interface, 0x03),
            r.raw() == 0x0301,
    {
        Request::new(Direction::HostToDevice, RequestType::Standard, Recipient::Interface, 0x03)
    }

    /// Standard request `INTERFACE_GET_INTERFACE`.
    #[allow(non_snake_case)]
    pub fn INTERFACE_GET_INTERFACE() -> (r: Request)
        ensures
            r.raw() as int == Request::spec_pack(Direction::DeviceToHost, RequestType::Standard, Recipient::Interface, 0x0a),
            r.raw() == 0x0a81,
    {
        Request::new(Direction::DeviceToHost, RequestType::Standard, Recipient::Interface, 0x0a)
    }

    /// Standard request `INTERFACE_SET_INTERFACE`.
    #[allow(non_snake_case)]
    pub fn INTERFACE_SET_INTERFACE() -> (r: Request)
        ensures
            r.raw() as int == Request::spec_pack(Direction::HostToDevice, RequestType::Standard, Recipient::Interface, 0x0b),
            r.raw() == 0x0b01,
    {
        Request::new(Direction::HostToDevice, RequestType::Standard, Recipient::Interface, 0x0b)
    }

    /// Standard request `ENDPOINT_GET_STATUS`.
    #[allow(non_snake_case)]
    pub fn ENDPOINT_GET_STATUS() -> (r: Request)
        ensures
            r.raw() as int == Request::spec_pack(Direction::DeviceToHost, RequestType::Standard, Recipient::Endpoint, 0x00),
            r.raw() == 0x0082,
    {
        Request::new(Direction::DeviceToHost, RequestType::Standard, Recipient::Endpoint, 0x00)
    }

    /// Standard request `ENDPOINT_CLEAR_FEATURE`.
    #[allow(non_snake_case)]
    pub fn ENDPOINT_CLEAR_FEATURE() -> (r: Request)
        ensures
            r.raw() as int == Request::spec_pack(Direction::HostToDevice, RequestType::Standard, Recipient::Endpoint, 0x01),
            r.raw() == 0x0102,
    {
        Request::new(Direction::HostToDevice, RequestType::Standard, Recipient::Endpoint, 0x01)
    }

    /// Standard request `ENDPOINT_SET_FEATURE`.
    #[allow(non_snake_case)]
    pub fn ENDPOINT_SET_FEATURE() -> (r: Request)
        ensures
            r.raw() as int == Request::spec_pack(Direction::HostToDevice, RequestType::Standard, Recipient::Endpoint, 0x03),
            r.raw() == 0x0302,
    {
        Request::new(Direction::HostToDevice, RequestType::Standard, Recipient::Endpoint, 0x03)
    }

    /// Standard request `ENDPOINT_SYNCH_FRAME`.
    #[allow(non_snake_case)]
    pub fn ENDPOINT_SYNCH_FRAME() -> (r: Request)
        ensures
            r.raw() as int == Request::spec_pack(Direction::DeviceToHost, RequestType::Standard, Recipient::Endpoint, 0x12),
            r.raw() == 0x1282,
    {
        Request::new(Direction::DeviceToHost, RequestType::Standard, Recipient::Endpoint, 0x12)
    }
}

impl From<Request> for u16 {
    fn from(val: Request) -> (r: u16) {
        val.0
    }
}

impl vstd::std_specs::convert::FromSpecImpl<Request> for u16 {
    open spec fn obeys_from_spec() -> bool {
        true
    }

    open spec fn from_spec(v: Request) -> u16 {
        v.raw()
    }
}

/// A request built from its parts gives those parts back.
pub proof fn lemma_request_fields_roundtrip(d: Direction, t: RequestType, r: Recipient, request: u8)
    ensures
        0 <= Request::spec_pack(d, t, r, request) < 0x10000,
        (Request::spec_pack(d, t, r, request) / 128) % 2 == d.bits(),
        (Request::spec_pack(d, t, r, request) / 32) % 4 == t.bits(),
        Request::spec_pack(d, t, r, request) % 32 == r.bits(),
        Request::spec_pack(d, t, r, request) / 256 == request,
{
    lemma_bits_injective();
}


/// A USB descriptor type code (`bDescriptorType`).
#[derive(Clone, Copy, PartialEq, Eq, Structural)]
pub struct DescriptorType(u8);

impl DescriptorType {
    /// The raw descriptor type code.
    pub closed spec fn raw(self) -> u8 {
        self.0
    }

    /// Two descriptor types are equal exactly when their codes are.
    pub proof fn lemma_raw_injective(a: DescriptorType, b: DescriptorType)
        ensures
            a.raw() == b.raw() <==> a == b,
    {
    }

    /// Descriptor type code 1.
    #[allow(non_snake_case)]
    pub fn DEVICE() -> (r: DescriptorType)
        ensures
            r.raw() == 1,
    {
        DescriptorType(1)
    }

    /// Descriptor type code 2.
    #[allow(non_snake_case)]
    pub fn CONFIGURATION() -> (r: DescriptorType)
        ensures
            r.raw() == 2,
    {
        DescriptorType(2)
    }

    /// Descriptor type code 3.
    #[allow(non_snake_case)]
    pub fn STRING() -> (r: DescriptorType)
        ensures
            r.raw() == 3,
    {
        DescriptorType(3)
    }

    /// Descriptor type code 4.
    #[allow(non_snake_case)]
    pub fn INTERFACE() -> (r: DescriptorType)
        ensures
            r.raw() == 4,
    {
        DescriptorType(4)
    }

    /// Descriptor type code 5.
    #[allow(non_snake_case)]
    pub fn ENDPOINT() -> (r: DescriptorType)
        ensures
            r.raw() == 5,
    {
        DescriptorType(5)
    }

    /// Descriptor type code 6.
    #[allow(non_snake_case)]
    pub fn DEVICE_QUALIFIER() -> (r: DescriptorType)
        ensures
            r.raw() == 6,
    {
        DescriptorType(6)
    }
}

impl From<u8> for DescriptorType {
    fn from(val: u8) -> (r: DescriptorType) {
        DescriptorType(val)
    }
}

impl vstd::std_specs::convert::FromSpecImpl<u8> for DescriptorType {
    open spec fn obeys_from_spec() -> bool {
        true
    }

    closed spec fn from_spec(v: u8) -> DescriptorType {
        DescriptorType(v)
    }
}

/// Decoding a descriptor type from its code keeps the code.
pub proof fn lemma_descriptor_type_from_raw(v: u8)
    ensures
        <DescriptorType as vstd::std_specs::convert::FromSpec<u8>>::from_spec(v).raw() == v,
{
}

impl From<DescriptorType> for u8 {
    fn from(val: DescriptorType) -> (r: u8) {
        val.0
    }
}

impl vstd::std_specs::convert::FromSpecImpl<DescriptorType> for u8 {
    open spec fn obeys_from_spec() -> bool {
        true
    }

    open spec fn from_spec(v: DescriptorType) -> u8 {
        v.raw()
    }
}

impl From<DescriptorType> for u32 {
    fn from(val: DescriptorType) -> (r: u32) {
        val.0 as u32
    }
}

impl vstd::std_specs::convert::FromSpecImpl<DescriptorType> for u32 {
    open spec fn obeys_from_spec() -> bool {
        true
    }

    open spec fn from_spec(v: DescriptorType) -> u32 {
        v.raw() as u32
    }
}

/// The eight bytes of a SETUP packet, held as two little-endian words.
#[derive(Clone, Copy)]
pub struct SetupPacket {
    buf: [u32; 2],
}

impl SetupPacket {
    /// Word 0: `bmRequestType | bRequest << 8 | wValue << 16`.
    pub closed spec fn word0(self) -> u32 {
        self.buf@[0]
    }

    /// Word 1: `wIndex | wLength << 16`.
    pub closed spec fn word1(self) -> u32 {
        self.buf@[1]
    }

    /// The request word.
    pub open spec fn spec_request_raw(self) -> u16 {
        (self.word0() % 0x10000) as u16
    }

    /// `wValue`.
    pub open spec fn spec_value(self) -> u16 {
        (self.word0() / 0x10000) as u16
    }

    /// `wIndex`.
    pub open spec fn spec_index(self) -> u16 {
        (self.word1() % 0x10000) as u16
    }

    /// `wLength`.
    pub open spec fn spec_length(self) -> u16 {
        (self.word1() / 0x10000) as u16
    }

    /// Wraps the two words read from the hardware.
    pub fn new(buf: [u32; 2]) -> (r: SetupPacket)
        ensures
            r.word0() == buf@[0],
            r.word1() == buf@[1],
    {
        SetupPacket { buf }
    }

    /// The request word (low half of word 0).
    pub fn request(&self) -> (r: Request)
        ensures
            r.raw() as int == self.word0() as int % 0x10000,
            r.raw() == self.spec_request_raw(),
    {
        let w: u32 = self.buf[0];
        assert(w & 0xffffu32 == w % 0x10000) by (bit_vector);
        Request((w & 0xffffu32) as u16)
    }

    /// `wValue` (high half of word 0).
    pub fn value(&self) -> (r: u16)
        ensures
            r as int == self.word0() as int / 0x10000,
            r == self.spec_value(),
    {
        let w: u32 = self.buf[0];
        assert((w >> 16u32) & 0xffffu32 == w / 0x10000) by (bit_vector);
        ((w >> 16u32) & 0xffffu32) as u16
    }

    /// `wIndex` (low half of word 1).
    pub fn index(&self) -> (r: u16)
        ensures
            r as int == self.word1() as int % 0x10000,
            r == self.spec_index(),
    {
        let w: u32 = self.buf[1];
        assert(w & 0xffffu32 == w % 0x10000) by (bit_vector);
        (w & 0xffffu32) as u16
    }

    /// `wLength` (high half of word 1).
    pub fn length(&self) -> (r: u16)
        ensures
            r as int == self.word1() as int / 0x10000,
            r == self.spec_length(),
    {
        let w: u32 = self.buf[1];
        assert((w >> 16u32) & 0xffffu32 == w / 0x10000) by (bit_vector);
        ((w >> 16u32) & 0xffffu32) as u16
    }
}

/// The descriptor that a GET_DESCRIPTOR request asks for.
#[derive(Clone, Copy, PartialEq, Eq, Structural)]
pub struct DescriptorInfo {
    pub index: u8,
    pub ty: DescriptorType,
    pub lang: u16,
}

impl DescriptorInfo {
    /// Splits `wValue` into descriptor index (low byte) and type (high byte),
    /// and takes the language from `wIndex`.
    pub fn from(pkt: &SetupPacket) -> (r: DescriptorInfo)
        ensures
            r.index as int == (pkt.word0() as int / 0x10000) % 256,
            r.ty.raw() as int == pkt.word0() as int / 0x1000000,
            r.lang as int == pkt.word1() as int % 0x10000,
    {
        let v: u16 = pkt.value();
        assert(v & 0xffu16 == v % 256) by (bit_vector);
        assert((v >> 8u16) & 0xffu16 == v / 256) by (bit_vector);
        let index: u8 = (v & 0xffu16) as u8;
        let ty: u8 = ((v >> 8u16) & 0xffu16) as u8;
        assert(pkt.word0() as int / 0x1000000 == (pkt.word0() as int / 0x10000) / 256);
        DescriptorInfo { index, ty: DescriptorType(ty), lang: pkt.index() }
    }
}

} // verus!
