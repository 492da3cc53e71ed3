//! USB descriptors and their wire encodings.

use vstd::prelude::*;

use crate::hal_usb::Direction;
use vstd::string::StringSliceAdditionalSpecFns;

verus! {

pub const USB_CLASS_AUDIO: u8 = 0x01;
pub const USB_CLASS_COMMUNIATIONS: u8 = 0x02;
pub const USB_CLASS_HID: u8 = 0x03;
pub const USB_CLASS_PHYSICAL: u8 = 0x05;
pub const USB_CLASS_IMAGE: u8 = 0x06;
pub const USB_CLASS_PRINTER: u8 = 0x07;
pub const USB_CLASS_MASS_STORAGE: u8 = 0x08;
pub const USB_CLASS_HUB: u8 = 0x09;
pub const USB_CLASS_CDC_DATA: u8 = 0x0a;
pub const USB_CLASS_SMART_CARD: u8 = 0x0b;
pub const USB_CLASS_CONTENT_SECURITY: u8 = 0x0d;
pub const USB_CLASS_VIDEO: u8 = 0x0e;
pub const USB_CLASS_PERSONAL_HEALTHCARE: u8 = 0x0f;
pub const USB_CLASS_AUDIO_VIDEO: u8 = 0x10;
pub const USB_CLASS_BILLBOARD: u8 = 0x11;
pub const USB_CLASS_USB_TYPEC_BRIDGE: u8 = 0x12;
pub const USB_CLASS_BULK_DISPLAY: u8 = 0x13;
pub const USB_CLASS_MCTP: u8 = 0x14;
pub const USB_CLASS_I3C: u8 = 0x3c;
pub const USB_CLASS_DIAGNOSTIC_DEVICE: u8 = 0xdc;
pub const USB_CLASS_WIRELESS_CONTROLLER: u8 = 0xe0;
pub const USB_CLASS_MISC: u8 = 0xef;
pub const USB_CLASS_APPLICATION_SPECIFIC: u8 = 0xfe;
pub const USB_CLASS_VENDOR: u8 = 0xff;

pub const USB_SUBCLASS_APPLICATION_SPECIFIC_DFU: u8 = 0x01;

pub const USB_PROTOCOL_APPLICATION_SPECIFIC_DFU_RUNTIME_MODE: u8 = 0x01;
pub const USB_PROTOCOL_APPLICATION_SPECIFIC_DFU_DFU_MODE: u8 = 0x02;

/// The little-endian low byte of a 16-bit value.
pub open spec fn lo(v: u16) -> u8 {
    (v % 256) as u8
}

/// The little-endian high byte of a 16-bit value.
pub open spec fn hi(v: u16) -> u8 {
    (v / 256) as u8
}

/// Splits a 16-bit value into its little-endian bytes.
fn le16(v: u16) -> (r: (u8, u8))
    ensures
        r.0 == lo(v),
        r.1 == hi(v),
{
    assert((v & 0x00ffu16) >> 0u16 == v % 256) by (bit_vector);
    assert((v & 0xff00u16) >> 8u16 == v / 256) by (bit_vector);
    (((v & 0x00ffu16) >> 0u16) as u8, ((v & 0xff00u16) >> 8u16) as u8)
}

/// Index of a string descriptor; 0 means "no string".
#[derive(Clone, Copy, PartialEq, Eq, Structural, Debug)]
pub struct StringHandle(pub u8);

impl StringHandle {
    /// The handle that names no string.
    #[allow(non_snake_case)]
    pub fn NONE() -> (r: StringHandle)
        ensures
            r.0 == 0,
    {
        StringHandle(0)
    }
}

/// A device class code (`bDeviceClass`).
#[derive(Clone, Copy, PartialEq, Eq, Structural, Debug)]
pub struct DeviceClass(pub u8);

impl DeviceClass {
    #[allow(non_snake_case)]
    pub fn SPECIFIED_BY_INTERFACE() -> (r: DeviceClass)
        ensures
            r.0 == 0x00,
    {
        DeviceClass(0x00)
    }

    #[allow(non_snake_case)]
    pub fn COMMUNICATIONS_AND_CDC() -> (r: DeviceClass)
        ensures
            r.0 == 0x02,
    {
        DeviceClass(0x02)
    }

    #[allow(non_snake_case)]
    pub fn HUB() -> (r: DeviceClass)
        ensures
            r.0 == 0x09,
    {
        DeviceClass(0x09)
    }

    #[allow(non_snake_case)]
    pub fn BILLBOARD() -> (r: DeviceClass)
        ensures
            r.0 == 0x11,
    {
        DeviceClass(0x11)
    }

    #[allow(non_snake_case)]
    pub fn DIAGNOSTIC_DEVICE() -> (r: DeviceClass)
        ensures
            r.0 == 0x3c,
    {
        DeviceClass(0x3c)
    }

    #[allow(non_snake_case)]
    pub fn MISCELLANEOUS() -> (r: DeviceClass)
        ensures
            r.0 == 0xef,
    {
        DeviceClass(0xef)
    }

    #[allow(non_snake_case)]
    pub fn VENDOR_SPECIFIED() -> (r: DeviceClass)
        ensures
            r.0 == 0xff,
    {
        DeviceClass(0xff)
    }
}

impl From<DeviceClass> for u8 {
    fn from(val: DeviceClass) -> (r: u8) {
        val.0
    }
}

impl vstd::std_specs::convert::FromSpecImpl<DeviceClass> for u8 {
    open spec fn obeys_from_spec() -> bool {
        true
    }

    open spec fn from_spec(v: DeviceClass) -> u8 {
        v.0
    }
}

/// The standard device descriptor (USB 2.0, one configuration).
pub struct DeviceDescriptor {
    pub device_class: DeviceClass,
    pub device_sub_class: u8,
    pub device_protocol: u8,
    pub max_packet_size: u8,
    pub vendor_id: u16,
    pub product_id: u16,
    pub device_release_num: u16,
    pub manufacturer: StringHandle,
    pub product: StringHandle,
    pub serial_num: StringHandle,
}

impl DeviceDescriptor {
    /// The 18 bytes of the encoded device descriptor.
    pub open spec fn spec_bytes(&self) -> Seq<u8> {
        seq![
            18u8, 1u8, 0x00u8, 0x02u8,
            self.device_class.0, self.device_sub_class, self.device_protocol, self.max_packet_size,
            lo(self.vendor_id), hi(self.vendor_id),
            lo(self.product_id), hi(self.product_id),
            lo(self.device_release_num), hi(self.device_release_num),
            self.manufacturer.0, self.product.0, self.serial_num.0,
            1u8,
        ]
    }

    /// The encoded size of a device descriptor.
    pub fn total_size(&self) -> (r: usize)
        ensures
            r == 18,
            r == self.spec_bytes().len(),
    {
        18
    }

    /// Encodes the device descriptor.
    pub fn serialize(&self) -> (r: [u8; 18])
        ensures
            r@ == self.spec_bytes(),
    {
        let (vid_lo, vid_hi) = le16(self.vendor_id);
        let (pid_lo, pid_hi) = le16(self.product_id);
        let (rel_lo, rel_hi) = le16(self.device_release_num);
        let buf: [u8; 18] = [
            18, 1, 0x00, 0x02,
            self.device_class.0, self.device_sub_class, self.device_protocol, self.max_packet_size,
            vid_lo, vid_hi, pid_lo, pid_hi, rel_lo, rel_hi,
            self.manufacturer.0, self.product.0, self.serial_num.0,
            1,
        ];
        assert(buf@ =~= self.spec_bytes());
        buf
    }
}


/// Synchronisation type of an isochronous endpoint.
#[derive(Clone, Copy, PartialEq, Eq, Structural, Debug)]
pub enum SynchronizationType {
    NoSynchronization,
    Asynchronous,
    Adaptive,
    Synchronous,
}

/// Usage type of an isochronous endpoint.
#[derive(Clone, Copy, PartialEq, Eq, Structural, Debug)]
pub enum UsageType {
    DataEndpoint,
    FeedbackEndpoint,
    ExplicitFeedbackDataEndpoint,
}

/// Transfer type of an endpoint.
#[derive(Clone, Copy, PartialEq, Eq, Structural, Debug)]
pub enum TransferType {
    Control,
    Isochronous(SynchronizationType, UsageType),
    Bulk,
    Interrupt,
}

impl TransferType {
    /// The endpoint-type field value of the transfer type.
    pub open spec fn spec_eptyp(self) -> u32 {
        match self {
            TransferType::Control => 0,
            TransferType::Isochronous(_, _) => 1,
            TransferType::Bulk => 2,
            TransferType::Interrupt => 3,
        }
    }

    /// The endpoint-type field value of the transfer type.
    pub fn as_eptyp(self) -> (r: u32)
        ensures
            r == self.spec_eptyp(),
    {
        match self {
            TransferType::Control => 0,
            TransferType::Isochronous(_, _) => 1,
            TransferType::Bulk => 2,
            TransferType::Interrupt => 3,
        }
    }

    /// The `bmAttributes` byte of an endpoint with this transfer type.
    /// The synchronous isochronous case sets bits 3..4, as the encoder always has.
    pub open spec fn spec_attributes(self) -> u8 {
        match self {
            TransferType::Control => 0,
            TransferType::Isochronous(sync_type, usage_type) => {
                1u8 | (match sync_type {
                    SynchronizationType::NoSynchronization => 0u8,
                    SynchronizationType::Asynchronous => 4u8,
                    SynchronizationType::Adaptive => 8u8,
                    SynchronizationType::Synchronous => 24u8,
                }) | (match usage_type {
                    UsageType::DataEndpoint => 0u8,
                    UsageType::FeedbackEndpoint => 16u8,
                    UsageType::ExplicitFeedbackDataEndpoint => 32u8,
                })
            },
            TransferType::Bulk => 2,
            TransferType::Interrupt => 3,
        }
    }
}

/// An endpoint descriptor.
#[derive(Clone, Copy)]
pub struct EndpointDescriptor {
    pub direction: Direction,
    pub endpoint_num: u8,
    pub transfer_type: TransferType,
    pub max_packet_size: u16,
    pub interval: u8,
}

/// The encoded size of an endpoint descriptor.
pub const ENDPOINT_DESCRIPTOR_SIZE: usize = 7;

impl EndpointDescriptor {
    /// The `bEndpointAddress` byte: endpoint number (low three bits) and direction bit.
    pub open spec fn spec_address(&self) -> u8 {
        (self.endpoint_num & 7u8) | (match self.direction {
            Direction::HostToDevice => 0u8,
            Direction::DeviceToHost => 0x80u8,
        })
    }

    /// The 7 bytes of the encoded endpoint descriptor.
    pub open spec fn spec_bytes(&self) -> Seq<u8> {
        seq![
            7u8, 5u8, self.spec_address(), self.transfer_type.spec_attributes(),
            lo(self.max_packet_size), hi(self.max_packet_size), self.interval,
        ]
    }

    /// The encoded size of an endpoint descriptor.
    pub fn total_size(&self) -> (r: usize)
        ensures
            r == 7,
            r == self.spec_bytes().len(),
    {
        ENDPOINT_DESCRIPTOR_SIZE
    }

    /// Encodes the endpoint descriptor; the index is not part of the encoding.
    pub fn serialize(&self, _index: u8) -> (r: [u8; 7])
        ensures
            r@ == self.spec_bytes(),
    {
        let dir: u8 = match self.direction {
            Direction::HostToDevice => 0,
            Direction::DeviceToHost => 0x80,
        };
        let attributes: u8 = match self.transfer_type {
            TransferType::Control => 0,
            TransferType::Isochronous(sync_type, usage_type) => {
                1u8 | (match sync_type {
                    SynchronizationType::NoSynchronization => 0u8,
                    SynchronizationType::Asynchronous => 4u8,
                    SynchronizationType::Adaptive => 8u8,
                    SynchronizationType::Synchronous => 24u8,
                }) | (match usage_type {
                    UsageType::DataEndpoint => 0u8,
                    UsageType::FeedbackEndpoint => 16u8,
                    UsageType::ExplicitFeedbackDataEndpoint => 32u8,
                })
            },
            TransferType::Bulk => 2,
            TransferType::Interrupt => 3,
        };
        let (mps_lo, mps_hi) = le16(self.max_packet_size);
        let buf: [u8; 7] = [
            ENDPOINT_DESCRIPTOR_SIZE as u8, 5, (self.endpoint_num & 0x7u8) | dir, attributes,
            mps_lo, mps_hi, self.interval,
        ];
        assert(buf@ =~= self.spec_bytes());
        buf
    }
}

/// The language table (string descriptor 0).
pub struct StringDescriptor0 {
    pub langs: Vec<u16>,
}

/// The little-endian bytes of a sequence of 16-bit values.
pub open spec fn le16_bytes(s: Seq<u16>) -> Seq<u8>
    decreases s.len(),
{
    if s.len() == 0 {
        seq![]
    } else {
        le16_bytes(s.drop_last()) + seq![lo(s.last()), hi(s.last())]
    }
}

/// Each 16-bit value becomes two bytes.
pub proof fn lemma_le16_bytes_len(s: Seq<u16>)
    ensures
        le16_bytes(s).len() == 2 * s.len(),
    decreases s.len(),
{
    if s.len() > 0 {
        lemma_le16_bytes_len(s.drop_last());
    }
}

impl StringDescriptor0 {
    /// The encoded size: a two-byte header and two bytes per language.
    pub open spec fn spec_total_size(&self) -> int {
        2 + 2 * self.langs@.len() as int
    }

    /// The encoded descriptor.
    pub open spec fn spec_bytes(&self) -> Seq<u8> {
        seq![self.spec_total_size() as u8, 3u8] + le16_bytes(self.langs@)
    }

    /// The encoded size: a two-byte header and two bytes per language.
    pub fn total_size(&self) -> (r: usize)
        requires
            self.spec_total_size() <= usize::MAX,
        ensures
            r == self.spec_total_size(),
    {
        2 + self.langs.len() * 2
    }

    /// Encodes the language table; it must fit in its one-byte length field.
    pub fn serialize(&self) -> (r: Vec<u8>)
        requires
            self.spec_total_size() <= 255,
        ensures
            r@ == self.spec_bytes(),
    {
        let total = self.total_size();
        let mut buf: Vec<u8> = Vec::new();
        buf.push(total as u8);
        buf.push(3);
        let mut i: usize = 0;
        while i < self.langs.len()
            invariant
                i <= self.langs@.len(),
                self.spec_total_size() <= 255,
                total == self.spec_total_size(),
                buf@ == seq![total as u8, 3u8] + le16_bytes(self.langs@.take(i as int)),
            decreases self.langs@.len() - i,
        {
            let (b0, b1) = le16(self.langs[i]);
            proof {
                assert(self.langs@.take(i + 1).drop_last() =~= self.langs@.take(i as int));
            }
            buf.push(b0);
            buf.push(b1);
            i += 1;
        }
        assert(self.langs@.take(i as int) =~= self.langs@);
        buf
    }
}

/// Errors of the string-descriptor encoders.
#[derive(Debug, Clone, Copy, PartialEq, Eq, Structural)]
pub enum DescriptorErr {
    Overflow,
    Encoding,
}

/// Lower-case hexadecimal digit of a nibble, as ASCII.
pub open spec fn hex_digit(n: u8) -> u8 {
    if n < 10 {
        (48 + n) as u8
    } else {
        (87 + n) as u8
    }
}

/// UTF-16LE lower-case hexadecimal text of a byte string: four bytes per byte.
pub open spec fn hex_utf16(src: Seq<u8>) -> Seq<u8>
    decreases src.len(),
{
    if src.len() == 0 {
        seq![]
    } else {
        hex_utf16(src.drop_last()) + seq![
            hex_digit(src.last() / 16), 0u8, hex_digit(src.last() % 16), 0u8,
        ]
    }
}

/// Each source byte becomes four descriptor bytes.
pub proof fn lemma_hex_utf16_len(src: Seq<u8>)
    ensures
        hex_utf16(src).len() == 4 * src.len(),
    decreases src.len(),
{
    if src.len() > 0 {
        lemma_hex_utf16_len(src.drop_last());
    }
}

/// The hexadecimal digit of a nibble.
fn hex_char(n: u8) -> (r: u8)
    requires
        n < 16,
    ensures
        r == hex_digit(n),
{
    let hex_chars: [u8; 16] = [
        0x30, 0x31, 0x32, 0x33, 0x34, 0x35, 0x36, 0x37, 0x38, 0x39, 0x61, 0x62, 0x63, 0x64, 0x65,
        0x66,
    ];
    assert(hex_chars@ =~= seq![48u8, 49, 50, 51, 52, 53, 54, 55, 56, 57, 97, 98, 99, 100, 101, 102]);
    hex_chars[n as usize]
}

/// The string descriptor that spells `src` in lower-case hexadecimal.
pub open spec fn hex_descriptor_bytes(src: Seq<u8>) -> Seq<u8> {
    seq![(src.len() * 4 + 2) as u8, 3u8] + hex_utf16(src)
}

/// Writes a string descriptor that spells `src` in lower-case hexadecimal
/// (UTF-16LE) to the start of `dest` and returns its length. Fails with
/// `Overflow` when `dest` is too short or the length does not fit in a byte;
/// `dest` is then unchanged.
pub fn hex_utf16_descriptor(dest: &mut [u8], src: &[u8]) -> (r: Result<usize, DescriptorErr>)
    requires
        src@.len() * 4 + 2 <= usize::MAX,
    ensures
        final(dest)@.len() == old(dest)@.len(),
        (old(dest)@.len() < src@.len() * 4 + 2 || src@.len() * 4 + 2 > 255) <==> r is Err,
        r matches Err(e) ==> e == DescriptorErr::Overflow && final(dest)@ == old(dest)@,
        r matches Ok(n) ==> {
            &&& n == src@.len() * 4 + 2
            &&& final(dest)@ == hex_descriptor_bytes(src@) + old(dest)@.skip(n as int)
        },
{
    let total_len: usize = src.len() * 4 + 2;
    if dest.len() < total_len || total_len > 255 {
        return Err(DescriptorErr::Overflow);
    }
    let ghost d0 = dest@;
    dest[0] = total_len as u8;
    dest[1] = 3;
    let mut i: usize = 2;
    let mut k: usize = 0;
    proof {
        lemma_hex_utf16_len(src@);
    }
    while k < src.len()
        invariant
            k <= src@.len(),
            i == 2 + 4 * k,
            total_len == src@.len() * 4 + 2,
            total_len <= dest@.len(),
            dest@.len() == d0.len(),
            dest@ == seq![total_len as u8, 3u8] + hex_utf16(src@.take(k as int)) + d0.skip(i as int),
        decreases src@.len() - k,
    {
        let b: u8 = src[k];
        let ghost before = dest@;
        proof {
            lemma_hex_utf16_len(src@.take(k as int));
            assert(src@.take(k + 1).drop_last() =~= src@.take(k as int));
        }
        assert(b >> 4u8 == b / 16) by (bit_vector);
        assert(b & 0xfu8 == b % 16) by (bit_vector);
        dest[i] = hex_char(b >> 4u8);
        dest[i + 1] = 0;
        dest[i + 2] = hex_char(b & 0xfu8);
        dest[i + 3] = 0;
        proof {
            lemma_hex_utf16_len(src@.take(k + 1));
            assert(dest@ =~= seq![total_len as u8, 3u8] + hex_utf16(src@.take(k + 1)) + d0.skip(i + 4));
        }
        i += 4;
        k += 1;
    }
    assert(src@.take(k as int) =~= src@);
    assert(dest@ =~= hex_descriptor_bytes(src@) + d0.skip(total_len as int));
    Ok(total_len)
}

/// A borrowed, encoded string descriptor.
#[derive(Clone, Copy)]
pub struct StringDescriptorRef<'a>(pub &'a [u8]);

impl<'a> StringDescriptorRef<'a> {
    /// The encoded bytes.
    pub fn as_bytes(self) -> (r: &'a [u8])
        ensures
            r@ == self.0@,
    {
        self.0
    }
}

/// Writes the hexadecimal string descriptor of `src` into `dest` and returns
/// the written prefix, or `Overflow` as `hex_utf16_descriptor` does.
pub fn hex_utf16_descriptor_aligned<'a>(dest: &'a mut [u8], src: &[u8]) -> (r: Result<
    StringDescriptorRef<'a>,
    DescriptorErr,
>)
    requires
        src@.len() * 4 + 2 <= usize::MAX,
    ensures
        (old(dest)@.len() < src@.len() * 4 + 2 || src@.len() * 4 + 2 > 255) <==> r is Err,
        r matches Err(e) ==> e == DescriptorErr::Overflow,
        r matches Ok(d) ==> d.0@ == hex_descriptor_bytes(src@),
{
    match hex_utf16_descriptor(dest, src) {
        Ok(len) => {
            proof {
                lemma_hex_utf16_len(src@);
            }
            let out: &'a [u8] = dest;
            let prefix = vstd::slice::slice_subrange(out, 0, len);
            assert(prefix@ =~= hex_descriptor_bytes(src@));
            Ok(StringDescriptorRef(prefix))
        },
        Err(e) => Err(e),
    }
}


/// `d` with the bytes from `off` on replaced by `b`.
pub open spec fn splice(d: Seq<u8>, off: int, b: Seq<u8>) -> Seq<u8> {
    d.take(off) + b + d.skip(off + b.len())
}

/// The DFU functional descriptor.
#[derive(Clone, Copy)]
pub struct DfuFunctionalDescriptor {
    /// New firmware can be received from the host
    pub can_download: bool,
    /// Current firmware can be sent back to the host
    pub can_upload: bool,
    /// Device can still communicate with the host after the manifestation phase.
    pub manifestation_tolerant: bool,
    /// Device will detach from the USB bus autonomously after receiving
    /// DFU_DETACH; the host does not need to explicitly issue a bus reset.
    pub will_detach: bool,
    /// Timeout the device will wait to be reset by host after receiving DFU_DETACH.
    pub detach_timeout_ms: u16,
    /// The number of bytes the device can receive per control request.
    pub transfer_size: u16,
}

/// 1 for true, 0 for false.
pub open spec fn flag(b: bool) -> int {
    if b {
        1
    } else {
        0
    }
}

/// A flag placed at bit `index` of a byte.
fn bit(index: u8, val: bool) -> (r: u8)
    requires
        index < 8,
    ensures
        r as int == flag(val) * (if index == 0 { 1int } else if index == 1 { 2int } else if index == 2 { 4int } else if index == 3 { 8int } else if index == 4 { 16int } else if index == 5 { 32int } else if index == 6 { 64int } else { 128int }),
{
    let v: u8 = if val { 1 } else { 0 };
    assert(v <= 1 && index < 8 ==> (v << index) as int == v as int * (if index == 0 { 1int } else if index == 1 { 2int } else if index == 2 { 4int } else if index == 3 { 8int } else if index == 4 { 16int } else if index == 5 { 32int } else if index == 6 { 64int } else { 128int })) by (bit_vector);
    v << index
}

impl DfuFunctionalDescriptor {
    /// The `bmAttributes` byte.
    pub open spec fn spec_attributes(&self) -> int {
        flag(self.can_download) + 2 * flag(self.can_upload) + 4 * flag(self.manifestation_tolerant)
            + 8 * flag(self.will_detach)
    }

    /// The 9 bytes of the encoded DFU functional descriptor (DFU version 1.0).
    pub open spec fn spec_bytes(&self) -> Seq<u8> {
        seq![
            9u8, 0x21u8, self.spec_attributes() as u8,
            lo(self.detach_timeout_ms), hi(self.detach_timeout_ms),
            lo(self.transfer_size), hi(self.transfer_size),
            0x00u8, 0x01u8,
        ]
    }

    /// The encoded size of a DFU functional descriptor.
    pub fn total_size(&self) -> (r: usize)
        ensures
            r == 9,
            r == self.spec_bytes().len(),
    {
        9
    }

    /// Writes the descriptor into `dest` at `offset`.
    pub fn serialize(&self, dest: &mut [u8], offset: usize)
        requires
            offset + 9 <= old(dest)@.len(),
        ensures
            final(dest)@ == splice(old(dest)@, offset as int, self.spec_bytes()),
    {
        let ghost d0 = dest@;
        dest[offset] = 9;
        dest[offset + 1] = 0x21;
        let b0 = bit(0, self.can_download);
        let b1 = bit(1, self.can_upload);
        let b2 = bit(2, self.manifestation_tolerant);
        let b3 = bit(3, self.will_detach);
        assert(b0 <= 1 && (b1 == 0 || b1 == 2) && (b2 == 0 || b2 == 4) && (b3 == 0 || b3 == 8)
            ==> (b0 | b1 | b2 | b3) as int == b0 as int + b1 as int + b2 as int + b3 as int) by (bit_vector);
        dest[offset + 2] = b0 | b1 | b2 | b3;
        copy_u16(dest, offset + 3, self.detach_timeout_ms);
        copy_u16(dest, offset + 5, self.transfer_size);
        copy_u16(dest, offset + 7, 0x0100);
        assert(dest@ =~= splice(d0, offset as int, self.spec_bytes()));
    }
}

/// Writes `val` little-endian at `index`.
fn copy_u16(dest: &mut [u8], index: usize, val: u16)
    requires
        index + 2 <= old(dest)@.len(),
    ensures
        final(dest)@ == old(dest)@.update(index as int, lo(val)).update(index + 1, hi(val)),
{
    let (b0, b1) = le16(val);
    dest[index] = b0;
    dest[index + 1] = b1;
}

/// A functional descriptor given by its type and raw content.
pub struct RawFunctionalDescriptor {
    pub descriptor_type: u8,
    pub content: Vec<u8>,
}

impl RawFunctionalDescriptor {
    /// The encoded size: two header bytes and the content.
    pub open spec fn spec_total_size(&self) -> int {
        self.content@.len() as int + 2
    }

    /// The encoded descriptor; its length byte wraps at 256.
    pub open spec fn spec_bytes(&self) -> Seq<u8> {
        seq![self.spec_total_size() as u8, self.descriptor_type] + self.content@
    }

    /// The encoded size: two header bytes and the content.
    pub fn total_size(&self) -> (r: usize)
        requires
            self.spec_total_size() <= usize::MAX,
        ensures
            r == self.spec_total_size(),
    {
        self.content.len() + 2
    }

    /// Writes the descriptor into `dest` at `offset`.
    pub fn serialize(&self, dest: &mut [u8], offset: usize)
        requires
            offset + self.spec_total_size() <= old(dest)@.len(),
        ensures
            final(dest)@ == splice(old(dest)@, offset as int, self.spec_bytes()),
    {
        let ghost d0 = dest@;
        let n = dest.len();
        dest[offset] = self.total_size() as u8;
        dest[offset + 1] = self.descriptor_type;
        let mut i: usize = 0;
        while i < self.content.len()
            invariant
                i <= self.content@.len(),
                n == d0.len(),
                offset + self.spec_total_size() <= d0.len(),
                dest@.len() == d0.len(),
                dest@ == d0.take(offset as int) + seq![self.spec_total_size() as u8, self.descriptor_type]
                    + self.content@.take(i as int) + d0.skip(offset + 2 + i),
            decreases self.content@.len() - i,
        {
            dest[offset + 2 + i] = self.content[i];
            assert(dest@ =~= d0.take(offset as int) + seq![self.spec_total_size() as u8, self.descriptor_type]
                + self.content@.take(i + 1) + d0.skip(offset + 2 + i + 1));
            i += 1;
        }
        assert(self.content@.take(i as int) =~= self.content@);
        assert(dest@ =~= splice(d0, offset as int, self.spec_bytes()));
    }
}

/// A class-specific functional descriptor.
pub enum FunctionalDescriptor {
    Dfu(DfuFunctionalDescriptor),
    Raw(RawFunctionalDescriptor),
}

impl FunctionalDescriptor {
    /// The encoded size.
    pub open spec fn spec_total_size(&self) -> int {
        match self {
            FunctionalDescriptor::Dfu(_) => 9,
            FunctionalDescriptor::Raw(raw) => raw.spec_total_size(),
        }
    }

    /// The encoded descriptor.
    pub open spec fn spec_bytes(&self) -> Seq<u8> {
        match self {
            FunctionalDescriptor::Dfu(dfu) => dfu.spec_bytes(),
            FunctionalDescriptor::Raw(raw) => raw.spec_bytes(),
        }
    }

    /// The encoding is as long as the size says.
    pub proof fn lemma_bytes_len(&self)
        ensures
            self.spec_bytes().len() == self.spec_total_size(),
    {
    }

    /// A raw functional descriptor.
    pub fn raw(descriptor_type: u8, content: Vec<u8>) -> (r: Self)
        ensures
            r matches FunctionalDescriptor::Raw(raw) && raw.descriptor_type == descriptor_type
                && raw.content@ == content@,
    {
        FunctionalDescriptor::Raw(RawFunctionalDescriptor { descriptor_type, content })
    }

    /// The encoded size.
    pub fn total_size(&self) -> (r: usize)
        requires
            self.spec_total_size() <= usize::MAX,
        ensures
            r == self.spec_total_size(),
    {
        match self {
            FunctionalDescriptor::Dfu(dfu) => dfu.total_size(),
            FunctionalDescriptor::Raw(raw) => raw.total_size(),
        }
    }

    /// Writes the descriptor into `dest` at `offset`.
    pub fn serialize(&self, dest: &mut [u8], offset: usize)
        requires
            offset + self.spec_total_size() <= old(dest)@.len(),
        ensures
            final(dest)@ == splice(old(dest)@, offset as int, self.spec_bytes()),
    {
        match self {
            FunctionalDescriptor::Dfu(dfu) => dfu.serialize(dest, offset),
            FunctionalDescriptor::Raw(raw) => raw.serialize(dest, offset),
        }
    }
}

/// Total encoded size of a list of functional descriptors.
pub open spec fn func_descs_size(s: Seq<FunctionalDescriptor>) -> int
    decreases s.len(),
{
    if s.len() == 0 {
        0
    } else {
        func_descs_size(s.drop_last()) + s.last().spec_total_size()
    }
}

/// Concatenated encodings of a list of functional descriptors.
pub open spec fn func_descs_bytes(s: Seq<FunctionalDescriptor>) -> Seq<u8>
    decreases s.len(),
{
    if s.len() == 0 {
        seq![]
    } else {
        func_descs_bytes(s.drop_last()) + s.last().spec_bytes()
    }
}

/// Concatenated encodings of a list of endpoint descriptors.
pub open spec fn endpoints_bytes(s: Seq<EndpointDescriptor>) -> Seq<u8>
    decreases s.len(),
{
    if s.len() == 0 {
        seq![]
    } else {
        endpoints_bytes(s.drop_last()) + s.last().spec_bytes()
    }
}

/// The concatenated encodings are as long as the sizes say, and sizes only grow.
pub proof fn lemma_func_descs(s: Seq<FunctionalDescriptor>, k: int)
    requires
        0 <= k <= s.len(),
    ensures
        func_descs_bytes(s).len() == func_descs_size(s),
        func_descs_size(s.take(k)) <= func_descs_size(s),
        func_descs_size(s) >= 0,
    decreases s.len(),
{
    if s.len() > 0 {
        lemma_func_descs(s.drop_last(), if k == s.len() { k - 1 } else { k });
        if k == s.len() {
            assert(s.take(k) =~= s);
        } else {
            assert(s.drop_last().take(k) =~= s.take(k));
        }
    } else {
        assert(s.take(k) =~= s);
    }
}

/// Each endpoint contributes seven bytes.
pub proof fn lemma_endpoints_bytes_len(s: Seq<EndpointDescriptor>)
    ensures
        endpoints_bytes(s).len() == 7 * s.len(),
    decreases s.len(),
{
    if s.len() > 0 {
        lemma_endpoints_bytes_len(s.drop_last());
    }
}

/// An interface descriptor with its functional and endpoint descriptors.
pub struct InterfaceDescriptor {
    pub name: StringHandle,
    pub alternate_setting: u8,
    pub interface_number: u8,
    pub interface_class: u8,
    pub interface_sub_class: u8,
    pub interface_protocol: u8,
    pub func_descs: Vec<FunctionalDescriptor>,
    pub endpoints: Vec<EndpointDescriptor>,
}

impl InterfaceDescriptor {
    /// The encoded size of the interface and everything under it.
    pub open spec fn spec_total_size(&self) -> int {
        9 + func_descs_size(self.func_descs@) + 7 * self.endpoints@.len() as int
    }

    /// The nine header bytes; the endpoint count wraps at 256.
    pub open spec fn spec_header(&self) -> Seq<u8> {
        seq![
            9u8, 4u8, self.interface_number, self.alternate_setting, self.endpoints@.len() as u8,
            self.interface_class, self.interface_sub_class, self.interface_protocol, self.name.0,
        ]
    }

    /// The encoded interface: header, functional descriptors, then endpoints.
    pub open spec fn spec_bytes(&self) -> Seq<u8> {
        self.spec_header() + func_descs_bytes(self.func_descs@) + endpoints_bytes(self.endpoints@)
    }

    /// The encoding is as long as the size says.
    pub proof fn lemma_bytes_len(&self)
        ensures
            self.spec_bytes().len() == self.spec_total_size(),
    {
        lemma_func_descs(self.func_descs@, 0);
        lemma_endpoints_bytes_len(self.endpoints@);
    }

    /// The encoded size of the interface and everything under it.
    pub fn total_size(&self) -> (r: usize)
        requires
            self.spec_total_size() <= usize::MAX,
        ensures
            r == self.spec_total_size(),
    {
        let mut result: usize = 9;
        let mut i: usize = 0;
        proof {
            lemma_func_descs(self.func_descs@, 0);
        }
        while i < self.func_descs.len()
            invariant
                i <= self.func_descs@.len(),
                self.spec_total_size() <= usize::MAX,
                result == 9 + func_descs_size(self.func_descs@.take(i as int)),
            decreases self.func_descs@.len() - i,
        {
            proof {
                assert(self.func_descs@.take(i + 1).drop_last() =~= self.func_descs@.take(i as int));
                lemma_func_descs(self.func_descs@, i + 1);
            }
            result += self.func_descs[i].total_size();
            i += 1;
        }
        assert(self.func_descs@.take(i as int) =~= self.func_descs@);
        let mut j: usize = 0;
        while j < self.endpoints.len()
            invariant
                j <= self.endpoints@.len(),
                self.spec_total_size() <= usize::MAX,
                result == 9 + func_descs_size(self.func_descs@) + 7 * j,
            decreases self.endpoints@.len() - j,
        {
            result += self.endpoints[j].total_size();
            j += 1;
        }
        result
    }

    /// Encodes the interface, its functional descriptors and its endpoints.
    pub fn serialize(&self) -> (r: Vec<u8>)
        requires
            self.spec_total_size() <= usize::MAX,
        ensures
            r@ == self.spec_bytes(),
    {
        let total = self.total_size();
        let mut buf: Vec<u8> = vec![0u8; total];
        proof {
            self.lemma_bytes_len();
            lemma_func_descs(self.func_descs@, 0);
        }
        buf.set(0, 9);
        buf.set(1, 4);
        buf.set(2, self.interface_number);
        buf.set(3, self.alternate_setting);
        buf.set(4, self.endpoints.len() as u8);
        buf.set(5, self.interface_class);
        buf.set(6, self.interface_sub_class);
        buf.set(7, self.interface_protocol);
        buf.set(8, self.name.0);
        assert(buf@.take(9) =~= self.spec_header());
        let mut offset: usize = 9;
        let mut i: usize = 0;
        while i < self.func_descs.len()
            invariant
                i <= self.func_descs@.len(),
                total == self.spec_total_size(),
                total <= usize::MAX,
                buf@.len() == total,
                offset == 9 + func_descs_size(self.func_descs@.take(i as int)),
                buf@.take(offset as int) == self.spec_header() + func_descs_bytes(self.func_descs@.take(i as int)),
                func_descs_size(self.func_descs@) + 9 <= total,
            decreases self.func_descs@.len() - i,
        {
            let ghost before = buf@;
            proof {
                assert(self.func_descs@.take(i + 1).drop_last() =~= self.func_descs@.take(i as int));
                lemma_func_descs(self.func_descs@, i + 1);
                self.func_descs@[i as int].lemma_bytes_len();
            }
            let fd = &self.func_descs[i];
            fd.serialize(buf.as_mut_slice(), offset);
            let sz = fd.total_size();
            proof {
                assert(buf@.take(offset + sz) =~= before.take(offset as int) + fd.spec_bytes());
            }
            offset += sz;
            i += 1;
        }
        assert(self.func_descs@.take(i as int) =~= self.func_descs@);
        let mut j: usize = 0;
        proof {
            lemma_endpoints_bytes_len(self.endpoints@);
        }
        while j < self.endpoints.len()
            invariant
                j <= self.endpoints@.len(),
                total == self.spec_total_size(),
                buf@.len() == total,
                offset == 9 + func_descs_size(self.func_descs@) + 7 * j,
                buf@.take(offset as int) == self.spec_header() + func_descs_bytes(self.func_descs@)
                    + endpoints_bytes(self.endpoints@.take(j as int)),
            decreases self.endpoints@.len() - j,
        {
            let ghost before = buf@;
            proof {
                assert(self.endpoints@.take(j + 1).drop_last() =~= self.endpoints@.take(j as int));
            }
            let ep_buf = self.endpoints[j].serialize(j as u8);
            let base = offset;
            let mut k: usize = 0;
            while k < 7
                invariant
                    k <= 7,
                    base + 7 <= total,
                    buf@.len() == total,
                    offset == base + k,
                    buf@.take(offset as int) == before.take(base as int) + ep_buf@.take(k as int),
                decreases 7 - k,
            {
                let ghost pre = buf@;
                let byte = ep_buf[k];
                buf.set(offset, byte);
                assert(buf@.take(offset as int) =~= pre.take(offset as int));
                assert(ep_buf@.take(k + 1) =~= ep_buf@.take(k as int).push(byte));
                assert(buf@.take(offset + 1) =~= buf@.take(offset as int).push(byte));
                assert(buf@.take(offset + 1) =~= before.take(base as int) + ep_buf@.take(k + 1));
                offset += 1;
                k += 1;
            }
            assert(ep_buf@.take(7) =~= ep_buf@);
            assert(buf@.take(offset as int) =~= self.spec_header() + func_descs_bytes(self.func_descs@)
                + endpoints_bytes(self.endpoints@.take(j + 1)));
            j += 1;
        }
        assert(self.endpoints@.take(j as int) =~= self.endpoints@);
        assert(buf@.take(offset as int) =~= buf@);
        buf
    }
}


/// Total encoded size of a list of interfaces.
pub open spec fn interfaces_size(s: Seq<InterfaceDescriptor>) -> int
    decreases s.len(),
{
    if s.len() == 0 {
        0
    } else {
        interfaces_size(s.drop_last()) + s.last().spec_total_size()
    }
}

/// Concatenated encodings of a list of interfaces.
pub open spec fn interfaces_bytes(s: Seq<InterfaceDescriptor>) -> Seq<u8>
    decreases s.len(),
{
    if s.len() == 0 {
        seq![]
    } else {
        interfaces_bytes(s.drop_last()) + s.last().spec_bytes()
    }
}

/// Number of distinct interfaces: one more than the largest interface
/// number (alternate settings share a number), 0 when there are none.
pub open spec fn interface_count(s: Seq<InterfaceDescriptor>) -> int
    decreases s.len(),
{
    if s.len() == 0 {
        0
    } else {
        let rest = interface_count(s.drop_last());
        let n = s.last().interface_number as int + 1;
        if n > rest {
            n
        } else {
            rest
        }
    }
}

/// Sizes of interfaces are non-negative, so a prefix is no larger than the whole.
pub proof fn lemma_interfaces(s: Seq<InterfaceDescriptor>, k: int)
    requires
        0 <= k <= s.len(),
    ensures
        interfaces_size(s.take(k)) <= interfaces_size(s),
        interfaces_size(s) >= 0,
        interfaces_bytes(s).len() == interfaces_size(s),
        forall|i: int| 0 <= i < s.len() ==> s[i].spec_total_size() <= interfaces_size(s),
    decreases s.len(),
{
    if s.len() > 0 {
        lemma_interfaces(s.drop_last(), if k == s.len() { k - 1 } else { k });
        lemma_func_descs(s.last().func_descs@, 0);
        s.last().lemma_bytes_len();
        if k == s.len() {
            assert(s.take(k) =~= s);
        } else {
            assert(s.drop_last().take(k) =~= s.take(k));
        }
        assert forall|i: int| 0 <= i < s.len() implies s[i].spec_total_size() <= interfaces_size(s) by {
            if i < s.len() - 1 {
                assert(s[i] == s.drop_last()[i]);
            }
        }
    } else {
        assert(s.take(k) =~= s);
    }
}

/// The interface count lies between 0 and 255 when every number is below 255.
pub proof fn lemma_interface_count(s: Seq<InterfaceDescriptor>)
    requires
        forall|i: int| 0 <= i < s.len() ==> s[i].interface_number < 255,
    ensures
        0 <= interface_count(s) <= 255,
    decreases s.len(),
{
    if s.len() > 0 {
        lemma_interface_count(s.drop_last());
    }
}

/// A configuration descriptor with its interfaces.
pub struct ConfigDescriptor {
    pub configuration_value: u8,
    /// in 2 mA units
    pub max_power: u8,
    pub self_powered: bool,
    pub remote_wakeup: bool,
    pub interfaces: Vec<InterfaceDescriptor>,
}

impl ConfigDescriptor {
    /// The encoded size of the configuration and everything under it.
    pub open spec fn spec_total_size(&self) -> int {
        9 + interfaces_size(self.interfaces@)
    }

    /// The nine header bytes; `wTotalLength` is the size modulo 65536.
    pub open spec fn spec_header(&self) -> Seq<u8> {
        seq![
            9u8, 2u8, (self.spec_total_size() % 256) as u8, ((self.spec_total_size() / 256) % 256) as u8,
            interface_count(self.interfaces@) as u8, self.configuration_value, 0u8,
            (0x80 + 0x40 * flag(self.self_powered) + 0x20 * flag(self.remote_wakeup)) as u8,
            self.max_power,
        ]
    }

    /// The encoded configuration: header, then each interface in order.
    pub open spec fn spec_bytes(&self) -> Seq<u8> {
        self.spec_header() + interfaces_bytes(self.interfaces@)
    }

    /// What encoding needs: the size fits in `usize` and no interface number is 255.
    pub open spec fn spec_serializable(&self) -> bool {
        &&& self.spec_total_size() <= usize::MAX
        &&& forall|i: int| 0 <= i < self.interfaces@.len() ==> self.interfaces@[i].interface_number < 255
    }

    /// The encoded size of the configuration and everything under it.
    pub fn total_size(&self) -> (r: usize)
        requires
            self.spec_total_size() <= usize::MAX,
        ensures
            r == self.spec_total_size(),
    {
        let mut result: usize = 9;
        let mut i: usize = 0;
        proof {
            lemma_interfaces(self.interfaces@, 0);
        }
        while i < self.interfaces.len()
            invariant
                i <= self.interfaces@.len(),
                self.spec_total_size() <= usize::MAX,
                result == 9 + interfaces_size(self.interfaces@.take(i as int)),
            decreases self.interfaces@.len() - i,
        {
            proof {
                assert(self.interfaces@.take(i + 1).drop_last() =~= self.interfaces@.take(i as int));
                lemma_interfaces(self.interfaces@, i + 1);
                lemma_interfaces(self.interfaces@.take(i + 1), i as int);
                lemma_interfaces(self.interfaces@, 0);
            }
            result += self.interfaces[i].total_size();
            i += 1;
        }
        assert(self.interfaces@.take(i as int) =~= self.interfaces@);
        result
    }

    /// Encodes the configuration descriptor and all its interfaces.
    pub fn serialize(&self) -> (r: Vec<u8>)
        requires
            self.spec_serializable(),
        ensures
            r@ == self.spec_bytes(),
            r@.len() == self.spec_total_size(),
    {
        let total = self.total_size();
        proof {
            lemma_interfaces(self.interfaces@, 0);
            lemma_interface_count(self.interfaces@);
        }
        let mut uniq_interface_count: u8 = 0;
        let mut i: usize = 0;
        while i < self.interfaces.len()
            invariant
                i <= self.interfaces@.len(),
                forall|j: int| 0 <= j < self.interfaces@.len() ==> self.interfaces@[j].interface_number < 255,
                uniq_interface_count == interface_count(self.interfaces@.take(i as int)),
            decreases self.interfaces@.len() - i,
        {
            proof {
                assert(self.interfaces@.take(i + 1).drop_last() =~= self.interfaces@.take(i as int));
            }
            if self.interfaces[i].interface_number + 1 > uniq_interface_count {
                uniq_interface_count = self.interfaces[i].interface_number + 1;
            }
            i += 1;
        }
        assert(self.interfaces@.take(i as int) =~= self.interfaces@);
        let mut buf: Vec<u8> = Vec::new();
        buf.push(9);
        buf.push(2);
        assert((total & 0x00ffusize) >> 0usize == total % 256) by (bit_vector);
        assert((total & 0xff00usize) >> 8usize == (total / 256) % 256) by (bit_vector);
        buf.push(((total & 0x00ff) >> 0) as u8);
        buf.push(((total & 0xff00) >> 8) as u8);
        buf.push(uniq_interface_count);
        buf.push(self.configuration_value);
        buf.push(0);
        let sp: u8 = if self.self_powered { 1 << 6u8 } else { 0 };
        let rw: u8 = if self.remote_wakeup { 1 << 5u8 } else { 0 };
        assert((sp == 0 || sp == 64) && (rw == 0 || rw == 32) ==> ((1u8 << 7u8) | sp | rw) as int == 0x80 + sp as int + rw as int) by (bit_vector);
        assert(1u8 << 6u8 == 64u8) by (bit_vector);
        assert(1u8 << 5u8 == 32u8) by (bit_vector);
        buf.push((1 << 7u8) | sp | rw);
        buf.push(self.max_power);
        assert(buf@ =~= self.spec_header());
        let mut k: usize = 0;
        while k < self.interfaces.len()
            invariant
                k <= self.interfaces@.len(),
                self.spec_total_size() <= usize::MAX,
                interfaces_size(self.interfaces@) + 9 <= usize::MAX,
                forall|i: int| 0 <= i < self.interfaces@.len() ==> self.interfaces@[i].spec_total_size() <= interfaces_size(self.interfaces@),
                buf@ == self.spec_header() + interfaces_bytes(self.interfaces@.take(k as int)),
            decreases self.interfaces@.len() - k,
        {
            proof {
                assert(self.interfaces@.take(k + 1).drop_last() =~= self.interfaces@.take(k as int));
            }
            let mut iface_buf = self.interfaces[k].serialize();
            buf.append(&mut iface_buf);
            k += 1;
        }
        assert(self.interfaces@.take(k as int) =~= self.interfaces@);
        buf
    }
}


/// UTF-16LE encoding of ASCII bytes: each byte followed by a zero byte.
pub open spec fn ascii_utf16(b: Seq<u8>) -> Seq<u8>
    decreases b.len(),
{
    if b.len() == 0 {
        seq![]
    } else {
        ascii_utf16(b.drop_last()) + seq![b.last(), 0u8]
    }
}

/// Each ASCII byte becomes two bytes.
pub proof fn lemma_ascii_utf16_len(b: Seq<u8>)
    ensures
        ascii_utf16(b).len() == 2 * b.len(),
    decreases b.len(),
{
    if b.len() > 0 {
        lemma_ascii_utf16_len(b.drop_last());
    }
}

/// Every byte of the string is ASCII (below 0x80).
pub open spec fn all_ascii(b: Seq<u8>) -> bool {
    forall|i: int| 0 <= i < b.len() ==> b[i] < 0x80
}

/// An owned, encoded string descriptor.
pub struct StringDescriptor {
    bytes: Vec<u8>,
}

impl StringDescriptor {
    /// The encoded bytes.
    pub closed spec fn spec_bytes(&self) -> Seq<u8> {
        self.bytes@
    }

    /// The string descriptor of an ASCII string: its length, type 3, then the
    /// string in UTF-16LE. The string must be ASCII and short enough for the
    /// one-byte length field.
    pub fn const_from_ascii(s: &str) -> (r: Self)
        requires
            2 * s.spec_bytes().len() + 2 <= 255,
            all_ascii(s.spec_bytes()),
        ensures
            r.spec_bytes() == seq![(2 * s.spec_bytes().len() + 2) as u8, 3u8] + ascii_utf16(s.spec_bytes()),
    {
        let b = s.as_bytes();
        let byte_len: usize = b.len() * 2 + 2;
        let mut result: Vec<u8> = Vec::new();
        result.push(byte_len as u8);
        result.push(0x03);
        let mut i: usize = 0;
        while i < b.len()
            invariant
                i <= b@.len(),
                b@ == s.spec_bytes(),
                byte_len == 2 * b@.len() + 2,
                result@ == seq![byte_len as u8, 3u8] + ascii_utf16(b@.take(i as int)),
            decreases b@.len() - i,
        {
            proof {
                assert(b@.take(i + 1).drop_last() =~= b@.take(i as int));
            }
            result.push(b[i]);
            result.push(0);
            i += 1;
        }
        assert(b@.take(i as int) =~= b@);
        StringDescriptor { bytes: result }
    }

    /// A borrowed view of the encoded bytes.
    pub fn as_ref(&self) -> (r: StringDescriptorRef<'_>)
        ensures
            r.0@ == self.spec_bytes(),
    {
        StringDescriptorRef(self.bytes.as_slice())
    }
}

/// The error of a failed string write.
#[derive(Debug, Clone, Copy, PartialEq, Eq, Structural)]
pub struct WriteError;

/// Builds a string descriptor in a buffer of 2 to 257 bytes from ASCII text
/// written piece by piece.
pub struct StringDescriptorWritter<'a> {
    buf: &'a mut [u8],
    index: usize,
}

impl<'a> StringDescriptorWritter<'a> {
    /// The writer's position lies within its buffer of at most 257 bytes.
    pub closed spec fn wf(&self) -> bool {
        &&& 2 <= self.index <= self.buf@.len()
        &&& self.buf@.len() <= 257
    }

    /// The buffer being filled.
    pub closed spec fn spec_buf(&self) -> Seq<u8> {
        self.buf@
    }

    /// The position of the next byte to write.
    pub closed spec fn spec_index(&self) -> int {
        self.index as int
    }

    /// Starts a string descriptor in `buf`, which must hold 2 to 257 bytes;
    /// a refused buffer is left as it was.
    pub fn new(buf: &'a mut [u8]) -> (r: Result<Self, DescriptorErr>)
        ensures
            (old(buf)@.len() < 2 || old(buf)@.len() > 257) <==> r is Err,
            r matches Err(e) ==> e == DescriptorErr::Overflow && final(buf)@ == old(buf)@,
            r matches Ok(w) ==> w.wf() && w.spec_index() == 2 && w.spec_buf() == old(buf)@.update(1, 3u8),
    {
        if buf.len() < 2 || buf.len() > 2 + 255 {
            return Err(DescriptorErr::Overflow);
        }
        buf[1] = 3;
        Ok(StringDescriptorWritter { buf, index: 2 })
    }

    /// Appends `s` in UTF-16LE. Fails, writing nothing, when the rest of the
    /// buffer is too small for the whole string; fails at the first non-ASCII
    /// byte, keeping the bytes before it.
    pub fn write_str(&mut self, s: &str) -> (r: Result<(), WriteError>)
        requires
            old(self).wf(),
            s.spec_bytes().len() * 2 <= usize::MAX,
        ensures
            final(self).wf(),
            ({
                let b = s.spec_bytes();
                let idx = old(self).spec_index();
                &&& (old(self).spec_buf().len() - idx < 2 * b.len()) ==> (r is Err && *final(self) == *old(self))
                &&& (old(self).spec_buf().len() - idx >= 2 * b.len() && all_ascii(b)) ==> {
                    &&& r is Ok
                    &&& final(self).spec_index() == idx + 2 * b.len()
                    &&& final(self).spec_buf() == splice(old(self).spec_buf(), idx, ascii_utf16(b))
                }
                &&& (old(self).spec_buf().len() - idx >= 2 * b.len() && !all_ascii(b)) ==> exists|k: int| #![trigger b.take(k)] {
                    &&& 0 <= k < b.len()
                    &&& b[k] >= 0x80
                    &&& all_ascii(b.take(k))
                    &&& r is Err
                    &&& final(self).spec_index() == idx + 2 * k
                    &&& final(self).spec_buf() == splice(old(self).spec_buf(), idx, ascii_utf16(b.take(k)))
                }
            }),
    {
        let bytes = s.as_bytes();
        let remaining: usize = self.buf.len() - self.index;
        if remaining < bytes.len() * 2 {
            return Err(WriteError);
        }
        let ghost b0 = self.buf@;
        let ghost idx0 = self.index;
        let mut i: usize = 0;
        while i < bytes.len()
            invariant
                i <= bytes@.len(),
                bytes@ == s.spec_bytes(),
                b0 == old(self).spec_buf(),
                idx0 == old(self).spec_index(),
                self.index == idx0 + 2 * i,
                idx0 + 2 * bytes@.len() <= b0.len(),
                b0.len() <= 257,
                2 <= idx0,
                self.buf@.len() == b0.len(),
                self.buf@ == splice(b0, idx0 as int, ascii_utf16(bytes@.take(i as int))),
                all_ascii(bytes@.take(i as int)),
            decreases bytes@.len() - i,
        {
            proof {
                lemma_ascii_utf16_len(bytes@.take(i as int));
            }
            let b = bytes[i];
            if b >= 0x80 {
                proof {
                    let k = i as int;
                    assert(bytes@[k] >= 0x80);
                    assert(!all_ascii(bytes@));
                    assert(self.buf@ == splice(b0, idx0 as int, ascii_utf16(bytes@.take(k))));
                }
                return Err(WriteError);
            }
            let ghost pre = self.buf@;
            let idx = self.index;
            self.buf[idx] = b;
            self.buf[idx + 1] = 0;
            self.index = idx + 2;
            proof {
                assert(bytes@.take(i + 1).drop_last() =~= bytes@.take(i as int));
                lemma_ascii_utf16_len(bytes@.take(i + 1));
                assert(self.buf@ =~= splice(b0, idx0 as int, ascii_utf16(bytes@.take(i + 1))));
            }
            i += 1;
        }
        assert(bytes@.take(i as int) =~= bytes@);
        Ok(())
    }

    /// Finishes the descriptor: sets its length byte and returns its bytes.
    /// Fails with `Overflow` when more than 255 bytes were written.
    pub fn finalize(self) -> (r: Result<&'a [u8], DescriptorErr>)
        requires
            self.wf(),
        ensures
            self.spec_index() > 255 <==> r is Err,
            r matches Err(e) ==> e == DescriptorErr::Overflow,
            r matches Ok(bytes) ==> bytes@ == self.spec_buf().take(self.spec_index()).update(0, self.spec_index() as u8),
    {
        let buf = self.buf;
        let index = self.index;
        if index > 255 {
            return Err(DescriptorErr::Overflow);
        }
        buf[0] = index as u8;
        if index > buf.len() {
            return Err(DescriptorErr::Overflow);
        }
        let all: &'a [u8] = buf;
        let out = vstd::slice::slice_subrange(all, 0, index);
        assert(out@ =~= self.buf@.take(index as int).update(0, index as u8));
        Ok(out)
    }
}

/// The 16-bit value whose little-endian bytes are `b[i]` and `b[i + 1]`.
pub open spec fn u16_at(b: Seq<u8>, i: int) -> int {
    b[i] as int + 256 * b[i + 1] as int
}

/// An encoded device descriptor is 18 bytes, starts with its own length and
/// the device type (1), and holds USB 2.0, the class triple, the packet
/// size, the vendor, product and release numbers as little-endian 16-bit
/// values at bytes 8, 10 and 12, the three string indices, and one
/// configuration.
pub proof fn lemma_device_descriptor_fields(d: DeviceDescriptor)
    ensures
        ({
            let b = d.spec_bytes();
            &&& b.len() == 18
            &&& b[0] as int == b.len()
            &&& b[1] == 1
            &&& u16_at(b, 2) == 0x0200
            &&& b[4] == d.device_class.0 && b[5] == d.device_sub_class && b[6] == d.device_protocol
            &&& b[7] == d.max_packet_size
            &&& u16_at(b, 8) == d.vendor_id as int
            &&& u16_at(b, 10) == d.product_id as int
            &&& u16_at(b, 12) == d.device_release_num as int
            &&& b[14] == d.manufacturer.0 && b[15] == d.product.0 && b[16] == d.serial_num.0
            &&& b[17] == 1
        }),
{
}

/// An encoded endpoint descriptor is 7 bytes, starts with its own length
/// and the endpoint type (5); its address byte carries the direction in
/// bit 7 (set for device-to-host) and the endpoint number (modulo 8) in the
/// low bits; the low two bits of its attributes are the transfer type
/// (control 0, isochronous 1, bulk 2, interrupt 3); the maximum packet size
/// is the little-endian 16-bit value at byte 4, and the interval follows.
pub proof fn lemma_endpoint_descriptor_fields(e: EndpointDescriptor)
    ensures
        ({
            let b = e.spec_bytes();
            &&& b.len() == 7
            &&& b[0] as int == b.len()
            &&& b[1] == 5
            &&& (b[2] & 0x80u8 == 0x80u8) == (e.direction == Direction::DeviceToHost)
            &&& b[2] & 0x7fu8 == e.endpoint_num & 7u8
            &&& (b[3] & 3u8) as u32 == e.transfer_type.spec_eptyp()
            &&& u16_at(b, 4) == e.max_packet_size as int
            &&& b[6] == e.interval
        }),
{
    let n = e.endpoint_num;
    assert(((n & 7u8) | 0x80u8) & 0x80u8 == 0x80u8 && ((n & 7u8) | 0x80u8) & 0x7fu8 == n & 7u8) by (bit_vector);
    assert(((n & 7u8) | 0u8) & 0x80u8 == 0u8 && ((n & 7u8) | 0u8) & 0x7fu8 == n & 7u8) by (bit_vector);
    match e.transfer_type {
        TransferType::Isochronous(s, u) => {
            let sb: u8 = match s {
                SynchronizationType::NoSynchronization => 0u8,
                SynchronizationType::Asynchronous => 4u8,
                SynchronizationType::Adaptive => 8u8,
                SynchronizationType::Synchronous => 24u8,
            };
            let ub: u8 = match u {
                UsageType::DataEndpoint => 0u8,
                UsageType::FeedbackEndpoint => 16u8,
                UsageType::ExplicitFeedbackDataEndpoint => 32u8,
            };
            assert((sb == 0 || sb == 4 || sb == 8 || sb == 24) && (ub == 0 || ub == 16 || ub == 32) ==> (1u8 | sb
                | ub) & 3u8 == 1u8) by (bit_vector);
        },
        TransferType::Control => {
            assert(0u8 & 3u8 == 0u8) by (bit_vector);
        },
        TransferType::Bulk => {
            assert(2u8 & 3u8 == 2u8) by (bit_vector);
        },
        TransferType::Interrupt => {
            assert(3u8 & 3u8 == 3u8) by (bit_vector);
        },
    }
}

/// An encoded language table starts with its length and the string type
/// (3), and then holds each language id, in order, as a little-endian
/// 16-bit value.
pub proof fn lemma_language_table_fields(t: StringDescriptor0)
    requires
        t.spec_total_size() <= 255,
    ensures
        ({
            let b = t.spec_bytes();
            &&& b.len() == 2 + 2 * t.langs@.len()
            &&& b[0] as int == b.len()
            &&& b[1] == 3
            &&& forall|i: int| 0 <= i < t.langs@.len() ==> #[trigger] u16_at(b, 2 + 2 * i) == t.langs@[i] as int
        }),
{
    lemma_le16_bytes_fields(t.langs@);
    let b = t.spec_bytes();
    assert forall|i: int| 0 <= i < t.langs@.len() implies #[trigger] u16_at(b, 2 + 2 * i) == t.langs@[i] as int by {
        assert(b[2 + 2 * i] == le16_bytes(t.langs@)[2 * i]);
        assert(b[2 + 2 * i + 1] == le16_bytes(t.langs@)[2 * i + 1]);
        assert(u16_at(le16_bytes(t.langs@), 2 * i) == t.langs@[i] as int);
    }
}

/// Each value of `s` is little-endian at its place in `le16_bytes(s)`.
proof fn lemma_le16_bytes_fields(s: Seq<u16>)
    ensures
        le16_bytes(s).len() == 2 * s.len(),
        forall|i: int| 0 <= i < s.len() ==> #[trigger] u16_at(le16_bytes(s), 2 * i) == s[i] as int,
    decreases s.len(),
{
    if s.len() > 0 {
        lemma_le16_bytes_fields(s.drop_last());
        let b = le16_bytes(s);
        let p = le16_bytes(s.drop_last());
        assert forall|i: int| 0 <= i < s.len() implies #[trigger] u16_at(le16_bytes(s), 2 * i) == s[i] as int by {
            if i < s.len() - 1 {
                assert(s[i] == s.drop_last()[i]);
                assert(u16_at(p, 2 * i) == s[i] as int);
                assert(b[2 * i] == p[2 * i] && b[2 * i + 1] == p[2 * i + 1]);
            } else {
                assert(b[2 * i] == lo(s.last()) && b[2 * i + 1] == hi(s.last()));
            }
        }
    }
}

/// An encoded DFU functional descriptor is 9 bytes, starts with its length
/// and the DFU functional type (0x21); its attribute bits are download (0),
/// upload (1), manifestation tolerance (2) and detach (3); the detach
/// timeout and transfer size are little-endian 16-bit values at bytes 3 and
/// 5, and the DFU version is 1.0 (0x0100).
pub proof fn lemma_dfu_descriptor_fields(f: DfuFunctionalDescriptor)
    ensures
        ({
            let b = f.spec_bytes();
            &&& b.len() == 9
            &&& b[0] as int == b.len()
            &&& b[1] == 0x21
            &&& (b[2] as int % 2 == 1) == f.can_download
            &&& (b[2] as int / 2 % 2 == 1) == f.can_upload
            &&& (b[2] as int / 4 % 2 == 1) == f.manifestation_tolerant
            &&& (b[2] as int / 8 % 2 == 1) == f.will_detach
            &&& b[2] < 16
            &&& u16_at(b, 3) == f.detach_timeout_ms as int
            &&& u16_at(b, 5) == f.transfer_size as int
            &&& u16_at(b, 7) == 0x0100
        }),
{
}

/// The total length field (bytes 2 and 3, little-endian) of an encoded
/// configuration descriptor is the length of the whole encoding, where
/// that length fits in 16 bits; byte 0 is the header length (9) and byte 1
/// the configuration type (2).
pub proof fn lemma_config_total_length(c: ConfigDescriptor)
    requires
        c.spec_total_size() <= 0xffff,
    ensures
        ({
            let b = c.spec_bytes();
            &&& b[0] == 9
            &&& b[1] == 2
            &&& u16_at(b, 2) == b.len()
        }),
{
    lemma_interfaces(c.interfaces@, 0);
}

/// Each ASCII byte becomes one UTF-16LE code unit: the byte, then 0.
pub proof fn lemma_ascii_utf16_fields(b: Seq<u8>)
    ensures
        ascii_utf16(b).len() == 2 * b.len(),
        forall|i: int| 0 <= i < b.len() ==> #[trigger] ascii_utf16(b)[2 * i] == b[i] && ascii_utf16(b)[2 * i + 1] == 0,
    decreases b.len(),
{
    if b.len() > 0 {
        lemma_ascii_utf16_fields(b.drop_last());
        assert forall|i: int| 0 <= i < b.len() implies #[trigger] ascii_utf16(b)[2 * i] == b[i] && ascii_utf16(b)[2 * i
            + 1] == 0 by {
            if i < b.len() - 1 {
                assert(b[i] == b.drop_last()[i]);
                assert(ascii_utf16(b.drop_last())[2 * i] == b.drop_last()[i]);
            }
        }
    }
}

/// The value of a lower-case hexadecimal digit character.
pub open spec fn hex_value(c: u8) -> int {
    if 0x30 <= c <= 0x39 {
        c - 0x30
    } else {
        c - 0x61 + 10
    }
}

/// A lower-case hexadecimal digit character: '0' to '9' or 'a' to 'f'.
pub open spec fn is_hex_char(c: u8) -> bool {
    (0x30 <= c <= 0x39) || (0x61 <= c <= 0x66)
}

/// The hexadecimal string descriptor of `src` starts with its length and
/// the string type (3); then each source byte is two UTF-16LE characters,
/// lower-case hexadecimal digits, high nibble first, that read back as the
/// byte.
pub proof fn lemma_hex_descriptor_fields(src: Seq<u8>)
    requires
        src.len() * 4 + 2 <= 255,
    ensures
        ({
            let b = hex_descriptor_bytes(src);
            &&& b.len() == 2 + 4 * src.len()
            &&& b[0] as int == b.len()
            &&& b[1] == 3
            &&& forall|i: int| 0 <= i < src.len() ==> {
                &&& is_hex_char(#[trigger] b[2 + 4 * i]) && b[3 + 4 * i] == 0
                &&& is_hex_char(b[4 + 4 * i]) && b[5 + 4 * i] == 0
                &&& 16 * hex_value(b[2 + 4 * i]) + hex_value(b[4 + 4 * i]) == src[i]
            }
        }),
{
    lemma_hex_utf16_fields(src);
    let b = hex_descriptor_bytes(src);
    assert forall|i: int| 0 <= i < src.len() implies {
        &&& is_hex_char(#[trigger] b[2 + 4 * i]) && b[3 + 4 * i] == 0
        &&& is_hex_char(b[4 + 4 * i]) && b[5 + 4 * i] == 0
        &&& 16 * hex_value(b[2 + 4 * i]) + hex_value(b[4 + 4 * i]) == src[i]
    } by {
        let h = hex_utf16(src);
        assert(b[2 + 4 * i] == h[4 * i] && b[3 + 4 * i] == h[4 * i + 1]);
        assert(b[4 + 4 * i] == h[4 * i + 2] && b[5 + 4 * i] == h[4 * i + 3]);
        assert(h[4 * i] == hex_digit(src[i] / 16));
    }
}

/// A nibble's digit is a hexadecimal character that reads back as it.
proof fn lemma_hex_digit(n: u8)
    requires
        n < 16,
    ensures
        is_hex_char(hex_digit(n)),
        hex_value(hex_digit(n)) == n,
{
}

/// Each byte of `src` is four bytes of `hex_utf16(src)`: the digits of its
/// high and low nibbles, each followed by 0.
proof fn lemma_hex_utf16_fields(src: Seq<u8>)
    ensures
        hex_utf16(src).len() == 4 * src.len(),
        forall|i: int| 0 <= i < src.len() ==> {
            &&& #[trigger] hex_utf16(src)[4 * i] == hex_digit(src[i] / 16)
            &&& hex_utf16(src)[4 * i + 1] == 0
            &&& hex_utf16(src)[4 * i + 2] == hex_digit(src[i] % 16)
            &&& hex_utf16(src)[4 * i + 3] == 0
            &&& is_hex_char(hex_digit(src[i] / 16)) && is_hex_char(hex_digit(src[i] % 16))
            &&& 16 * hex_value(hex_digit(src[i] / 16)) + hex_value(hex_digit(src[i] % 16)) == src[i]
        },
    decreases src.len(),
{
    if src.len() > 0 {
        lemma_hex_utf16_fields(src.drop_last());
        let h = hex_utf16(src);
        let p = hex_utf16(src.drop_last());
        assert forall|i: int| 0 <= i < src.len() implies {
            &&& #[trigger] hex_utf16(src)[4 * i] == hex_digit(src[i] / 16)
            &&& hex_utf16(src)[4 * i + 1] == 0
            &&& hex_utf16(src)[4 * i + 2] == hex_digit(src[i] % 16)
            &&& hex_utf16(src)[4 * i + 3] == 0
            &&& is_hex_char(hex_digit(src[i] / 16)) && is_hex_char(hex_digit(src[i] % 16))
            &&& 16 * hex_value(hex_digit(src[i] / 16)) + hex_value(hex_digit(src[i] % 16)) == src[i]
        } by {
            lemma_hex_digit(src[i] / 16);
            lemma_hex_digit(src[i] % 16);
            if i < src.len() - 1 {
                assert(src[i] == src.drop_last()[i]);
                assert(p[4 * i] == hex_digit(src.drop_last()[i] / 16));
            }
        }
    }
}

/// An interface starts with a 9-byte header: its length, the interface
/// type (4), the interface number, the alternate setting, the number of
/// endpoints (where it fits in a byte), class, subclass, protocol and name index; its
/// endpoint descriptors come last, one 7-byte descriptor per endpoint, in
/// order.
pub proof fn lemma_interface_layout(d: InterfaceDescriptor)
    ensures
        ({
            let b = d.spec_bytes();
            let n = d.endpoints@.len();
            &&& b.len() == d.spec_total_size()
            &&& b[0] == 9 && b[1] == 4
            &&& b[2] == d.interface_number && b[3] == d.alternate_setting
            &&& n < 256 ==> b[4] as int == n
            &&& b[5] == d.interface_class && b[6] == d.interface_sub_class && b[7] == d.interface_protocol
            &&& b[8] == d.name.0
            &&& forall|j: int| 0 <= j < n ==> #[trigger] b.subrange(b.len() - 7 * (n - j), b.len() - 7 * (n - j) + 7)
                == d.endpoints@[j].spec_bytes()
        }),
{
    d.lemma_bytes_len();
    let b = d.spec_bytes();
    let n = d.endpoints@.len();
    lemma_endpoints_at(d.endpoints@);
    lemma_endpoints_bytes_len(d.endpoints@);
    let tail = endpoints_bytes(d.endpoints@);
    assert(b.len() >= tail.len());
    assert forall|j: int| 0 <= j < n implies #[trigger] b.subrange(b.len() - 7 * (n - j), b.len() - 7 * (n - j) + 7)
        == d.endpoints@[j].spec_bytes() by {
        assert(b.subrange(b.len() - 7 * (n - j), b.len() - 7 * (n - j) + 7) =~= tail.subrange(7 * j, 7 * j + 7));
    }
}

/// Endpoint `j` of a list is encoded at bytes `7 * j` to `7 * j + 7`.
proof fn lemma_endpoints_at(s: Seq<EndpointDescriptor>)
    ensures
        forall|j: int| 0 <= j < s.len() ==> #[trigger] endpoints_bytes(s).subrange(7 * j, 7 * j + 7) == s[j].spec_bytes(),
    decreases s.len(),
{
    lemma_endpoints_bytes_len(s);
    if s.len() > 0 {
        lemma_endpoints_at(s.drop_last());
        lemma_endpoints_bytes_len(s.drop_last());
        assert forall|j: int| 0 <= j < s.len() implies #[trigger] endpoints_bytes(s).subrange(7 * j, 7 * j + 7)
            == s[j].spec_bytes() by {
            if j < s.len() - 1 {
                assert(s[j] == s.drop_last()[j]);
                assert(endpoints_bytes(s).subrange(7 * j, 7 * j + 7) =~= endpoints_bytes(s.drop_last()).subrange(
                    7 * j,
                    7 * j + 7,
                ));
            } else {
                assert(endpoints_bytes(s).subrange(7 * j, 7 * j + 7) =~= s.last().spec_bytes());
            }
        }
    }
}

/// A configuration header holds, after its length, type and total length,
/// the number of interfaces, the configuration value, no string, the
/// attributes (bit 7 always set, bit 6 for self-powered, bit 5 for remote
/// wakeup, the rest clear) and the maximum power.
pub proof fn lemma_config_header_fields(c: ConfigDescriptor)
    requires
        forall|i: int| 0 <= i < c.interfaces@.len() ==> c.interfaces@[i].interface_number < 255,
    ensures
        ({
            let b = c.spec_bytes();
            &&& b[4] as int == interface_count(c.interfaces@)
            &&& b[5] == c.configuration_value
            &&& b[6] == 0
            &&& b[7] as int / 128 == 1
            &&& (b[7] as int / 64 % 2 == 1) == c.self_powered
            &&& (b[7] as int / 32 % 2 == 1) == c.remote_wakeup
            &&& b[7] as int % 32 == 0
            &&& b[8] == c.max_power
        }),
{
    lemma_interface_count(c.interfaces@);
}

/// The attributes of an isochronous endpoint: transfer type 1 in bits 0-1;
/// the synchronisation type in bits 2-3 (none 0, asynchronous 1, adaptive
/// 2) and the usage type in bits 4-5 (data 0, feedback 1, explicit feedback
/// 2); a synchronous endpoint sets bits 3 and 4, as the encoder always has.
pub proof fn lemma_isochronous_attributes(sync: SynchronizationType, usage: UsageType)
    ensures
        ({
            let a = TransferType::Isochronous(sync, usage).spec_attributes();
            let u: u8 = match usage {
                UsageType::DataEndpoint => 0,
                UsageType::FeedbackEndpoint => 1,
                UsageType::ExplicitFeedbackDataEndpoint => 2,
            };
            &&& a & 3u8 == 1u8
            &&& match sync {
                SynchronizationType::Synchronous => a & 0x18u8 == 0x18u8,
                _ => {
                    &&& (a >> 2u8) & 3u8 == (match sync {
                        SynchronizationType::NoSynchronization => 0u8,
                        SynchronizationType::Asynchronous => 1u8,
                        _ => 2u8,
                    })
                    &&& (a >> 4u8) & 3u8 == u
                },
            }
        }),
{
    let sb: u8 = match sync {
        SynchronizationType::NoSynchronization => 0u8,
        SynchronizationType::Asynchronous => 4u8,
        SynchronizationType::Adaptive => 8u8,
        SynchronizationType::Synchronous => 24u8,
    };
    let ub: u8 = match usage {
        UsageType::DataEndpoint => 0u8,
        UsageType::FeedbackEndpoint => 16u8,
        UsageType::ExplicitFeedbackDataEndpoint => 32u8,
    };
    assert((sb == 0 || sb == 4 || sb == 8 || sb == 24) && (ub == 0 || ub == 16 || ub == 32) ==> {
        &&& (1u8 | sb | ub) & 3u8 == 1u8
        &&& (sb == 24 ==> (1u8 | sb | ub) & 0x18u8 == 0x18u8)
        &&& (sb != 24 ==> ((1u8 | sb | ub) >> 2u8) & 3u8 == sb >> 2u8)
        &&& (sb != 24 ==> ((1u8 | sb | ub) >> 4u8) & 3u8 == ub >> 4u8)
    }) by (bit_vector);
    assert(4u8 >> 2u8 == 1u8 && 8u8 >> 2u8 == 2u8 && 0u8 >> 2u8 == 0u8) by (bit_vector);
    assert(16u8 >> 4u8 == 1u8 && 32u8 >> 4u8 == 2u8 && 0u8 >> 4u8 == 0u8) by (bit_vector);
}

} // verus!
