use openprot::flash::{
    FlashEraseRequest, FlashProgramRequest, FlashReadRequest, FlashRequestHeader, FlashResponseHeader,
    WireAddress, IPC_OP_FLASH_GET_INFO, IPC_OP_FLASH_READ,
};

#[test]
fn request_header_roundtrip() {
    let hdr = FlashRequestHeader::new(IPC_OP_FLASH_READ(), 64);
    let bytes = hdr.as_bytes();
    let (parsed, rest) = FlashRequestHeader::read_from_prefix(&bytes).expect("header should decode");
    assert_eq!(rest.len(), 0);
    assert!(parsed.opcode == IPC_OP_FLASH_READ());
    assert_eq!(parsed.payload_length(), 64);
    assert_eq!(parsed.reserved, 0);
}

#[test]
fn response_header_roundtrip_success() {
    let hdr = FlashResponseHeader::success(32, 0x1234_5678);
    let bytes = hdr.as_bytes();
    let (parsed, rest) = FlashResponseHeader::read_from_prefix(&bytes).expect("header should decode");
    assert_eq!(rest.len(), 0);
    assert_eq!(parsed.status, 0);
    assert_eq!(parsed.payload_length(), 32);
    assert_eq!(parsed.value, 0x1234_5678);
}

#[test]
fn response_header_error_encodes_status() {
    let raw_status: u32 = 0xDEAD_BEEF;
    let hdr = FlashResponseHeader::error(raw_status);
    assert_eq!(hdr.status, raw_status);
    assert_eq!(hdr.payload_length(), 0);
    assert_eq!(hdr.value, 0);
}

#[test]
fn erase_payload_roundtrip() {
    let req = FlashEraseRequest { addr: WireAddress::new(2, 0x1000), size: 2048 };
    let bytes = req.as_bytes();
    let (parsed, rest) = FlashEraseRequest::read_from_prefix(&bytes).expect("payload should decode");
    assert_eq!(rest.len(), 0);
    assert!(parsed.addr == WireAddress::new(2, 0x1000));
    assert_eq!(parsed.size, 2048);
}

#[test]
fn program_payload_roundtrip() {
    let req = FlashProgramRequest { addr: WireAddress::new(1, 0x2000) };
    let bytes = req.as_bytes();
    let (parsed, rest) = FlashProgramRequest::read_from_prefix(&bytes).expect("payload should decode");
    assert_eq!(rest.len(), 0);
    assert!(parsed.addr == WireAddress::new(1, 0x2000));
}

#[test]
fn read_payload_roundtrip() {
    let req = FlashReadRequest { addr: WireAddress::new(3, 0x40), length: 512 };
    let bytes = req.as_bytes();
    let (parsed, rest) = FlashReadRequest::read_from_prefix(&bytes).expect("payload should decode");
    assert_eq!(rest.len(), 0);
    assert!(parsed.addr == WireAddress::new(3, 0x40));
    assert_eq!(parsed.length, 512);
}

#[test]
fn request_header_decode_fails_when_truncated() {
    let hdr = FlashRequestHeader::new(IPC_OP_FLASH_GET_INFO(), 0);
    let bytes = hdr.as_bytes();
    let truncated = &bytes[..FlashRequestHeader::SIZE - 1];
    assert!(FlashRequestHeader::read_from_prefix(truncated).is_err());
}

#[test]
fn response_header_decode_fails_when_truncated() {
    let hdr = FlashResponseHeader::success(0, 0);
    let bytes = hdr.as_bytes();
    let truncated = &bytes[..FlashResponseHeader::SIZE - 1];
    assert!(FlashResponseHeader::read_from_prefix(truncated).is_err());
}
