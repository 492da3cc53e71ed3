use openprot::flash::client::{erase_request, geometry_from_info, get_info_request, program_request, read_request};
use openprot::flash::server::{
    parse_request, ErrorCode, Flash, FlashAddress, FlashCommand, FlashIpcServer, FlashResponseHeaderExt,
    PowerOf2Usize, FLASH_GENERIC_ERASE_INVALID_SIZE, FLASH_GENERIC_INVALID_PAGE_SIZE, FLASH_GENERIC_INVALID_SIZE,
    IPC_ERROR_BAD_REQ_LEN, IPC_ERROR_RSP_BAD_LEN, IPC_ERROR_UNKNOWN_OP,
};
use openprot::flash::{FlashInfo, FlashRequestHeader, FlashResponseHeader, Opcode, WireAddress};

/// A flash of 4 KiB in RAM whose device 9 always fails.
struct RamFlash {
    mem: Vec<u8>,
}

impl Flash for RamFlash {
    fn geometry(&self) -> (usize, PowerOf2Usize, u32) {
        (self.mem.len(), PowerOf2Usize::new(256).unwrap(), 0x1100)
    }
    fn erase(&mut self, start_addr: FlashAddress, size: PowerOf2Usize) -> Result<(), ErrorCode> {
        if start_addr.device_id() == 9 {
            return Err(ErrorCode(0x77));
        }
        let start = start_addr.offset() as usize;
        for b in &mut self.mem[start..start + size.get()] {
            *b = 0xff;
        }
        Ok(())
    }
    fn program(&mut self, start_addr: FlashAddress, data: &[u8]) -> Result<(), ErrorCode> {
        if start_addr.device_id() == 9 {
            return Err(ErrorCode(0x77));
        }
        let start = start_addr.offset() as usize;
        self.mem[start..start + data.len()].copy_from_slice(data);
        Ok(())
    }
    fn read(&mut self, start_addr: FlashAddress, buf: &mut [u8]) -> Result<(), ErrorCode> {
        if start_addr.device_id() == 9 {
            return Err(ErrorCode(0x77));
        }
        let start = start_addr.offset() as usize;
        buf.copy_from_slice(&self.mem[start..start + buf.len()]);
        Ok(())
    }
}

fn header(rsp: &[u8]) -> FlashResponseHeader {
    FlashResponseHeader::read_from_prefix(rsp).unwrap().0
}

#[test]
fn opcodes_are_fourcc() {
    assert_eq!(Opcode::new(*b"FLET"), openprot::flash::IPC_OP_FLASH_ERASE());
    assert_eq!(Opcode::new(*b"FLWR"), openprot::flash::IPC_OP_FLASH_PROGRAM());
    assert_eq!(Opcode::new(*b"FLRD"), openprot::flash::IPC_OP_FLASH_READ());
    assert_eq!(Opcode::new(*b"FLIN"), openprot::flash::IPC_OP_FLASH_GET_INFO());
}

#[test]
fn power_of_two() {
    assert!(PowerOf2Usize::new(0).is_none());
    assert!(PowerOf2Usize::new(3).is_none());
    assert_eq!(PowerOf2Usize::new(4096).unwrap().get(), 4096);
    assert_eq!(PowerOf2Usize::new(1).unwrap().get(), 1);
}

#[test]
fn client_requests_parse_back() {
    let addr = WireAddress::new(1, 0x40);
    let req = erase_request(addr, PowerOf2Usize::new(256).unwrap());
    match parse_request(&req, 100).ok().unwrap() {
        FlashCommand::Erase { addr: a, size } => {
            assert_eq!(a, addr);
            assert_eq!(size.get(), 256);
        }
        _ => panic!("erase expected"),
    }
    let req = program_request(addr, &[1, 2, 3]).unwrap();
    match parse_request(&req, 100).ok().unwrap() {
        FlashCommand::Program { addr: a, data } => {
            assert_eq!(a, addr);
            assert_eq!(data, &[1, 2, 3]);
        }
        _ => panic!("program expected"),
    }
    let req = read_request(addr, 16).unwrap();
    assert!(matches!(parse_request(&req, 100).ok().unwrap(), FlashCommand::Read { length: 16, .. }));
    assert_eq!(parse_request(&req, 15).err(), Some(ErrorCode(IPC_ERROR_BAD_REQ_LEN)));
    let req = get_info_request();
    assert!(matches!(parse_request(&req, 0).ok().unwrap(), FlashCommand::GetInfo));
    assert_eq!(program_request(addr, &[0u8; 2049]).err(), Some(ErrorCode(IPC_ERROR_BAD_REQ_LEN)));
    assert_eq!(read_request(addr, 2049).err(), Some(ErrorCode(IPC_ERROR_BAD_REQ_LEN)));
}

#[test]
fn malformed_requests() {
    assert_eq!(parse_request(&[0u8; 11], 100).err(), Some(ErrorCode(IPC_ERROR_BAD_REQ_LEN)));
    // header claims more payload than present
    let hdr = FlashRequestHeader::new(Opcode::new(*b"FLRD"), 12).as_bytes();
    assert_eq!(parse_request(&hdr, 100).err(), Some(ErrorCode(IPC_ERROR_BAD_REQ_LEN)));
    // unknown opcode
    let hdr = FlashRequestHeader::new(Opcode::new(*b"XXXX"), 0).as_bytes();
    assert_eq!(parse_request(&hdr, 100).err(), Some(ErrorCode(IPC_ERROR_UNKNOWN_OP)));
    // erase of a size that is not a power of two
    let mut req = FlashRequestHeader::new(Opcode::new(*b"FLET"), 12).as_bytes().to_vec();
    req.extend_from_slice(&openprot::flash::FlashEraseRequest { addr: WireAddress::new(0, 0), size: 3 }.as_bytes());
    assert_eq!(parse_request(&req, 100).err(), Some(ErrorCode(FLASH_GENERIC_ERASE_INVALID_SIZE)));
    // get info with a payload
    let mut req = FlashRequestHeader::new(Opcode::new(*b"FLIN"), 1).as_bytes().to_vec();
    req.push(0);
    assert_eq!(parse_request(&req, 100).err(), Some(ErrorCode(IPC_ERROR_BAD_REQ_LEN)));
}

#[test]
fn server_round_trips() {
    let mut server = FlashIpcServer::new(RamFlash { mem: vec![0u8; 4096] });
    let mut rsp = [0u8; 64];

    let n = server.handle_request(&get_info_request(), &mut rsp);
    assert_eq!(n, 24);
    assert_eq!(header(&rsp), FlashResponseHeader::success(12, 12));
    let info = FlashInfo::read_from_prefix(&rsp[12..]).unwrap().0;
    assert_eq!(info, FlashInfo { page_size: 256, total_size: 4096, erasable_sizes_bitmap: 0x1100 });

    let req = program_request(WireAddress::new(0, 8), &[5, 6, 7]).unwrap();
    assert_eq!(server.handle_request(&req, &mut rsp), 12);
    assert_eq!(header(&rsp), FlashResponseHeader::success(0, 0));

    let req = read_request(WireAddress::new(0, 7), 5).unwrap();
    assert_eq!(server.handle_request(&req, &mut rsp), 17);
    assert_eq!(header(&rsp), FlashResponseHeader::success(5, 5));
    assert_eq!(&rsp[12..17], &[0, 5, 6, 7, 0]);

    let req = erase_request(WireAddress::new(0, 0), PowerOf2Usize::new(16).unwrap());
    assert_eq!(server.handle_request(&req, &mut rsp), 12);
    let req = read_request(WireAddress::new(0, 7), 2).unwrap();
    assert_eq!(server.handle_request(&req, &mut rsp), 14);
    assert_eq!(&rsp[12..14], &[0xff, 0xff]);
}

#[test]
fn server_errors() {
    let mut server = FlashIpcServer::new(RamFlash { mem: vec![0u8; 4096] });
    let mut rsp = [0u8; 20];
    // device failure
    let req = program_request(WireAddress::new(9, 0), &[1]).unwrap();
    assert_eq!(server.handle_request(&req, &mut rsp), 12);
    assert_eq!(header(&rsp), FlashResponseHeader::error(0x77));
    // no room for the information
    assert_eq!(server.handle_request(&get_info_request(), &mut rsp), 12);
    assert_eq!(header(&rsp), FlashResponseHeader::error(IPC_ERROR_BAD_REQ_LEN));
    // no room for the read data
    let req = read_request(WireAddress::new(0, 0), 9).unwrap();
    assert_eq!(server.handle_request(&req, &mut rsp), 12);
    assert_eq!(header(&rsp), FlashResponseHeader::from_error(ErrorCode(IPC_ERROR_BAD_REQ_LEN)));
    // truncated request
    assert_eq!(server.handle_request(&[1, 2, 3], &mut rsp), 12);
    assert_eq!(header(&rsp).status, IPC_ERROR_BAD_REQ_LEN);
}

#[test]
fn geometry_checks() {
    let good = FlashInfo { page_size: 256, total_size: 4096, erasable_sizes_bitmap: 3 };
    let (total, page, bitmap) = geometry_from_info(12, &good).ok().unwrap();
    assert_eq!((total, page.get(), bitmap), (4096, 256, 3));
    assert_eq!(geometry_from_info(11, &good).err(), Some(ErrorCode(IPC_ERROR_RSP_BAD_LEN)));
    let bad_page = FlashInfo { page_size: 300, ..good };
    assert_eq!(geometry_from_info(12, &bad_page).err(), Some(ErrorCode(FLASH_GENERIC_INVALID_PAGE_SIZE)));
    let empty = FlashInfo { total_size: 0, ..good };
    assert_eq!(geometry_from_info(12, &empty).err(), Some(ErrorCode(FLASH_GENERIC_INVALID_SIZE)));
}

#[test]
fn address_conversions() {
    let w = WireAddress::new(4, 0x1234);
    let a = FlashAddress::from(w);
    assert_eq!((a.device_id(), a.offset()), (4, 0x1234));
    assert_eq!(WireAddress::from(a), w);
    assert_eq!(u32::from(ErrorCode(5)), 5);
}

/// A flash that keeps a line for each erase, program and read call.
struct LogFlash {
    log: Vec<String>,
}

impl Flash for LogFlash {
    fn geometry(&self) -> (usize, PowerOf2Usize, u32) {
        (4096, PowerOf2Usize::new(256).unwrap(), 1)
    }
    fn erase(&mut self, start_addr: FlashAddress, size: PowerOf2Usize) -> Result<(), ErrorCode> {
        self.log.push(format!("erase {} {} {}", start_addr.device_id(), start_addr.offset(), size.get()));
        Ok(())
    }
    fn program(&mut self, start_addr: FlashAddress, data: &[u8]) -> Result<(), ErrorCode> {
        self.log.push(format!("program {} {} {:?}", start_addr.device_id(), start_addr.offset(), data));
        Ok(())
    }
    fn read(&mut self, start_addr: FlashAddress, buf: &mut [u8]) -> Result<(), ErrorCode> {
        self.log.push(format!("read {} {} {}", start_addr.device_id(), start_addr.offset(), buf.len()));
        Err(ErrorCode(0x55))
    }
}

#[test]
fn device_sees_exactly_the_requested_calls() {
    let mut server = FlashIpcServer::new(LogFlash { log: Vec::new() });
    let mut rsp = [0u8; 64];
    // refused requests and GET_INFO make no erase, program or read call
    assert_eq!(server.handle_request(&[1, 2, 3], &mut rsp), 12);
    let mut bad = erase_request(WireAddress::new(1, 0), PowerOf2Usize::new(16).unwrap());
    bad[20] = 3;
    assert_eq!(server.handle_request(&bad, &mut rsp), 12);
    assert_eq!(header(&rsp).status, FLASH_GENERIC_ERASE_INVALID_SIZE);
    assert_eq!(server.handle_request(&get_info_request(), &mut rsp), 24);
    assert!(server.flash().log.is_empty());
    // each accepted request makes its one call
    let req = erase_request(WireAddress::new(2, 0x100), PowerOf2Usize::new(32).unwrap());
    assert_eq!(server.handle_request(&req, &mut rsp), 12);
    let req = program_request(WireAddress::new(3, 8), &[9, 8]).unwrap();
    assert_eq!(server.handle_request(&req, &mut rsp), 12);
    let req = read_request(WireAddress::new(4, 16), 6).unwrap();
    assert_eq!(server.handle_request(&req, &mut rsp), 12);
    assert_eq!(header(&rsp), FlashResponseHeader::error(0x55));
    assert_eq!(server.flash().log, vec!["erase 2 256 32", "program 3 8 [9, 8]", "read 4 16 6"]);
}
