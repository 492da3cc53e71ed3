use openprot::cdc_acm::{
    ByteQueue, CdcAcm, CdcAcmBuilder, LineCoding, Parity, StopBits, CDC_SUBCLASS_ACM, CS_INTERFACE,
    REQ_GET_ENCAPSULATED_COMMAND, REQ_GET_LINE_CODING, REQ_SEND_ENCAPSULATED_COMMAND, REQ_SET_CONTROL_LINE_STATE,
    REQ_SET_LINE_CODING, USB_CLASS_CDC, USB_CLASS_CDC_DATA,
};
use openprot::descriptor::{FunctionalDescriptor, StringHandle, TransferType};
use openprot::driver::{UsbDriver, UsbEvent};
use openprot::hal_usb::{Direction, SetupPacket};
use openprot::usb_stack::testing::FakeUsbPacket;
use openprot::usb_stack::{UsbAction, UsbClass};

/// A driver that takes at most `limit` bytes per transfer and records them.
struct RecordingDriver {
    limit: usize,
    sent: Vec<(u8, Vec<u8>)>,
}

impl UsbDriver for RecordingDriver {
    type Packet<'a> = FakeUsbPacket<'a>;

    fn max_packet_size(&self) -> usize {
        64
    }
    fn transfer_in(&mut self, endpoint_idx: u8, data: &[u8], _zlp: bool) -> usize {
        let n = data.len().min(self.limit);
        self.sent.push((endpoint_idx, data[..n].to_vec()));
        n
    }
    fn transfer_in_unaligned(&mut self, endpoint_idx: u8, data: &[u8], zlp: bool) -> usize {
        self.transfer_in(endpoint_idx, data, zlp)
    }
    fn stall(&mut self, _endpoint_num: u8, _stalled: bool) {}
    fn is_stalled(&mut self, _endpoint_num: u8) -> bool {
        false
    }
    fn set_address(&mut self, _address: u8) {}
    fn poll(&mut self) -> Option<UsbEvent<Self::Packet<'_>>> {
        None
    }
}

fn builder() -> CdcAcmBuilder {
    CdcAcmBuilder::new(0, 1, 2, 3, 4)
}

/// A SETUP packet for a class request to interface `index`.
fn setup(request_word: u16, value: u16, index: u16, length: u16) -> SetupPacket {
    SetupPacket::new([request_word as u32 | ((value as u32) << 16), index as u32 | ((length as u32) << 16)])
}

#[test]
fn request_codes() {
    assert_eq!(u16::from(REQ_SEND_ENCAPSULATED_COMMAND()), 0x0021);
    assert_eq!(u16::from(REQ_GET_ENCAPSULATED_COMMAND()), 0x01a1);
    assert_eq!(u16::from(REQ_SET_LINE_CODING()), 0x2021);
    assert_eq!(u16::from(REQ_GET_LINE_CODING()), 0x21a1);
    assert_eq!(u16::from(REQ_SET_CONTROL_LINE_STATE()), 0x2221);
}

#[test]
fn line_coding_default_encoding() {
    let lc = LineCoding::default();
    assert_eq!(lc.as_bytes(), [0x80, 0x25, 0, 0, 0, 0, 8]);
    assert_eq!(lc.stop_bits, StopBits::One);
    assert_eq!(lc.parity, Parity::NoParity);
}

#[test]
fn line_coding_decode_and_roundtrip() {
    let bytes = [0x00, 0xc2, 0x01, 0x00, 2, 1, 7, 0xee];
    let lc = LineCoding::try_from(&bytes).unwrap();
    assert_eq!(lc.data_rate, 115200);
    assert_eq!(lc.stop_bits, StopBits::Two);
    assert_eq!(lc.parity, Parity::Odd);
    assert_eq!(lc.data_bits, 7);
    assert_eq!(lc.as_bytes(), [0x00, 0xc2, 0x01, 0x00, 2, 1, 7]);
    assert!(LineCoding::try_from(&bytes[..6]).is_err());
}

#[test]
fn line_settings_unknown_codes() {
    assert_eq!(StopBits::from(1), StopBits::OnePointFive);
    assert_eq!(StopBits::from(9), StopBits::One);
    assert_eq!(Parity::from(4), Parity::Space);
    assert_eq!(Parity::from(5), Parity::NoParity);
}

#[test]
fn builder_descriptors() {
    let b = builder();
    let funcs = b.comm_func_descs();
    match &funcs[2] {
        FunctionalDescriptor::Raw(raw) => {
            assert_eq!(raw.descriptor_type, CS_INTERFACE);
            assert_eq!(raw.content, vec![0x06, 0, 1]);
        }
        _ => panic!("union descriptor expected"),
    }
    let comm_eps = b.comm_endpoints();
    assert_eq!(comm_eps[0].endpoint_num, 2);
    assert_eq!(comm_eps[0].max_packet_size, 8);
    assert!(matches!(comm_eps[0].transfer_type, TransferType::Interrupt));
    let data_eps = b.data_endpoints();
    assert_eq!(data_eps[0].direction, Direction::HostToDevice);
    assert_eq!(data_eps[0].endpoint_num, 3);
    assert_eq!(data_eps[1].endpoint_num, 4);

    let comm = b.comm_interface(StringHandle(7), Vec::from(funcs), Vec::from(comm_eps));
    assert_eq!(comm.interface_class, USB_CLASS_CDC);
    assert_eq!(comm.interface_sub_class, CDC_SUBCLASS_ACM);
    let bytes = comm.serialize();
    assert_eq!(
        bytes,
        vec![
            9, 4, 0, 0, 1, 0x02, 0x02, 0x00, 7, 5, 0x24, 0x00, 0x10, 0x01, 4, 0x24, 0x02, 0x02, 5, 0x24, 0x06, 0, 1, 7,
            5, 0x82, 3, 8, 0, 255
        ]
    );
    let data = b.data_interface(StringHandle(0), Vec::from(data_eps));
    assert_eq!(data.interface_class, USB_CLASS_CDC_DATA);
    assert_eq!(data.serialize().len(), 9 + 14);

    let (ins, outs) = b.eps();
    assert_eq!(ins[0].num, 2);
    assert_eq!(ins[1].num, 4);
    assert_eq!(outs[0].num, 3);
    assert!(!outs[0].set_nak);
}

#[test]
fn set_then_get_line_coding() {
    let mut acm = CdcAcm::<64, 64>::new(builder());
    let pkt = setup(0x2021, 0, 0, 7);
    let r = acm.handle_event::<FakeUsbPacket>(UsbEvent::SetupPacket { pkt, endpoint: 0 });
    assert!(matches!(r, Ok(UsbAction::NoAction)));

    let coding = [0x00, 0xc2, 0x01, 0x00, 0, 2, 8];
    let r = acm.handle_event(UsbEvent::DataOutPacket(FakeUsbPacket { data: &coding, ep: 0 }));
    assert!(matches!(r, Ok(UsbAction::TransferIn { endpoint: 0, zlp: true, .. })));
    assert_eq!(acm.line_coding().data_rate, 115200);
    assert_eq!(acm.line_coding().parity, Parity::Even);

    let pkt = setup(0x21a1, 0, 0, 7);
    match acm.handle_event::<FakeUsbPacket>(UsbEvent::SetupPacket { pkt, endpoint: 0 }) {
        Ok(UsbAction::TransferInUnaligned { endpoint, data, zlp }) => {
            assert_eq!(endpoint, 0);
            assert!(zlp);
            assert_eq!(data, &coding[..]);
        }
        _ => panic!("line coding expected"),
    }
}

#[test]
fn short_line_coding_is_stalled() {
    let mut acm = CdcAcm::<64, 64>::new(builder());
    let pkt = setup(0x2021, 0, 0, 7);
    assert!(acm.handle_event::<FakeUsbPacket>(UsbEvent::SetupPacket { pkt, endpoint: 0 }).is_ok());
    let r = acm.handle_event(UsbEvent::DataOutPacket(FakeUsbPacket { data: &[1, 2, 3], ep: 0 }));
    assert!(matches!(r, Ok(UsbAction::StallInAndOut { endpoint: 0 })));
    assert_eq!(acm.line_coding().data_rate, 9600);
    // the data stage is over: another packet on endpoint 0 is not claimed
    let r = acm.handle_event(UsbEvent::DataOutPacket(FakeUsbPacket { data: &[1, 2, 3], ep: 0 }));
    assert!(r.is_err());
}

#[test]
fn other_requests() {
    let mut acm = CdcAcm::<64, 64>::new(builder());
    let pkt = setup(0x2221, 3, 0, 0);
    let r = acm.handle_event::<FakeUsbPacket>(UsbEvent::SetupPacket { pkt, endpoint: 0 });
    assert!(matches!(r, Ok(UsbAction::TransferIn { endpoint: 0, zlp: true, .. })));
    let pkt = setup(0x01a1, 0, 0, 64);
    let r = acm.handle_event::<FakeUsbPacket>(UsbEvent::SetupPacket { pkt, endpoint: 0 });
    assert!(matches!(r, Ok(UsbAction::StallInAndOut { endpoint: 0 })));
    let pkt = setup(0x0021, 0, 0, 0);
    let r = acm.handle_event::<FakeUsbPacket>(UsbEvent::SetupPacket { pkt, endpoint: 0 });
    assert!(matches!(r, Ok(UsbAction::TransferIn { .. })));
    let pkt = setup(0x7721, 0, 0, 0);
    let r = acm.handle_event::<FakeUsbPacket>(UsbEvent::SetupPacket { pkt, endpoint: 0 });
    assert!(matches!(r, Ok(UsbAction::StallInAndOut { endpoint: 0 })));
    // another interface, or a device request: handed back
    let pkt = setup(0x2221, 3, 1, 0);
    assert!(acm.handle_event::<FakeUsbPacket>(UsbEvent::SetupPacket { pkt, endpoint: 0 }).is_err());
    let pkt = setup(0x0680, 0x0100, 0, 18);
    assert!(acm.handle_event::<FakeUsbPacket>(UsbEvent::SetupPacket { pkt, endpoint: 0 }).is_err());
    assert!(acm.handle_event::<FakeUsbPacket>(UsbEvent::UsbReset).is_err());
}

#[test]
fn received_data_is_queued() {
    let mut acm = CdcAcm::<8, 64>::new(builder());
    let r = acm.handle_event(UsbEvent::DataOutPacket(FakeUsbPacket { data: b"hello", ep: 3 }));
    assert!(matches!(r, Ok(UsbAction::NoAction)));
    let r = acm.handle_event(UsbEvent::DataOutPacket(FakeUsbPacket { data: b"world", ep: 3 }));
    assert!(r.is_ok());
    // the queue holds 8 bytes: the rest of the second packet is dropped
    assert_eq!(acm.rx_queue.as_slice(), b"hellowor");
    assert!(acm.handle_event(UsbEvent::DataOutPacket(FakeUsbPacket { data: b"x", ep: 5 })).is_err());
}

#[test]
fn transmit_in_parts() {
    let mut acm = CdcAcm::<8, 64>::new(builder());
    assert_eq!(acm.tx_queue.push_slice(b"abcdef"), 6);
    assert_eq!(acm.pending_transmit(), (4, &b"abcdef"[..]));
    let mut driver = RecordingDriver { limit: 4, sent: Vec::new() };
    acm.poll_transmit(&mut driver);
    assert_eq!(acm.tx_queue.as_slice(), b"ef");
    acm.poll_transmit(&mut driver);
    assert!(acm.tx_queue.is_empty());
    acm.poll_transmit(&mut driver);
    assert_eq!(driver.sent, vec![(4, b"abcd".to_vec()), (4, b"ef".to_vec())]);
}

#[test]
fn byte_queue_order_and_capacity() {
    let mut q = ByteQueue::<4>::new();
    assert_eq!(q.capacity(), 4);
    assert!(q.push(1));
    assert_eq!(q.push_slice(&[2, 3, 4, 5]), 3);
    assert!(!q.push(6));
    assert_eq!(q.len(), 4);
    assert_eq!(q.pop(), Some(1));
    q.consume(2);
    assert_eq!(q.as_slice(), &[4]);
    q.consume(10);
    assert!(q.is_empty());
    assert_eq!(q.pop(), None);
}
