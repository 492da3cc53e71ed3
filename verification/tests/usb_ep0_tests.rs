use openprot::descriptor::{hex_utf16_descriptor_aligned, StringHandle};
use openprot::driver::{UsbDriver, UsbEvent};
use openprot::hal_usb::SetupPacket;
use openprot::usb_stack::testing::FakeUsbPacket;
use openprot::usb_stack::{DescriptorSource, DescriptorTable, SimpleEp0, UsbAction, UsbActionRun};

const DEVICE: [u8; 18] = [18, 1, 0, 2, 0, 0, 0, 64, 0xd1, 0x18, 0x31, 0x50, 0, 1, 1, 2, 3, 1];

fn descriptors(serial: Vec<u8>) -> DescriptorTable {
    DescriptorTable {
        device_desc: DEVICE.to_vec(),
        config_desc: vec![9, 2, 9, 0, 0, 1, 0, 0x80, 250],
        string_desc_0: vec![4, 3, 0x09, 0x04],
        device_status: vec![1, 0],
        strings: vec![(3, serial), (4, vec![4, 3, b'x', 0]), (3, vec![2, 3])],
    }
}

struct Recorder {
    log: Vec<String>,
    limit: usize,
}

impl UsbDriver for Recorder {
    type Packet<'a> = FakeUsbPacket<'a>;
    fn max_packet_size(&self) -> usize {
        64
    }
    fn transfer_in(&mut self, endpoint_idx: u8, data: &[u8], zlp: bool) -> usize {
        let n = data.len().min(self.limit);
        self.log.push(format!("in {} {:?} {}", endpoint_idx, &data[..n], zlp));
        n
    }
    fn transfer_in_unaligned(&mut self, endpoint_idx: u8, data: &[u8], zlp: bool) -> usize {
        self.transfer_in(endpoint_idx, data, zlp)
    }
    fn stall(&mut self, endpoint_num: u8, stalled: bool) {
        self.log.push(format!("stall {:#x} {}", endpoint_num, stalled));
    }
    fn is_stalled(&mut self, _endpoint_num: u8) -> bool {
        true
    }
    fn set_address(&mut self, address: u8) {
        self.log.push(format!("address {}", address));
    }
    fn poll(&mut self) -> Option<UsbEvent<Self::Packet<'_>>> {
        None
    }
}

fn setup(request_word: u16, value: u16, index: u16, length: u16) -> UsbEvent<FakeUsbPacket<'static>> {
    let pkt = SetupPacket::new([request_word as u32 | ((value as u32) << 16), index as u32 | ((length as u32) << 16)]);
    UsbEvent::SetupPacket { pkt, endpoint: 0 }
}

#[test]
fn device_descriptor_truncated_to_request() {
    let d = descriptors(vec![]);
    let mut ep0 = SimpleEp0::new();
    match ep0.handle_event(setup(0x0680, 0x0100, 0, 8), &d) {
        UsbAction::TransferIn { endpoint, data, zlp } => {
            assert_eq!(endpoint, 0);
            assert_eq!(data, &DEVICE[..8]);
            assert!(!zlp);
        }
        _ => panic!("transfer expected"),
    }
    match ep0.handle_event(setup(0x0680, 0x0100, 0, 64), &d) {
        UsbAction::TransferIn { data, zlp, .. } => {
            assert_eq!(data, &DEVICE[..]);
            assert!(zlp);
        }
        _ => panic!("transfer expected"),
    }
}

#[test]
fn string_descriptors() {
    let mut buf = vec![0u8; 16];
    let serial = hex_utf16_descriptor_aligned(&mut buf, &[0x1f]).unwrap().0.to_vec();
    assert_eq!(serial, vec![6, 3, b'1', 0, b'f', 0]);
    let d = descriptors(serial);
    let mut ep0 = SimpleEp0::new();
    match ep0.handle_event(setup(0x0680, 0x0303, 0x0409, 255), &d) {
        UsbAction::TransferIn { data, .. } => assert_eq!(data, &[6, 3, b'1', 0, b'f', 0]),
        _ => panic!("transfer expected"),
    }
    match ep0.handle_event(setup(0x0680, 0x0300, 0, 255), &d) {
        UsbAction::TransferIn { data, .. } => assert_eq!(data, &[4, 3, 0x09, 0x04]),
        _ => panic!("transfer expected"),
    }
    assert!(matches!(ep0.handle_event(setup(0x0680, 0x0305, 0, 255), &d), UsbAction::StallInAndOut { endpoint: 0 }));
    assert_eq!(d.get_string(StringHandle(4), 0).unwrap().as_bytes(), &[4, 3, b'x', 0]);
    assert!(d.get_string(StringHandle(9), 0).is_none());
    assert_eq!(d.get_device_status(), &[1, 0]);
}

#[test]
fn set_address_after_status_stage() {
    let d = descriptors(vec![]);
    let mut ep0 = SimpleEp0::default();
    assert!(matches!(ep0.handle_event(setup(0x0500, 42, 0, 0), &d), UsbAction::TransferIn { .. }));
    let a = ep0.handle_event(UsbEvent::<FakeUsbPacket<'static>>::PacketSent { endpoint: 0 }, &d);
    assert!(matches!(a, UsbAction::SetAddress { new_address: 42 }));
    let a = ep0.handle_event(UsbEvent::<FakeUsbPacket<'static>>::PacketSent { endpoint: 0 }, &d);
    assert!(a.is_none());
}

#[test]
fn configuration_and_unknown_requests() {
    let d = descriptors(vec![]);
    let mut ep0 = SimpleEp0::new();
    assert!(matches!(ep0.handle_event(setup(0x0900, 1, 0, 0), &d), UsbAction::TransferIn { .. }));
    assert!(matches!(ep0.handle_event(setup(0x0900, 2, 0, 0), &d), UsbAction::StallInAndOut { endpoint: 0 }));
    assert!(matches!(ep0.handle_event(setup(0x4242, 0, 0, 0), &d), UsbAction::StallInAndOut { endpoint: 0 }));
    assert!(matches!(
        ep0.handle_event(setup(0x0302, 0, 0x81, 0), &d),
        UsbAction::SetEndpointStatus { endpoint: 0x81, stall: true }
    ));
    assert!(ep0.handle_event(UsbEvent::<FakeUsbPacket<'static>>::UsbReset, &d).is_none());
}

#[test]
fn running_actions() {
    let mut drv = Recorder { log: vec![], limit: 64 };
    let data = [7u8; 100];
    let mut action = UsbAction::TransferIn { endpoint: 1, data: &data, zlp: true };
    assert_eq!(action.run(&mut drv), UsbActionRun::HasMoreData);
    assert_eq!(action.run(&mut drv), UsbActionRun::Done);
    assert!(action.is_none());
    assert_eq!(action.run(&mut drv), UsbActionRun::NoOp);
    assert_eq!(drv.log.len(), 2);

    let mut stall = UsbAction::StallInAndOut { endpoint: 0 };
    assert_eq!(stall.run(&mut drv), UsbActionRun::Done);
    assert_eq!(drv.log[2], "stall 0x0 true");
    assert_eq!(drv.log[3], "stall 0x80 true");

    let mut status = UsbAction::GetEndpointStatus { endpoint: 1 };
    assert_eq!(status.run(&mut drv), UsbActionRun::Done);
    assert_eq!(drv.log[4], "in 0 [1, 0] true");

    let mut merged = UsbAction::NoAction;
    merged.merge(UsbAction::SetAddress { new_address: 5 });
    merged.merge(UsbAction::NoAction);
    assert_eq!(merged.run(&mut drv), UsbActionRun::Done);
    assert_eq!(drv.log[5], "address 5");
}

#[test]
fn control_transfer_stalls_when_too_long() {
    let pkt = SetupPacket::new([0x0680, 2 << 16]);
    assert!(matches!(
        UsbAction::control_transfer_in_or_stall(0, &pkt, &[1, 2, 3]),
        UsbAction::StallInAndOut { endpoint: 0 }
    ));
    assert!(matches!(
        UsbAction::control_transfer_in_or_stall(0, &pkt, &[1]),
        UsbAction::TransferIn { zlp: true, .. }
    ));
}
