use openprot::driver::{UsbDriver, UsbEvent};
use openprot::hal_usb::SetupPacket;
use openprot::usb_stack::testing::FakeUsbPacket;
use openprot::usb_stack::{UsbAction, UsbClass};
use openprot::usbtpm::{
    State, TpmDevice, UsbTpm, UsbTpmBuilder, UsbTpmHeader, FOURCC_REQ, FOURCC_TPM, MS_SIM_TPM_SEND_COMMAND,
    STATUS_ERR_UNKNOWN_CMD, STATUS_SUCCESS,
};

struct MockTpm {
    last_locality: u8,
    cancelled: bool,
}

impl TpmDevice for &mut MockTpm {
    fn execute_command(&mut self, locality: u8, _command: &[u8], _response: &mut [u8]) -> usize {
        self.last_locality = locality;
        0
    }
    fn cancel(&mut self) {
        self.cancelled = true;
    }
}

#[test]
fn test_usb_tpm_header_zerocopy() {
    let header = UsbTpmHeader {
        header: FOURCC_TPM,
        identifier: FOURCC_REQ,
        command_status: MS_SIM_TPM_SEND_COMMAND,
        length: 123,
    };
    let bytes = header.as_bytes();
    assert_eq!(bytes.len(), 16);
    let header2 = UsbTpmHeader::read_from_bytes(&bytes).unwrap();
    assert_eq!(header, header2);
}

#[test]
fn test_state_transitions() {
    let mut mock_tpm = MockTpm { last_locality: 0, cancelled: false };
    let builder = UsbTpmBuilder::new(1, 0x81, 1);
    let mut tpm = UsbTpm::<_, 32>::new(builder, &mut mock_tpm);
    assert_eq!(tpm.state(), State::Idle);

    // 1. Receive Header
    let header = UsbTpmHeader {
        header: FOURCC_TPM,
        identifier: FOURCC_REQ,
        command_status: MS_SIM_TPM_SEND_COMMAND,
        length: 4,
    };
    let header_bytes = header.as_bytes();
    let pkt = FakeUsbPacket { data: &header_bytes, ep: 1 };
    if let Err(_) = tpm.handle_event::<FakeUsbPacket>(UsbEvent::DataOutPacket(pkt)) {
        panic!("handle_event failed");
    }
    assert_eq!(tpm.state(), State::ReceivingPayload);

    // 2. Receive Payload
    let payload = [0x11, 0x22, 0x33, 0x44];
    let pkt = FakeUsbPacket { data: &payload, ep: 1 };
    if let Err(_) = tpm.handle_event::<FakeUsbPacket>(UsbEvent::DataOutPacket(pkt)) {
        panic!("handle_event failed");
    }
    assert_eq!(tpm.state(), State::SendingHeader);
    assert_eq!(tpm.status(), STATUS_SUCCESS);
    assert_eq!(tpm.response_len(), 0);
}

#[test]
fn test_set_locality() {
    let mut mock_tpm = MockTpm { last_locality: 0, cancelled: false };
    let builder = UsbTpmBuilder::new(1, 0x81, 1);
    let mut tpm = UsbTpm::<_, 32>::new(builder, &mut mock_tpm);

    // Word 0: 0x03 (locality) << 16 | 0x01 (bRequest) << 8 | 0x41 (bmRequestType)
    // Word 1: 0x00 (wLength) << 16 | 0x01 (interface_num)
    let pkt = SetupPacket::new([0x03_01_41, 0x00_01]);
    let action = match tpm.handle_event::<FakeUsbPacket>(UsbEvent::SetupPacket { pkt, endpoint: 0 }) {
        Ok(action) => action,
        Err(_) => panic!("handle_event failed"),
    };

    assert!(matches!(action, UsbAction::TransferIn { .. }));
    assert_eq!(tpm.locality(), 3);
}

#[test]
fn test_cancel() {
    let mut mock_tpm = MockTpm { last_locality: 0, cancelled: false };
    let builder = UsbTpmBuilder::new(1, 0x81, 1);
    let mut tpm = UsbTpm::<_, 32>::new(builder, &mut mock_tpm);

    // Word 0: 0x00 (value) << 16 | 0x02 (bRequest) << 8 | 0x41 (bmRequestType)
    // Word 1: 0x00 (wLength) << 16 | 0x01 (interface_num)
    let pkt = SetupPacket::new([0x00_02_41, 0x00_01]);
    let action = match tpm.handle_event::<FakeUsbPacket>(UsbEvent::SetupPacket { pkt, endpoint: 0 }) {
        Ok(action) => action,
        Err(_) => panic!("handle_event failed"),
    };

    assert!(matches!(action, UsbAction::TransferIn { .. }));
    drop(tpm);
    assert!(mock_tpm.cancelled);
}

#[test]
fn test_unknown_command() {
    let mut mock_tpm = MockTpm { last_locality: 0, cancelled: false };
    let builder = UsbTpmBuilder::new(1, 0x81, 1);
    let mut tpm = UsbTpm::<_, 32>::new(builder, &mut mock_tpm);

    let header = UsbTpmHeader {
        header: FOURCC_TPM,
        identifier: FOURCC_REQ,
        command_status: 99, // Unknown
        length: 0,
    };
    let header_bytes = header.as_bytes();
    let pkt = FakeUsbPacket { data: &header_bytes, ep: 1 };
    if let Err(_) = tpm.handle_event::<FakeUsbPacket>(UsbEvent::DataOutPacket(pkt)) {
        panic!("handle_event failed");
    }
    assert_eq!(tpm.state(), State::SendingHeader);
    assert_eq!(tpm.status(), STATUS_ERR_UNKNOWN_CMD);
}

/// A TPM that keeps each command with its locality and answers `[0xaa, 0xbb]`.
struct EchoTpm {
    commands: Vec<(u8, Vec<u8>)>,
    cancels: usize,
}

impl TpmDevice for &mut EchoTpm {
    fn execute_command(&mut self, locality: u8, command: &[u8], response: &mut [u8]) -> usize {
        self.commands.push((locality, command.to_vec()));
        response[0] = 0xaa;
        response[1] = 0xbb;
        2
    }
    fn cancel(&mut self) {
        self.cancels += 1;
    }
}

/// A driver that takes at most `limit` bytes per transfer and keeps them.
struct SinkDriver {
    limit: usize,
    sent: Vec<(u8, Vec<u8>)>,
}

impl UsbDriver for SinkDriver {
    type Packet<'a> = FakeUsbPacket<'a>;

    fn max_packet_size(&self) -> usize {
        64
    }
    fn transfer_in(&mut self, endpoint_idx: u8, data: &[u8], _zlp: bool) -> usize {
        let n = data.len().min(self.limit);
        self.sent.push((endpoint_idx, data[..n].to_vec()));
        n
    }
    fn transfer_in_unaligned(&mut self, endpoint_idx: u8, data: &[u8], zlp: bool) -> usize {
        self.transfer_in(endpoint_idx, data, zlp)
    }
    fn stall(&mut self, _endpoint_num: u8, _stalled: bool) {}
    fn is_stalled(&mut self, _endpoint_num: u8) -> bool {
        false
    }
    fn set_address(&mut self, _address: u8) {}
    fn poll(&mut self) -> Option<UsbEvent<Self::Packet<'_>>> {
        None
    }
}

#[test]
fn command_runs_on_stored_locality_and_response_is_sent() {
    let mut dev = EchoTpm { commands: Vec::new(), cancels: 0 };
    let mut tpm = UsbTpm::<_, 32>::new(UsbTpmBuilder::new(1, 0x81, 1), &mut dev);
    let pkt = SetupPacket::new([0x02_01_41, 0x00_01]);
    assert!(tpm.handle_event::<FakeUsbPacket>(UsbEvent::SetupPacket { pkt, endpoint: 0 }).is_ok());
    let header = UsbTpmHeader { header: FOURCC_TPM, identifier: FOURCC_REQ, command_status: MS_SIM_TPM_SEND_COMMAND, length: 3 };
    let header_bytes = header.as_bytes();
    assert!(tpm.handle_event(UsbEvent::DataOutPacket(FakeUsbPacket { data: &header_bytes, ep: 1 })).is_ok());
    assert!(tpm.handle_event(UsbEvent::DataOutPacket(FakeUsbPacket { data: &[7, 8, 9], ep: 1 })).is_ok());
    assert_eq!(tpm.response_len(), 2);

    let mut driver = SinkDriver { limit: 10, sent: Vec::new() };
    tpm.poll_transmit(&mut driver);
    assert_eq!(tpm.state(), State::SendingHeader);
    tpm.poll_transmit(&mut driver);
    assert_eq!(tpm.state(), State::SendingPayload);
    tpm.poll_transmit(&mut driver);
    assert_eq!(tpm.state(), State::Idle);
    let response = UsbTpmHeader { header: FOURCC_TPM, identifier: openprot::usbtpm::FOURCC_RSP, command_status: STATUS_SUCCESS, length: 2 };
    let rb = response.as_bytes();
    assert_eq!(driver.sent, vec![(0x81, rb[..10].to_vec()), (0x81, rb[10..].to_vec()), (0x81, vec![0xaa, 0xbb])]);
    drop(tpm);
    assert_eq!(dev.commands, vec![(2, vec![7, 8, 9])]);
    assert_eq!(dev.cancels, 0);
}
