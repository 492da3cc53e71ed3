use openprot::status::Error;
use openprot::usb_stack::testing::FakeUsbPacket;
use openprot::usb_stack::Transfer;

const MAX_PACKET_SIZE: usize = Transfer::<0>::MAX_PACKET_SIZE;

#[test]
fn test_splice_single_short_packet() {
    let packet_data = [1, 2, 3, 4];
    let packet = FakeUsbPacket { data: &packet_data, ep: 0 };

    let mut transfer = Transfer::<32>::new();
    let result = transfer.splice(packet).unwrap();

    assert!(result.is_some());
    assert_eq!(result.unwrap(), &packet_data[..]);
}

#[test]
fn test_splice_single_full_packet_then_zlp() {
    let packet_data = [42; MAX_PACKET_SIZE];
    let packet = FakeUsbPacket { data: &packet_data, ep: 0 };

    let mut transfer = Transfer::<32>::new();
    let result = transfer.splice(packet).unwrap();

    assert!(result.is_none());

    let zlp = FakeUsbPacket { data: &[], ep: 0 };
    let result = transfer.splice(zlp).unwrap();
    assert!(result.is_some());
    assert_eq!(result.unwrap(), &packet_data[..]);
}

#[test]
fn test_splice_multiple_packets() {
    let packet1_data = [1; MAX_PACKET_SIZE];
    let packet2_data = [2; MAX_PACKET_SIZE];
    let packet3_data = [3; 32];

    // Packet 1
    let packet1 = FakeUsbPacket { data: &packet1_data, ep: 0 };
    let mut transfer = Transfer::<64>::new();
    let result = transfer.splice(packet1).unwrap();
    assert!(result.is_none());

    // Packet 2
    let packet2 = FakeUsbPacket { data: &packet2_data, ep: 0 };
    let result = transfer.splice(packet2).unwrap();
    assert!(result.is_none());

    // Packet 3 (short packet)
    let packet3 = FakeUsbPacket { data: &packet3_data, ep: 0 };
    let result = transfer.splice(packet3).unwrap();
    assert!(result.is_some());

    let mut expected_data = [0u8; 2 * MAX_PACKET_SIZE + 32];
    expected_data[..MAX_PACKET_SIZE].copy_from_slice(&packet1_data);
    expected_data[MAX_PACKET_SIZE..2 * MAX_PACKET_SIZE].copy_from_slice(&packet2_data);
    expected_data[2 * MAX_PACKET_SIZE..].copy_from_slice(&packet3_data);

    assert_eq!(result.unwrap(), &expected_data[..]);
}

#[test]
fn test_splice_buffer_overflow() {
    let packet_data = [1; 1];
    let packet = FakeUsbPacket { data: &packet_data, ep: 0 };

    let mut transfer = Transfer::<16>::new();
    transfer.splice(FakeUsbPacket { data: &[0; MAX_PACKET_SIZE], ep: 0 }).unwrap();
    let result = transfer.splice(packet);
    assert_eq!(result.err(), Some(Error::OutOfRange));
}

#[test]
fn test_full_capacity_with_full_packets_then_partial_packet() {
    const PARTIAL_SIZE: usize = 16;
    const FULL1_DATA: &[u8] = &[0xaa; MAX_PACKET_SIZE];
    const FULL2_DATA: &[u8] = &[0xbb; MAX_PACKET_SIZE];
    const PARTIAL_DATA: &[u8] = &[0xcc; PARTIAL_SIZE];
    const RECEIVE_BUFFER_WORDS: usize = (FULL1_DATA.len() + FULL2_DATA.len() + PARTIAL_DATA.len()) / 4;
    let full1 = FakeUsbPacket { data: FULL1_DATA, ep: 0 };
    let full2 = FakeUsbPacket { data: FULL2_DATA, ep: 0 };
    let partial = FakeUsbPacket { data: PARTIAL_DATA, ep: 0 };
    let mut transfer = Transfer::<RECEIVE_BUFFER_WORDS>::new();
    assert!(transfer.splice(full1).unwrap().is_none());
    assert!(transfer.splice(full2).unwrap().is_none());
    let buffer = transfer.splice(partial).unwrap().unwrap();
    assert_eq!(&buffer[..MAX_PACKET_SIZE], FULL1_DATA);
    assert_eq!(&buffer[MAX_PACKET_SIZE..2 * MAX_PACKET_SIZE], FULL2_DATA);
    assert_eq!(&buffer[2 * MAX_PACKET_SIZE..], PARTIAL_DATA);
}

#[test]
fn default_transfer_collects_full_packets_then_short_one() {
    let mut transfer: Transfer<64> = Transfer::default();
    let first = [1u8; 64];
    let second = [2u8; 64];
    let last = [3u8; 5];
    assert!(matches!(transfer.splice(FakeUsbPacket { data: &first, ep: 0 }), Ok(None)));
    assert!(matches!(transfer.splice(FakeUsbPacket { data: &second, ep: 0 }), Ok(None)));
    let all = transfer.splice(FakeUsbPacket { data: &last, ep: 0 }).unwrap().unwrap().to_vec();
    let mut expected = Vec::new();
    expected.extend_from_slice(&first);
    expected.extend_from_slice(&second);
    expected.extend_from_slice(&last);
    assert_eq!(all, expected);
}
