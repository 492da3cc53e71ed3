use openprot::descriptor::{
    hex_utf16_descriptor, ConfigDescriptor, DfuFunctionalDescriptor, EndpointDescriptor, FunctionalDescriptor,
    InterfaceDescriptor, StringDescriptor, StringDescriptorWritter, StringHandle, TransferType,
};
use openprot::hal_usb::Direction;

const INTERFACE_NAME_HANDLE: StringHandle = StringHandle(5);

#[test]
fn works() {
    let mut buf = [0u8; 30];
    let mut writter = StringDescriptorWritter::new(&mut buf).unwrap();
    writter.write_str("Hello").unwrap();
    writter.write_str(" ").unwrap();
    writter.write_str("World").unwrap();
    let result = writter.finalize().unwrap();
    assert_eq!(
        result,
        &[
            24, 3, b'H', 0, b'e', 0, b'l', 0, b'l', 0, b'o', 0, b' ', 0, b'W', 0, b'o', 0, b'r', 0, b'l', 0, b'd',
            0
        ]
    );
}

#[test]
fn too_small_buffer() {
    let mut buf = [0u8; 1];
    assert!(StringDescriptorWritter::new(&mut buf).is_err());
}

#[test]
fn too_big_buffer() {
    let mut buf = [0u8; 258];
    assert!(StringDescriptorWritter::new(&mut buf).is_err());
    assert!(buf.iter().all(|&b| b == 0));
}

#[test]
fn too_small_to_fit() {
    let mut buf = [0u8; 12];
    let mut writter = StringDescriptorWritter::new(&mut buf).unwrap();
    writter.write_str("Hello").unwrap();
    assert!(writter.write_str(" ").is_err());
}

#[test]
fn non_ascii_char() {
    let mut buf = [0u8; 20];
    let mut writter = StringDescriptorWritter::new(&mut buf).unwrap();
    assert!(writter.write_str("Héllö").is_err());
}

fn config_desc() -> ConfigDescriptor {
    ConfigDescriptor {
        configuration_value: 1,
        max_power: 250,
        self_powered: false,
        remote_wakeup: false,
        interfaces: vec![InterfaceDescriptor {
            name: INTERFACE_NAME_HANDLE,
            interface_number: 0,
            alternate_setting: 0,
            interface_class: 0xff,
            interface_sub_class: 0xff,
            interface_protocol: 0xff,
            func_descs: vec![],
            endpoints: vec![
                EndpointDescriptor {
                    direction: Direction::DeviceToHost,
                    endpoint_num: 1,
                    transfer_type: TransferType::Bulk,
                    max_packet_size: 64,
                    interval: 0,
                },
                EndpointDescriptor {
                    direction: Direction::HostToDevice,
                    endpoint_num: 2,
                    transfer_type: TransferType::Bulk,
                    max_packet_size: 64,
                    interval: 0,
                },
            ],
        }],
    }
}

#[test]
fn test_config_desc() {
    let desc = config_desc();
    let raw = desc.serialize();
    assert_eq!(raw.len(), desc.total_size());
    assert_eq!(
        raw.as_slice(),
        &[
            0x09, 0x02, 0x20, 0x00, 0x01, 0x01, 0x00, 0x80, 0xfa, 0x09, 0x04, 0x00, 0x00, 0x02, 0xff, 0xff, 0xff,
            0x05, 0x07, 0x05, 0x81, 0x02, 0x40, 0x00, 0x00, 0x07, 0x05, 0x02, 0x02, 0x40, 0x00, 0x00
        ]
    )
}

#[test]
fn test_config_desc_dfu() {
    let desc = ConfigDescriptor {
        configuration_value: 1,
        max_power: 250,
        self_powered: false,
        remote_wakeup: false,
        interfaces: vec![InterfaceDescriptor {
            name: INTERFACE_NAME_HANDLE,
            interface_number: 0,
            alternate_setting: 0,
            interface_class: 0xfe,
            interface_sub_class: 0x01,
            interface_protocol: 0x02,
            func_descs: vec![FunctionalDescriptor::Dfu(DfuFunctionalDescriptor {
                can_download: true,
                can_upload: false,
                manifestation_tolerant: true,
                will_detach: true,
                transfer_size: 2048,
                detach_timeout_ms: 8000,
            })],
            endpoints: vec![],
        }],
    };
    let bytes = desc.serialize();
    assert_eq!(bytes.len(), desc.total_size());
    assert_eq!(
        bytes.as_slice(),
        &[
            0x09, 0x02, 0x1b, 0x00, 0x01, 0x01, 0x00, 0x80, 0xfa, 0x09, 0x04, 0x00, 0x00, 0x00, 0xfe, 0x01, 0x02,
            0x05, 0x09, 0x21, 0x0d, 0x40, 0x1f, 0x00, 0x08, 0x00, 0x01
        ]
    )
}

#[test]
fn test_string_descriptor() {
    let vendor = StringDescriptor::const_from_ascii("Mutask");
    let usb_vendor = vendor.as_ref();
    assert_eq!(usb_vendor.as_bytes(), &[14, 3, b'M', 0, b'u', 0, b't', 0, b'a', 0, b's', 0, b'k', 0,]);
}

#[test]
pub fn test_hex_utf16_descriptor() {
    let mut buf = [0_u8; 80];
    let len = hex_utf16_descriptor(&mut buf, &[0xab, 0x1c, 0xd2, 0xe3, 0x4f, 0x56, 0x78, 0x90]).unwrap();
    assert_eq!(
        [
            34, 3, b'a', 0, b'b', 0, b'1', 0, b'c', 0, b'd', 0, b'2', 0, b'e', 0, b'3', 0, b'4', 0, b'f', 0, b'5',
            0, b'6', 0, b'7', 0, b'8', 0, b'9', 0, b'0', 0
        ],
        &buf[..len]
    );

    // empty string; tight fit
    let mut buf = [0_u8; 2];
    let len = hex_utf16_descriptor(&mut buf, b"").unwrap();
    assert_eq!(&[2, 3], &buf[..len]);

    // 1 byte; tight fit
    let mut buf = [0_u8; 6];
    let len = hex_utf16_descriptor(&mut buf, &[0xca]).unwrap();
    assert_eq!(&[6, 3, b'c', 0, b'a', 0], &buf[..len]);

    // 2 bytes; tight fit
    let mut buf = [0_u8; 10];
    let len = hex_utf16_descriptor(&mut buf, &[0xca, 0xfe]).unwrap();
    assert_eq!(&[10, 3, b'c', 0, b'a', 0, b'f', 0, b'e', 0], &buf[..len]);

    // too small to fit descriptor
    let mut buf = [0_u8; 1];
    hex_utf16_descriptor(&mut buf, b"").unwrap_err();

    // too small to fit 1 byte hex string
    let mut buf = [0_u8; 5];
    hex_utf16_descriptor(&mut buf, b"H").unwrap_err();

    // too small to fit 2 byte hex string
    let mut buf = [0_u8; 9];
    hex_utf16_descriptor(&mut buf, b"Hi").unwrap_err();

    // length too big to fit in length field
    let mut buf = [0_u8; 258];
    hex_utf16_descriptor(&mut buf, &[0x42_u8; 64]).unwrap_err();
}
