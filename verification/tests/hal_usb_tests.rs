use openprot::hal_usb::Request;

#[test]
fn test_constants() {
    assert_eq!(u16::from(Request::DEVICE_GET_STATUS()), 0x0080);
    assert_eq!(u16::from(Request::DEVICE_CLEAR_FEATURE()), 0x0100);
    assert_eq!(u16::from(Request::DEVICE_SET_FEATURE()), 0x0300);
    assert_eq!(u16::from(Request::DEVICE_SET_ADDRESS()), 0x0500);
    assert_eq!(u16::from(Request::DEVICE_GET_DESCRIPTOR()), 0x0680);
    assert_eq!(u16::from(Request::DEVICE_SET_DESCRIPTOR()), 0x0700);
    assert_eq!(u16::from(Request::DEVICE_GET_CONFIGURATION()), 0x0880);
    assert_eq!(u16::from(Request::DEVICE_SET_CONFIGURATION()), 0x0900);
    assert_eq!(u16::from(Request::INTERFACE_GET_STATUS()), 0x0081);
    assert_eq!(u16::from(Request::INTERFACE_CLEAR_FEATURE()), 0x0101);
    assert_eq!(u16::from(Request::INTERFACE_SET_FEATURE()), 0x0301);
    assert_eq!(u16::from(Request::INTERFACE_GET_INTERFACE()), 0x0a81);
    assert_eq!(u16::from(Request::INTERFACE_SET_INTERFACE()), 0x0b01);
    assert_eq!(u16::from(Request::ENDPOINT_GET_STATUS()), 0x0082);
    assert_eq!(u16::from(Request::ENDPOINT_CLEAR_FEATURE()), 0x0102);
    assert_eq!(u16::from(Request::ENDPOINT_SET_FEATURE()), 0x0302);
    assert_eq!(u16::from(Request::ENDPOINT_SYNCH_FRAME()), 0x1282);
}
