use hid_proxy::virtual_device::{
    VirtualDeviceType, KEYBOARD_REPORT_DESC, KEYBOARD_REPORT_DESC_LEN, MOUSE_REPORT_DESC,
    MOUSE_REPORT_DESC_LEN,
};

#[test]
fn keyboard_descriptor_is_the_boot_keyboard() {
    let d = VirtualDeviceType::Keyboard.report_descriptor();
    assert_eq!(d.len(), 63);
    assert_eq!(KEYBOARD_REPORT_DESC_LEN, 63);
    assert_eq!(d, KEYBOARD_REPORT_DESC.to_vec());
    assert_eq!(&d[..6], &[0x05, 0x01, 0x09, 0x06, 0xA1, 0x01]);
    assert_eq!(d[62], 0xC0);
    assert_eq!(&d[54..56], &[0x91, 0x02]);
}

#[test]
fn mouse_descriptor_is_the_boot_mouse() {
    let d = VirtualDeviceType::Mouse.report_descriptor();
    assert_eq!(d.len(), 52);
    assert_eq!(MOUSE_REPORT_DESC_LEN, 52);
    assert_eq!(d, MOUSE_REPORT_DESC.to_vec());
    assert_eq!(&d[..6], &[0x05, 0x01, 0x09, 0x02, 0xA1, 0x01]);
    assert_eq!(&d[40..44], &[0x15, 0x81, 0x25, 0x7F]);
    assert_eq!(&d[50..], &[0xC0, 0xC0]);
}

#[test]
fn virtual_kinds_announce_their_boot_values() {
    assert_eq!(VirtualDeviceType::Keyboard.protocol(), 1);
    assert_eq!(VirtualDeviceType::Keyboard.subclass(), 0);
    assert_eq!(VirtualDeviceType::Keyboard.report_length(), 8);
    assert_eq!(VirtualDeviceType::Mouse.protocol(), 2);
    assert_eq!(VirtualDeviceType::Mouse.subclass(), 0);
    assert_eq!(VirtualDeviceType::Mouse.report_length(), 4);
}
