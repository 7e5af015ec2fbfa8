use hid_proxy::bindings::{
    payload_values, report_bytes, to_hex, DeviceType, Interface, InterfaceType, Refusal, Transfer,
};
use hid_proxy::device::HIDevice;
use hid_proxy::proxy::GlobalState;
use hid_proxy::scripting::process_payload;
use hid_proxy::usb::{ControlRequest, Direction};

fn info(protocol: u8, interface_num: u8, endpoint_out: Option<u8>) -> HIDevice {
    HIDevice {
        vendor_id: 0x046d,
        product_id: 0xc31c,
        manufacturer: None,
        product: None,
        serial_number: None,
        configuration: None,
        bcd_usb: 0x0110,
        bcd_device: 0x6400,
        bus: 1,
        address: 7,
        interface_num,
        protocol,
        subclass: 1,
        max_power: 180,
        report_len: 8,
        endpoint_in: 0x81,
        endpoint_out,
        report_descriptor: vec![5, 1, 9, 6],
    }
}

fn running(protocol: u8, endpoint_out: Option<u8>, physical: usize, mice: usize) -> GlobalState {
    let mut state = GlobalState::new(info(protocol, 0, endpoint_out), physical);
    for _ in 0..mice {
        state.create_virtual_mouse();
    }
    state.freeze();
    let paths = (0..physical + mice).map(|i| format!("/dev/hidg{i}")).collect();
    assert!(state.open_writers(paths));
    state
}

fn values(bytes: &[u8]) -> Vec<Option<i64>> {
    bytes.iter().map(|b| Some(*b as i64)).collect()
}

#[test]
fn physical_handle_takes_its_kind_from_the_primary_interface() {
    let k = Interface::new_physical(0, &GlobalState::new(info(1, 0, None), 1));
    assert_eq!(k, Interface { iface_type: InterfaceType::Physical, dev_type: DeviceType::Keyboard, index: 0 });
    let m = Interface::new_physical(3, &GlobalState::new(info(2, 0, None), 1));
    assert_eq!(m, Interface { iface_type: InterfaceType::Physical, dev_type: DeviceType::Mouse, index: 3 });
    let o = Interface::new_physical(1, &GlobalState::new(info(0, 0, None), 1));
    assert_eq!(o.dev_type, DeviceType::Other);
    let o3 = Interface::new_physical(1, &GlobalState::new(info(3, 0, None), 1));
    assert_eq!(o3.dev_type, DeviceType::Other);
}

#[test]
fn handle_predicates() {
    let p = Interface::new_physical(0, &GlobalState::new(info(1, 0, None), 1));
    assert!(p.is_keyboard() && !p.is_mouse() && p.is_physical() && !p.is_virtual());
    let v = Interface::new_virtual(1, DeviceType::Mouse);
    assert_eq!(v, Interface { iface_type: InterfaceType::Virtual, dev_type: DeviceType::Mouse, index: 1 });
    assert!(!v.is_keyboard() && v.is_mouse() && !v.is_physical() && v.is_virtual());
    let o = Interface::new_virtual(2, DeviceType::Other);
    assert!(!o.is_keyboard() && !o.is_mouse());
}

#[test]
fn script_values_become_bytes() {
    assert_eq!(report_bytes(&vec![Some(0), Some(1), Some(255)]), vec![0, 1, 255]);
    assert_eq!(report_bytes(&vec![Some(256), Some(257), Some(-1), Some(-256)]), vec![0, 1, 255, 0]);
    assert_eq!(report_bytes(&vec![None, Some(i64::MAX), Some(i64::MIN)]), vec![0, 255, 0]);
    assert_eq!(report_bytes(&Vec::new()), Vec::<u8>::new());
}

#[test]
fn reports_become_script_values_and_back() {
    let all: Vec<u8> = (0..=255).collect();
    let as_values = payload_values(&all);
    assert_eq!(as_values.len(), 256);
    assert_eq!(as_values[0], Some(0));
    assert_eq!(as_values[200], Some(200));
    assert_eq!(report_bytes(&as_values), all);
}

#[test]
fn to_hex_pads_and_reads_negative_numbers_as_unsigned() {
    assert_eq!(to_hex(255, 4), "00ff");
    assert_eq!(to_hex(255, 0), "ff");
    assert_eq!(to_hex(0, 2), "00");
    assert_eq!(to_hex(0x1234, 2), "1234");
    assert_eq!(to_hex(-1, 0), "ffffffffffffffff");
    assert_eq!(to_hex(4, 2), format!("{:02x}", 4));
}

#[test]
fn single_keyboard_passthrough() {
    let state = running(1, None, 1, 0);
    let iface = Interface::new_physical(0, &state);
    let press = [0u8, 0, 4, 0, 0, 0, 0, 0];
    let call = process_payload(iface, Direction::In, &press);
    assert_eq!(call.direction, "IN");
    let sent = call.interface.send_to(&state, &call.direction, &call.values);
    assert_eq!(sent, Transfer::Gadget { index: 0, data: press.to_vec() });
    assert_eq!(state.gadget_writer(0), Some(&String::from("/dev/hidg0")));
    let release = [0u8; 8];
    let call = process_payload(iface, Direction::In, &release);
    let sent = call.interface.send_to(&state, &call.direction, &call.values);
    assert_eq!(sent, Transfer::Gadget { index: 0, data: vec![0; 8] });
}

#[test]
fn passthrough_toward_the_device_keeps_the_bytes() {
    let leds = [2u8];
    let with_out = running(1, Some(0x02), 1, 0);
    let iface = Interface::new_physical(0, &with_out);
    let call = process_payload(iface, Direction::Out, &leds);
    assert_eq!(call.direction, "OUT");
    assert_eq!(
        iface.send_to(&with_out, &call.direction, &call.values),
        Transfer::Interrupt { endpoint: 0x02, data: vec![2], timeout_millis: 100 }
    );
}

#[test]
fn device_without_out_endpoint_gets_set_report() {
    let mut state = GlobalState::new(info(1, 3, None), 1);
    state.freeze();
    let iface = Interface::new_physical(0, &state);
    let expected = Transfer::Control {
        request: ControlRequest {
            request_type: 0x21,
            request: 0x09,
            value: 0x0200,
            index: 3,
            timeout_millis: 100,
        },
        data: vec![1, 2, 3],
    };
    assert_eq!(iface.send_to(&state, "OUT", &values(&[1, 2, 3])), expected);
    assert_eq!(iface.send_to_device(&state, vec![1, 2, 3]), expected);
}

#[test]
fn virtual_mouse_injection() {
    let mut state = GlobalState::new(info(1, 0, None), 1);
    let vm = state.create_virtual_mouse().unwrap();
    assert_eq!(vm.index, 1);
    assert_eq!(state.freeze(), Some(vec![hid_proxy::virtual_device::VirtualDeviceType::Mouse]));
    assert!(state.open_writers(vec![String::from("/dev/hidg0"), String::from("/dev/hidg1")]));
    let sent = vm.send_report(&state, &values(&[0, 1, 0, 0]));
    assert_eq!(sent, Transfer::Gadget { index: 1, data: vec![0, 1, 0, 0] });
    assert_eq!(state.gadget_writer(1), Some(&String::from("/dev/hidg1")));
}

#[test]
fn sends_on_the_wrong_kind_of_interface_are_refused() {
    let state = running(1, None, 1, 1);
    let physical = Interface::new_physical(0, &state);
    let virt = Interface::new_virtual(1, DeviceType::Mouse);
    assert_eq!(virt.send_to(&state, "IN", &values(&[1])), Transfer::Refused(Refusal::NotPhysical));
    assert_eq!(virt.send_to(&state, "bogus", &values(&[1])), Transfer::Refused(Refusal::NotPhysical));
    assert_eq!(physical.send_report(&state, &values(&[1])), Transfer::Refused(Refusal::NotVirtual));
}

#[test]
fn unknown_directions_are_refused() {
    let state = running(1, None, 1, 0);
    let physical = Interface::new_physical(0, &state);
    for direction in ["in", "out", "", "IN ", "INOUT", "O"] {
        assert_eq!(
            physical.send_to(&state, direction, &values(&[1])),
            Transfer::Refused(Refusal::BadDirection)
        );
    }
}

#[test]
fn sends_without_writer_are_refused() {
    let not_running = GlobalState::new(info(1, 0, None), 1);
    let physical = Interface::new_physical(0, &not_running);
    assert_eq!(
        physical.send_to(&not_running, "IN", &values(&[1])),
        Transfer::Refused(Refusal::NoWriter)
    );
    let state = running(1, None, 1, 0);
    let beyond = Interface::new_physical(1, &state);
    assert_eq!(beyond.send_to_host(&state, vec![1]), Transfer::Refused(Refusal::NoWriter));
    let virt = Interface::new_virtual(5, DeviceType::Keyboard);
    assert_eq!(virt.send_report(&state, &values(&[1])), Transfer::Refused(Refusal::NoWriter));
}
