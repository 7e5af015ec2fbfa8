use hid_proxy::bindings::{DeviceType, Interface, InterfaceType};
use hid_proxy::device::HIDevice;
use hid_proxy::proxy::{
    after_gadget_write, bridge_device_to_host, bridge_host_to_device, connection_steps,
    device_read_len, setup_device_connection, setup_gadget_files, ConnectStep, GadgetRead,
    GlobalState, RouterError, RouterStep, SessionEnd, UsbRead, WriteStep, EAGAIN, ESHUTDOWN,
    GADGET_READ_LEN, WRITE_BACKOFF_MILLIS,
};
use hid_proxy::usb::Direction;
use hid_proxy::virtual_device::VirtualDeviceType;

fn keyboard() -> HIDevice {
    HIDevice {
        vendor_id: 0x046d,
        product_id: 0xc31c,
        manufacturer: None,
        product: None,
        serial_number: None,
        configuration: None,
        bcd_usb: 0x0110,
        bcd_device: 0x6400,
        bus: 1,
        address: 7,
        interface_num: 0,
        protocol: 1,
        subclass: 1,
        max_power: 180,
        report_len: 8,
        endpoint_in: 0x81,
        endpoint_out: None,
        report_descriptor: vec![5, 1, 9, 6],
    }
}

fn paths(n: usize) -> Vec<String> {
    (0..n).map(|i| format!("/dev/hidg{i}")).collect()
}

#[test]
fn new_session_has_no_requests_and_no_writers() {
    let state = GlobalState::new(keyboard(), 2);
    assert_eq!(state.target_info(), &keyboard());
    assert_eq!(state.num_physical_interfaces(), 2);
    assert!(state.virtual_device_requests().is_empty());
    assert!(!state.frozen());
    assert_eq!(state.num_functions(), 2);
    assert_eq!(state.gadget_writer(0), None);
}

#[test]
fn virtual_handles_count_on_from_the_physical_interfaces() {
    let mut state = GlobalState::new(keyboard(), 2);
    let k = state.create_virtual_keyboard();
    assert_eq!(
        k,
        Some(Interface { iface_type: InterfaceType::Virtual, dev_type: DeviceType::Keyboard, index: 2 })
    );
    let m = state.create_virtual_mouse();
    assert_eq!(
        m,
        Some(Interface { iface_type: InterfaceType::Virtual, dev_type: DeviceType::Mouse, index: 3 })
    );
    let k2 = state.create_virtual(VirtualDeviceType::Keyboard);
    assert_eq!(k2.map(|i| i.index), Some(4));
    assert_eq!(
        state.virtual_device_requests(),
        &vec![VirtualDeviceType::Keyboard, VirtualDeviceType::Mouse, VirtualDeviceType::Keyboard]
    );
    assert_eq!(state.num_functions(), 5);
}

#[test]
fn keyboards_then_mice_fill_the_indices_in_order() {
    let mut state = GlobalState::new(keyboard(), 1);
    let mut handles = Vec::new();
    for _ in 0..3 {
        handles.push(state.create_virtual_keyboard().unwrap());
    }
    for _ in 0..2 {
        handles.push(state.create_virtual_mouse().unwrap());
    }
    for (j, h) in handles.iter().enumerate() {
        assert_eq!(h.index, 1 + j);
        assert_eq!(h.iface_type, InterfaceType::Virtual);
        assert_eq!(h.dev_type, if j < 3 { DeviceType::Keyboard } else { DeviceType::Mouse });
    }
    let requests = state.freeze().unwrap();
    assert_eq!(requests.len(), 5);
    assert_eq!(requests[..3], [VirtualDeviceType::Keyboard; 3]);
    assert_eq!(requests[3..], [VirtualDeviceType::Mouse; 2]);
}

#[test]
fn frozen_requests_take_no_more() {
    let mut state = GlobalState::new(keyboard(), 1);
    assert!(state.create_virtual_mouse().is_some());
    assert_eq!(state.freeze(), Some(vec![VirtualDeviceType::Mouse]));
    assert!(state.frozen());
    assert_eq!(state.create_virtual_keyboard(), None);
    assert_eq!(state.create_virtual_mouse(), None);
    assert_eq!(state.virtual_device_requests(), &vec![VirtualDeviceType::Mouse]);
    assert_eq!(state.num_functions(), 2);
    assert_eq!(state.freeze(), None);
}

#[test]
fn writers_are_taken_once_and_only_the_right_ones() {
    let mut state = GlobalState::new(keyboard(), 1);
    state.create_virtual_mouse();
    assert!(!state.open_writers(paths(2)));
    state.freeze();
    assert!(!state.open_writers(paths(1)));
    assert!(!state.open_writers(paths(3)));
    assert!(!state.open_writers(vec![String::from("/dev/hidg0"), String::from("/dev/hidg2")]));
    assert!(!state.open_writers(vec![String::from("/dev/hidg1"), String::from("/dev/hidg0")]));
    assert_eq!(state.gadget_writer(0), None);
    assert!(state.open_writers(paths(2)));
    assert_eq!(state.gadget_writer(0), Some(&String::from("/dev/hidg0")));
    assert_eq!(state.gadget_writer(1), Some(&String::from("/dev/hidg1")));
    assert_eq!(state.gadget_writer(2), None);
    assert!(!state.open_writers(paths(2)));
}

#[test]
fn device_read_delivers_reports_and_survives_timeouts() {
    let buf = vec![0, 0, 4, 0, 0, 0, 0, 0];
    assert_eq!(
        bridge_device_to_host(UsbRead::Bytes(8), &buf),
        RouterStep::Deliver { direction: Direction::In, payload: buf.clone() }
    );
    assert_eq!(
        bridge_device_to_host(UsbRead::Bytes(3), &buf),
        RouterStep::Deliver { direction: Direction::In, payload: vec![0, 0, 4] }
    );
    assert_eq!(bridge_device_to_host(UsbRead::Bytes(0), &buf), RouterStep::Continue);
    assert_eq!(bridge_device_to_host(UsbRead::TimedOut, &buf), RouterStep::Continue);
    assert_eq!(
        bridge_device_to_host(UsbRead::Failed, &buf),
        RouterStep::Stop(SessionEnd::Failed(RouterError::UsbRead))
    );
}

#[test]
fn host_read_delivers_reports_and_ends_on_empty_read() {
    assert_eq!(GADGET_READ_LEN, 64);
    let mut buf = vec![0u8; 64];
    buf[0] = 2;
    assert_eq!(
        bridge_host_to_device(GadgetRead::Bytes(1), &buf),
        RouterStep::Deliver { direction: Direction::Out, payload: vec![2] }
    );
    assert_eq!(
        bridge_host_to_device(GadgetRead::Bytes(64), &buf),
        RouterStep::Deliver { direction: Direction::Out, payload: buf.clone() }
    );
    assert_eq!(
        bridge_host_to_device(GadgetRead::Bytes(0), &buf),
        RouterStep::Stop(SessionEnd::HostDisconnected)
    );
    assert_eq!(
        bridge_host_to_device(GadgetRead::Failed, &buf),
        RouterStep::Stop(SessionEnd::HostDisconnected)
    );
}

#[test]
fn gadget_write_retries_on_eagain_and_stops_on_eshutdown() {
    assert_eq!((EAGAIN, ESHUTDOWN, WRITE_BACKOFF_MILLIS), (11, 108, 1));
    assert_eq!(after_gadget_write(None), WriteStep::Done);
    assert_eq!(after_gadget_write(Some(11)), WriteStep::Retry);
    assert_eq!(after_gadget_write(Some(108)), WriteStep::Stop(SessionEnd::HostDisconnected));
    assert_eq!(
        after_gadget_write(Some(5)),
        WriteStep::Stop(SessionEnd::Failed(RouterError::GadgetWrite { errno: 5 }))
    );
    assert_eq!(
        after_gadget_write(Some(0)),
        WriteStep::Stop(SessionEnd::Failed(RouterError::GadgetWrite { errno: 0 }))
    );
}

#[test]
fn read_buffer_has_the_report_length() {
    assert_eq!(device_read_len(&keyboard()), 8);
    let mut big = keyboard();
    big.report_len = 64;
    assert_eq!(device_read_len(&big), 64);
}

#[test]
fn gadget_files_are_the_character_device_of_the_index() {
    assert_eq!(setup_gadget_files(0), "/dev/hidg0");
    assert_eq!(setup_gadget_files(3), "/dev/hidg3");
}

#[test]
fn connection_goes_to_the_first_device_at_the_place() {
    let target = keyboard();
    assert_eq!(setup_device_connection(&vec![(1, 2), (1, 7), (2, 7), (1, 7)], &target), Some(1));
    assert_eq!(setup_device_connection(&vec![(1, 7)], &target), Some(0));
    assert_eq!(setup_device_connection(&vec![(7, 1), (1, 6)], &target), None);
    assert_eq!(setup_device_connection(&Vec::new(), &target), None);
}

#[test]
fn connection_detaches_an_active_driver_before_claiming() {
    let mut target = keyboard();
    target.interface_num = 2;
    assert_eq!(
        connection_steps(&target, Some(true)),
        vec![ConnectStep::DetachKernelDriver(2), ConnectStep::ClaimInterface(2)]
    );
    assert_eq!(connection_steps(&target, Some(false)), vec![ConnectStep::ClaimInterface(2)]);
    assert_eq!(connection_steps(&target, None), vec![ConnectStep::ClaimInterface(2)]);
}
