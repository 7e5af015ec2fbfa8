use hid_proxy::device::{CompoundHIDevice, HIDevice};
use hid_proxy::gadget::{
    bind_gadget, cleanup_gadget_emergency, create_gadget, device_path_string, find_udc_controller,
    gadget_functions, gadget_root_string, gadget_tree, GadgetBuild, state_is_configured, teardown_gadget,
    udc_state_path_string, wait_for_host_connection, DirEntry, FsOp, GadgetError, GadgetFunction,
    HostWait, UdcEntry, WaitStep, HOST_POLL_MILLIS, RELEASE_REPORT_LEN,
};
use hid_proxy::virtual_device::{VirtualDeviceType, KEYBOARD_REPORT_DESC, MOUSE_REPORT_DESC};

const ROOT: &str = "/sys/kernel/config/usb_gadget/hid_proxy";

fn interface(number: u8, protocol: u8, report_len: u16, descriptor: Vec<u8>) -> HIDevice {
    HIDevice {
        vendor_id: 0x046d,
        product_id: 0xc52b,
        manufacturer: Some(String::from("Logitech")),
        product: Some(String::from("USB Receiver")),
        serial_number: None,
        configuration: None,
        bcd_usb: 0x0200,
        bcd_device: 0x2411,
        bus: 1,
        address: 4,
        interface_num: number,
        protocol,
        subclass: 1,
        max_power: 98,
        report_len,
        endpoint_in: 0x81 + number,
        endpoint_out: None,
        report_descriptor: descriptor,
    }
}

fn device(interfaces: Vec<HIDevice>) -> CompoundHIDevice {
    CompoundHIDevice {
        vendor_id: 0x046d,
        product_id: 0xc52b,
        manufacturer: Some(String::from("Logitech")),
        product: Some(String::from("USB Receiver")),
        serial_number: None,
        bus: 1,
        address: 4,
        interfaces,
    }
}

fn dir(path: &str) -> FsOp {
    FsOp::CreateDirAll { path: String::from(path) }
}

fn text(path: &str, content: &str) -> FsOp {
    FsOp::WriteText { path: String::from(path), content: String::from(content) }
}

fn entry(name: &str, is_symlink: bool, is_dir: bool) -> DirEntry {
    DirEntry { name: String::from(name), is_symlink, is_dir }
}

#[test]
fn gadget_for_one_keyboard() {
    let plan = gadget_tree(&device(vec![interface(0, 1, 8, vec![5, 1, 9, 6])]), &Vec::new());
    let expected = vec![
        dir("/sys/kernel/config/usb_gadget/hid_proxy"),
        text("/sys/kernel/config/usb_gadget/hid_proxy/idVendor", "0x046d"),
        text("/sys/kernel/config/usb_gadget/hid_proxy/idProduct", "0xc52b"),
        text("/sys/kernel/config/usb_gadget/hid_proxy/bcdDevice", "0x2411"),
        text("/sys/kernel/config/usb_gadget/hid_proxy/bcdUSB", "0x0200"),
        dir("/sys/kernel/config/usb_gadget/hid_proxy/strings/0x409"),
        text("/sys/kernel/config/usb_gadget/hid_proxy/strings/0x409/serialnumber", "1337-PROXY"),
        text("/sys/kernel/config/usb_gadget/hid_proxy/strings/0x409/manufacturer", "Logitech"),
        text("/sys/kernel/config/usb_gadget/hid_proxy/strings/0x409/product", "USB Receiver"),
        dir("/sys/kernel/config/usb_gadget/hid_proxy/configs/c.1"),
        dir("/sys/kernel/config/usb_gadget/hid_proxy/configs/c.1/strings/0x409"),
        text(
            "/sys/kernel/config/usb_gadget/hid_proxy/configs/c.1/strings/0x409/configuration",
            "Config 1",
        ),
        text("/sys/kernel/config/usb_gadget/hid_proxy/configs/c.1/MaxPower", "500"),
        dir("/sys/kernel/config/usb_gadget/hid_proxy/functions/hid.usb0"),
        text("/sys/kernel/config/usb_gadget/hid_proxy/functions/hid.usb0/protocol", "1"),
        text("/sys/kernel/config/usb_gadget/hid_proxy/functions/hid.usb0/subclass", "1"),
        text("/sys/kernel/config/usb_gadget/hid_proxy/functions/hid.usb0/report_length", "8"),
        FsOp::WriteBytes {
            path: String::from("/sys/kernel/config/usb_gadget/hid_proxy/functions/hid.usb0/report_desc"),
            data: vec![5, 1, 9, 6],
        },
        FsOp::Symlink {
            target: String::from("/sys/kernel/config/usb_gadget/hid_proxy/functions/hid.usb0"),
            link: String::from("/sys/kernel/config/usb_gadget/hid_proxy/configs/c.1/hid.usb0"),
        },
    ];
    assert_eq!(plan.ops, expected);
    assert_eq!(plan.device_paths, vec![String::from("/dev/hidg0")]);
}

#[test]
fn gadget_strings_fall_back_to_defaults() {
    let mut d = device(Vec::new());
    d.manufacturer = None;
    d.product = None;
    d.serial_number = Some(String::from("SN-1"));
    let plan = gadget_tree(&d, &Vec::new());
    assert_eq!(plan.ops.len(), 11);
    assert_eq!(plan.ops[3], dir("/sys/kernel/config/usb_gadget/hid_proxy/strings/0x409"));
    assert_eq!(
        plan.ops[4],
        text("/sys/kernel/config/usb_gadget/hid_proxy/strings/0x409/serialnumber", "SN-1")
    );
    assert_eq!(
        plan.ops[5],
        text("/sys/kernel/config/usb_gadget/hid_proxy/strings/0x409/manufacturer", "Rust Proxy")
    );
    assert_eq!(
        plan.ops[6],
        text(
            "/sys/kernel/config/usb_gadget/hid_proxy/strings/0x409/product",
            "Cloned Compound Device"
        )
    );
    assert!(plan.device_paths.is_empty());
}

#[test]
fn gadget_functions_are_physical_then_virtual_in_request_order() {
    let d = device(vec![interface(0, 1, 8, vec![1]), interface(1, 0, 64, vec![2, 2])]);
    let requests = vec![VirtualDeviceType::Mouse, VirtualDeviceType::Keyboard, VirtualDeviceType::Mouse];
    let fns = gadget_functions(&d, &requests);
    assert_eq!(fns.len(), 5);
    assert_eq!(
        fns[0],
        GadgetFunction { protocol: 1, subclass: 1, report_length: 8, report_descriptor: vec![1] }
    );
    assert_eq!(
        fns[1],
        GadgetFunction { protocol: 0, subclass: 1, report_length: 64, report_descriptor: vec![2, 2] }
    );
    let mouse = GadgetFunction {
        protocol: 2,
        subclass: 0,
        report_length: 4,
        report_descriptor: MOUSE_REPORT_DESC.to_vec(),
    };
    let keyboard = GadgetFunction {
        protocol: 1,
        subclass: 0,
        report_length: 8,
        report_descriptor: KEYBOARD_REPORT_DESC.to_vec(),
    };
    assert_eq!(fns[2], mouse);
    assert_eq!(fns[3], keyboard);
    assert_eq!(fns[4], mouse);
}

#[test]
fn gadget_with_virtual_mouse_has_a_second_function() {
    let plan = gadget_tree(
        &device(vec![interface(0, 1, 8, vec![5, 1])]),
        &vec![VirtualDeviceType::Mouse],
    );
    assert_eq!(plan.ops.len(), 13 + 2 * 6);
    assert_eq!(plan.device_paths, vec![String::from("/dev/hidg0"), String::from("/dev/hidg1")]);
    let f = "/sys/kernel/config/usb_gadget/hid_proxy/functions/hid.usb1";
    assert_eq!(plan.ops[19], dir(f));
    assert_eq!(plan.ops[20], text(&format!("{f}/protocol"), "2"));
    assert_eq!(plan.ops[21], text(&format!("{f}/subclass"), "0"));
    assert_eq!(plan.ops[22], text(&format!("{f}/report_length"), "4"));
    assert_eq!(
        plan.ops[23],
        FsOp::WriteBytes { path: format!("{f}/report_desc"), data: MOUSE_REPORT_DESC.to_vec() }
    );
    assert_eq!(
        plan.ops[24],
        FsOp::Symlink {
            target: String::from(f),
            link: String::from("/sys/kernel/config/usb_gadget/hid_proxy/configs/c.1/hid.usb1"),
        }
    );
}

#[test]
fn every_function_is_linked_and_has_its_device() {
    let interfaces: Vec<HIDevice> = (0..11).map(|n| interface(n, 0, 16, vec![n])).collect();
    let plan = gadget_tree(&device(interfaces), &vec![VirtualDeviceType::Keyboard]);
    assert_eq!(plan.device_paths.len(), 12);
    for i in 0..12usize {
        assert_eq!(plan.device_paths[i], format!("/dev/hidg{i}"));
        let target = format!("{ROOT}/functions/hid.usb{i}");
        let link = format!("{ROOT}/configs/c.1/hid.usb{i}");
        assert!(plan.ops.contains(&FsOp::CreateDirAll { path: target.clone() }));
        assert!(plan.ops.contains(&FsOp::Symlink { target, link }));
    }
}

#[test]
fn binding_writes_the_controller_name() {
    assert_eq!(
        bind_gadget("fe980000.usb"),
        text("/sys/kernel/config/usb_gadget/hid_proxy/UDC", "fe980000.usb")
    );
}

#[test]
fn paths_are_spelled_out() {
    assert_eq!(gadget_root_string(), ROOT);
    assert_eq!(device_path_string(0), "/dev/hidg0");
    assert_eq!(device_path_string(17), "/dev/hidg17");
    assert_eq!(udc_state_path_string("fe980000.usb"), "/sys/class/udc/fe980000.usb/state");
}

#[test]
fn teardown_of_nothing_is_nothing() {
    let entries = vec![entry("hid.usb0", true, false)];
    assert_eq!(teardown_gadget(ROOT, false, &entries, &entries), Vec::new());
}

#[test]
fn teardown_unbinds_unlinks_and_removes() {
    let config = vec![
        entry("strings", false, true),
        entry("hid.usb0", true, false),
        entry("MaxPower", false, false),
        entry("hid.usb1", true, true),
        entry("hid.usb2", false, false),
        entry("other", true, false),
    ];
    let functions = vec![
        entry("hid.usb0", false, true),
        entry("hid.usb1", false, false),
        entry("mass_storage.0", false, true),
        entry("hid.usb10", true, true),
    ];
    let ops = teardown_gadget("/g", true, &config, &functions);
    let expected = vec![
        text("/g/UDC", ""),
        FsOp::Sleep { millis: 100 },
        FsOp::RemoveFile { path: String::from("/g/configs/c.1/hid.usb0") },
        FsOp::RemoveFile { path: String::from("/g/configs/c.1/hid.usb1") },
        FsOp::RemoveDirAll { path: String::from("/g/configs/c.1") },
        FsOp::RemoveDirAll { path: String::from("/g/functions/hid.usb0") },
        FsOp::RemoveDirAll { path: String::from("/g/functions/hid.usb10") },
        FsOp::RemoveDirAll { path: String::from("/g/strings/0x409") },
        FsOp::RemoveDirAll { path: String::from("/g") },
    ];
    assert_eq!(ops, expected);
}

#[test]
fn second_teardown_finds_nothing_to_do() {
    let config = vec![entry("hid.usb0", true, false)];
    let functions = vec![entry("hid.usb0", false, true)];
    let first = teardown_gadget(ROOT, true, &config, &functions);
    assert_eq!(first.last(), Some(&FsOp::RemoveDirAll { path: String::from(ROOT) }));
    let second = teardown_gadget(ROOT, false, &Vec::new(), &Vec::new());
    assert!(second.is_empty());
}

#[test]
fn emergency_cleanup_releases_keys_then_tears_down() {
    assert_eq!(RELEASE_REPORT_LEN, 64);
    let config = vec![entry("hid.usb0", true, false), entry("hid.usb1", true, false)];
    let functions = vec![entry("hid.usb0", false, true), entry("hid.usb1", false, true)];
    let ops = cleanup_gadget_emergency(true, &config, &functions);
    assert_eq!(ops.len(), 2 + 9);
    assert_eq!(ops[0], FsOp::WriteDevice { path: String::from("/dev/hidg0"), data: vec![0u8; 64] });
    assert_eq!(ops[1], FsOp::WriteDevice { path: String::from("/dev/hidg1"), data: vec![0u8; 64] });
    assert_eq!(&ops[2..], &teardown_gadget(ROOT, true, &config, &functions)[..]);
    assert_eq!(ops[2], text("/sys/kernel/config/usb_gadget/hid_proxy/UDC", ""));
    assert_eq!(ops[10], FsOp::RemoveDirAll { path: String::from(ROOT) });
}

#[test]
fn emergency_cleanup_without_gadget_does_nothing() {
    let functions = vec![entry("hid.usb0", false, true)];
    assert_eq!(cleanup_gadget_emergency(false, &Vec::new(), &functions), Vec::new());
}

#[test]
fn controller_is_the_first_named_entry() {
    let named = |n: &str| UdcEntry::Named(String::from(n));
    assert_eq!(find_udc_controller(&vec![named("a.usb"), named("b.usb")]), Ok(String::from("a.usb")));
    assert_eq!(
        find_udc_controller(&vec![UdcEntry::Unnamed, named("b.usb"), UdcEntry::Unreadable]),
        Ok(String::from("b.usb"))
    );
    assert_eq!(find_udc_controller(&Vec::new()), Err(GadgetError::NoController));
    assert_eq!(
        find_udc_controller(&vec![UdcEntry::Unnamed, UdcEntry::Unnamed]),
        Err(GadgetError::NoController)
    );
    assert_eq!(
        find_udc_controller(&vec![UdcEntry::Unnamed, UdcEntry::Unreadable, named("b.usb")]),
        Err(GadgetError::ListingFailed)
    );
}

#[test]
fn configured_state_is_recognised_around_white_space() {
    assert!(state_is_configured("configured"));
    assert!(state_is_configured("configured\n"));
    assert!(state_is_configured("  configured \r\n"));
    assert!(!state_is_configured("not attached\n"));
    assert!(!state_is_configured("configured x"));
    assert!(!state_is_configured("Configured"));
    assert!(!state_is_configured("configure"));
    assert!(!state_is_configured(""));
}

#[test]
fn awaiting_host_is_announced_once() {
    assert_eq!(HOST_POLL_MILLIS, 500);
    let mut wait = HostWait::new();
    assert_eq!(wait_for_host_connection(&mut wait, None), WaitStep::Waiting { announce: false });
    assert_eq!(
        wait_for_host_connection(&mut wait, Some("not attached\n")),
        WaitStep::Waiting { announce: true }
    );
    assert_eq!(
        wait_for_host_connection(&mut wait, Some("default\n")),
        WaitStep::Waiting { announce: false }
    );
    assert_eq!(wait_for_host_connection(&mut wait, None), WaitStep::Waiting { announce: false });
    assert_eq!(wait_for_host_connection(&mut wait, Some("configured\n")), WaitStep::Connected);
    assert!(wait.announced);
    let mut direct = HostWait::new();
    assert_eq!(wait_for_host_connection(&mut direct, Some("configured")), WaitStep::Connected);
    assert!(!direct.announced);
}

#[test]
fn build_removes_the_old_gadget_creates_the_tree_and_binds() {
    let d = device(vec![interface(0, 1, 8, vec![5, 1])]);
    let requests = vec![VirtualDeviceType::Mouse];
    let config = vec![entry("hid.usb0", true, false)];
    let functions = vec![entry("hid.usb0", false, true)];
    let controllers = vec![UdcEntry::Unnamed, UdcEntry::Named(String::from("fe980000.usb"))];
    let b = create_gadget(&d, &requests, true, &config, &functions, &controllers);
    assert_eq!(b.teardown, teardown_gadget(ROOT, true, &config, &functions));
    let tree = gadget_tree(&d, &requests);
    assert_eq!(b.build.len(), tree.ops.len() + 1);
    assert_eq!(&b.build[..tree.ops.len()], &tree.ops[..]);
    assert_eq!(
        b.build.last(),
        Some(&text("/sys/kernel/config/usb_gadget/hid_proxy/UDC", "fe980000.usb"))
    );
    assert_eq!(b.outcome, Ok(vec![String::from("/dev/hidg0"), String::from("/dev/hidg1")]));
}

#[test]
fn build_without_prior_gadget_has_nothing_to_remove() {
    let d = device(vec![interface(0, 1, 8, vec![5, 1])]);
    let controllers = vec![UdcEntry::Named(String::from("dummy_udc.0"))];
    let b = create_gadget(&d, &Vec::new(), false, &Vec::new(), &Vec::new(), &controllers);
    assert!(b.teardown.is_empty());
    assert_eq!(b.build.len(), 13 + 6 + 1);
    assert_eq!(b.outcome, Ok(vec![String::from("/dev/hidg0")]));
}

#[test]
fn build_without_controller_creates_the_tree_and_fails() {
    let d = device(vec![interface(0, 1, 8, vec![5, 1])]);
    let tree = gadget_tree(&d, &Vec::new());
    let none = create_gadget(&d, &Vec::new(), false, &Vec::new(), &Vec::new(), &Vec::new());
    assert_eq!(
        none,
        GadgetBuild { teardown: Vec::new(), build: tree.ops, outcome: Err(GadgetError::NoController) }
    );
    let broken = vec![UdcEntry::Unreadable, UdcEntry::Named(String::from("x"))];
    let failed = create_gadget(&d, &Vec::new(), false, &Vec::new(), &Vec::new(), &broken);
    assert_eq!(failed.outcome, Err(GadgetError::ListingFailed));
    assert_eq!(failed.build.len(), 13 + 6);
}
