use hid_proxy::describe::selection_table;
use hid_proxy::device::{CompoundHIDevice, HIDevice};

fn interface(number: u8, protocol: u8, endpoint_out: Option<u8>) -> HIDevice {
    HIDevice {
        vendor_id: 0x046d,
        product_id: 0xc52b,
        manufacturer: Some(String::from("Logitech")),
        product: Some(String::from("USB Receiver")),
        serial_number: None,
        configuration: Some(String::from("RQR12.11_B0032")),
        bcd_usb: 0x0200,
        bcd_device: 0x1211,
        bus: 1,
        address: 12,
        interface_num: number,
        protocol,
        subclass: 1,
        max_power: 196,
        report_len: 8,
        endpoint_in: 0x81 + number,
        endpoint_out,
        report_descriptor: vec![5, 1],
    }
}

fn device(interfaces: Vec<HIDevice>, product: Option<&str>) -> CompoundHIDevice {
    CompoundHIDevice {
        vendor_id: 0x046d,
        product_id: 0xc52b,
        manufacturer: Some(String::from("Logitech")),
        product: product.map(String::from),
        serial_number: None,
        bus: 1,
        address: 12,
        interfaces,
    }
}

#[test]
fn interface_summary() {
    let h = interface(2, 1, None);
    let expected = format!(
        "\n=== HID Device Info [Bus {:03} Address {:03}] ===\n\
         ID:             {:04x}:{:04x}\n\
         Manufacturer:   Logitech\n\
         Product:        USB Receiver\n\
         Serial:         N/A\n\
         Config:         RQR12.11_B0032\n\
         ---------------------------------------------\n\
         USB Version:    {:x}.{:02x}\n\
         Device Version: {:x}.{:02x}\n\
         Max Power:      196 mA\n\
         ---------------------------------------------\n\
         Interface:      2\n\
         Protocol:       1\n\
         Subclass:       1\n\
         Report Len:     8\n\
         Endpoint IN:    0x{:02x}\n\
         Endpoint OUT:   None\n\
         =============================================",
        1, 12, 0x046d, 0xc52b, 2, 0, 0x12, 0x11, 0x83
    );
    assert_eq!(h.describe(), expected);
    assert!(h.describe().contains("USB Version:    2.00\n"));
    assert!(h.describe().contains("Device Version: 12.11\n"));
    assert!(h.describe().starts_with("\n=== HID Device Info [Bus 001 Address 012] ===\n"));
}

#[test]
fn interface_summary_shows_the_out_endpoint() {
    let h = interface(0, 2, Some(0x02));
    assert!(h.describe().contains("Endpoint IN:    0x81\nEndpoint OUT:   0x02\n====="));
}

#[test]
fn compound_summary() {
    let d = device(vec![interface(0, 1, None), interface(1, 2, None), interface(2, 0, None)], None);
    let expected = "\n=== Compound HID Device [Bus 001 Address 012] ===\n\
                    ID:             046d:c52b\n\
                    Manufacturer:   Logitech\n\
                    Product:        N/A\n\
                    Serial:         N/A\n\
                    Interfaces:     3\n  \
                    [0] Interface 0, Protocol: Keyboard\n  \
                    [1] Interface 1, Protocol: Mouse\n  \
                    [2] Interface 2, Protocol: Generic HID\n\
                    =================================================";
    assert_eq!(d.describe(), expected);
}

#[test]
fn compound_summary_without_interfaces() {
    let d = device(Vec::new(), Some("X"));
    assert!(d.describe().ends_with(
        "Product:        X\nSerial:         N/A\nInterfaces:     0\n================================================="
    ));
}

#[test]
fn selection_table_has_a_row_per_candidate() {
    let candidates = vec![
        device(vec![interface(0, 1, None), interface(1, 2, None)], Some("USB Receiver")),
        device(Vec::new(), None),
    ];
    let header = format!(
        "{:<5} | {:<13} | {:<10} | {:<10} | {}",
        "IDX", "ID", "BUS:ADDR", "INTERFACES", "PRODUCT"
    );
    let rule = format!("{:-<5}-+-{:-<13}-+-{:-<10}-+-{:-<12}-+-{:-<20}", "", "", "", "", "");
    let row = |i: usize, n: usize, product: &str| {
        format!(
            "{:<5} | {:<13} | {:03}:{:03}    | {:<10} | {}",
            i, "046d:c52b", 1, 12, n, product
        )
    };
    let expected = format!(
        "found 2 devices. Please select one:\n{header}\n{rule}\n{}\n{}\n\n> select a device index [e.g., 0]: ",
        row(0, 2, "USB Receiver"),
        row(1, 0, "Unknown"),
    );
    assert_eq!(selection_table(&candidates), expected);
}

#[test]
fn selection_table_of_nothing() {
    assert_eq!(
        selection_table(&Vec::new()),
        "found 0 devices. Please select one:\n\
         IDX   | ID            | BUS:ADDR   | INTERFACES | PRODUCT\n\
         ------+---------------+------------+--------------+---------------------\n\
         \n> select a device index [e.g., 0]: "
    );
}
