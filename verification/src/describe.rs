//! Devices in words: the summary of an interface and of a compound device,
//! and the table from which the user picks a device.

use crate::device::{
    compound_views, id_string, id_text, opt_text, CompoundHIDevice, CompoundHIDeviceView, HIDevice,
    HIDeviceView,
};
use crate::gadget::text_or;
use crate::text::{
    decimal_padded, decimal_string, decimal_text, hex_text, left_aligned, push_decimal, push_hex,
    push_left_aligned,
};
use vstd::prelude::*;
use vstd::string::StringExecFns;

verus! {

/// A label, a value and a line feed.
pub open spec fn labelled(label: Seq<char>, value: Seq<char>) -> Seq<char> {
    label + value + "\n"@
}

/// A BCD version as `major.minor`: the high byte in hexadecimal, a dot, the
/// low byte in two hexadecimal digits.
pub open spec fn version_text(bcd: u16) -> Seq<char> {
    hex_text((bcd >> 8) as nat, 0) + "."@ + hex_text((bcd & 0xFF) as nat, 2)
}

/// An endpoint address as `0x` and two hexadecimal digits.
pub open spec fn endpoint_text(address: u8) -> Seq<char> {
    "0x"@ + hex_text(address as nat, 2)
}

/// Bus and address in three decimal digits each, with `between` in between.
pub open spec fn place_text(bus: u8, between: Seq<char>, address: u8) -> Seq<char> {
    decimal_padded(bus as nat, 3) + between + decimal_padded(address as nat, 3)
}

/// The name of a boot protocol.
pub open spec fn protocol_name(protocol: u8) -> Seq<char> {
    if protocol == 1 {
        "Keyboard"@
    } else if protocol == 2 {
        "Mouse"@
    } else {
        "Generic HID"@
    }
}

/// The summary of one interface.
pub open spec fn interface_text(h: HIDeviceView) -> Seq<char> {
    "\n=== HID Device Info [Bus "@ + place_text(h.bus, " Address "@, h.address) + "] ===\n"@
        + labelled("ID:             "@, id_text(h.vendor_id, h.product_id)) + labelled(
        "Manufacturer:   "@,
        text_or(h.manufacturer, "N/A"@),
    ) + labelled("Product:        "@, text_or(h.product, "N/A"@)) + labelled(
        "Serial:         "@,
        text_or(h.serial_number, "N/A"@),
    ) + labelled("Config:         "@, text_or(h.configuration, "N/A"@))
        + "---------------------------------------------\n"@ + labelled(
        "USB Version:    "@,
        version_text(h.bcd_usb),
    ) + labelled("Device Version: "@, version_text(h.bcd_device)) + labelled(
        "Max Power:      "@,
        decimal_text(h.max_power as nat) + " mA"@,
    ) + "---------------------------------------------\n"@ + labelled(
        "Interface:      "@,
        decimal_text(h.interface_num as nat),
    ) + labelled("Protocol:       "@, decimal_text(h.protocol as nat)) + labelled(
        "Subclass:       "@,
        decimal_text(h.subclass as nat),
    ) + labelled("Report Len:     "@, decimal_text(h.report_len as nat)) + labelled(
        "Endpoint IN:    "@,
        endpoint_text(h.endpoint_in),
    ) + labelled(
        "Endpoint OUT:   "@,
        match h.endpoint_out {
            Some(e) => endpoint_text(e),
            None => "None"@,
        },
    ) + "============================================="@
}

/// The line of interface `i` in the summary of a compound device.
pub open spec fn interface_line(i: nat, h: HIDeviceView) -> Seq<char> {
    "  ["@ + decimal_text(i) + "] Interface "@ + decimal_text(h.interface_num as nat)
        + ", Protocol: "@ + protocol_name(h.protocol) + "\n"@
}

/// The lines of the first `count` interfaces.
pub open spec fn interface_lines(interfaces: Seq<HIDeviceView>, count: nat) -> Seq<char>
    decreases count,
{
    if count == 0 {
        Seq::empty()
    } else {
        interface_lines(interfaces, (count - 1) as nat) + interface_line(
            (count - 1) as nat,
            interfaces[count - 1],
        )
    }
}

/// The summary of a compound device.
pub open spec fn compound_text(d: CompoundHIDeviceView) -> Seq<char> {
    "\n=== Compound HID Device [Bus "@ + place_text(d.bus, " Address "@, d.address) + "] ===\n"@
        + labelled("ID:             "@, id_text(d.vendor_id, d.product_id)) + labelled(
        "Manufacturer:   "@,
        text_or(d.manufacturer, "N/A"@),
    ) + labelled("Product:        "@, text_or(d.product, "N/A"@)) + labelled(
        "Serial:         "@,
        text_or(d.serial_number, "N/A"@),
    ) + labelled("Interfaces:     "@, decimal_text(d.interfaces.len())) + interface_lines(
        d.interfaces,
        d.interfaces.len(),
    ) + "================================================="@
}

/// The row of candidate `i` in the selection table.
pub open spec fn table_row(i: nat, d: CompoundHIDeviceView) -> Seq<char> {
    left_aligned(decimal_text(i), 5) + " | "@ + left_aligned(
        id_text(d.vendor_id, d.product_id),
        13,
    ) + " | "@ + place_text(d.bus, ":"@, d.address) + "    | "@ + left_aligned(
        decimal_text(d.interfaces.len()),
        10,
    ) + " | "@ + text_or(d.product, "Unknown"@) + "\n"@
}

/// The rows of the first `count` candidates.
pub open spec fn table_rows(candidates: Seq<CompoundHIDeviceView>, count: nat) -> Seq<char>
    decreases count,
{
    if count == 0 {
        Seq::empty()
    } else {
        table_rows(candidates, (count - 1) as nat) + table_row(
            (count - 1) as nat,
            candidates[count - 1],
        )
    }
}

/// The selection table: how many devices there are, the column heads, a
/// rule, one row per candidate, and the prompt.
pub open spec fn table_text(candidates: Seq<CompoundHIDeviceView>) -> Seq<char> {
    "found "@ + decimal_text(candidates.len()) + " devices. Please select one:\n"@
        + "IDX   | ID            | BUS:ADDR   | INTERFACES | PRODUCT\n"@
        + "------+---------------+------------+--------------+---------------------\n"@
        + table_rows(candidates, candidates.len()) + "\n> select a device index [e.g., 0]: "@
}

fn push_labelled(out: &mut String, label: &str, value: &str)
    ensures
        final(out)@ == old(out)@ + labelled(label@, value@),
{
    let ghost before = out@;
    out.append(label);
    out.append(value);
    out.append("\n");
    assert(out@ =~= before + labelled(label@, value@));
}

fn push_text_or(out: &mut String, label: &str, value: &Option<String>, fallback: &str)
    ensures
        final(out)@ == old(out)@ + labelled(label@, text_or(opt_text(*value), fallback@)),
{
    match value {
        Some(text) => push_labelled(out, label, text.as_str()),
        None => push_labelled(out, label, fallback),
    }
}

fn push_number_line(out: &mut String, label: &str, value: u64)
    ensures
        final(out)@ == old(out)@ + labelled(label@, decimal_text(value as nat)),
{
    let text = decimal_string(value);
    push_labelled(out, label, text.as_str());
}

fn push_place(out: &mut String, bus: u8, between: &str, address: u8)
    ensures
        final(out)@ == old(out)@ + place_text(bus, between@, address),
{
    let ghost before = out@;
    push_decimal(out, bus as u64, 3);
    out.append(between);
    push_decimal(out, address as u64, 3);
    assert(out@ =~= before + place_text(bus, between@, address));
}

fn version_string(bcd: u16) -> (s: String)
    ensures
        s@ == version_text(bcd),
{
    let mut s = String::new();
    push_hex(&mut s, (bcd >> 8) as u64, 0);
    s.append(".");
    push_hex(&mut s, (bcd & 0xFF) as u64, 2);
    assert(s@ =~= version_text(bcd));
    s
}

fn endpoint_string(address: u8) -> (s: String)
    ensures
        s@ == endpoint_text(address),
{
    let mut s = String::from_str("0x");
    push_hex(&mut s, address as u64, 2);
    s
}

fn protocol_name_str(protocol: u8) -> (s: &'static str)
    ensures
        s@ == protocol_name(protocol),
{
    if protocol == 1 {
        "Keyboard"
    } else if protocol == 2 {
        "Mouse"
    } else {
        "Generic HID"
    }
}

impl HIDevice {
    /// The summary of this interface, for the log.
    pub fn describe(&self) -> (s: String)
        ensures
            s@ == interface_text(self@),
    {
        let mut s = String::from_str("\n=== HID Device Info [Bus ");
        push_place(&mut s, self.bus, " Address ", self.address);
        s.append("] ===\n");
        let id = id_string(self.vendor_id, self.product_id);
        push_labelled(&mut s, "ID:             ", id.as_str());
        push_text_or(&mut s, "Manufacturer:   ", &self.manufacturer, "N/A");
        push_text_or(&mut s, "Product:        ", &self.product, "N/A");
        push_text_or(&mut s, "Serial:         ", &self.serial_number, "N/A");
        push_text_or(&mut s, "Config:         ", &self.configuration, "N/A");
        s.append("---------------------------------------------\n");
        let usb = version_string(self.bcd_usb);
        push_labelled(&mut s, "USB Version:    ", usb.as_str());
        let dev = version_string(self.bcd_device);
        push_labelled(&mut s, "Device Version: ", dev.as_str());
        let mut power = decimal_string(self.max_power as u64);
        power.append(" mA");
        push_labelled(&mut s, "Max Power:      ", power.as_str());
        s.append("---------------------------------------------\n");
        push_number_line(&mut s, "Interface:      ", self.interface_num as u64);
        push_number_line(&mut s, "Protocol:       ", self.protocol as u64);
        push_number_line(&mut s, "Subclass:       ", self.subclass as u64);
        push_number_line(&mut s, "Report Len:     ", self.report_len as u64);
        let ep_in = endpoint_string(self.endpoint_in);
        push_labelled(&mut s, "Endpoint IN:    ", ep_in.as_str());
        match self.endpoint_out {
            Some(e) => {
                let ep_out = endpoint_string(e);
                push_labelled(&mut s, "Endpoint OUT:   ", ep_out.as_str());
            },
            None => {
                push_labelled(&mut s, "Endpoint OUT:   ", "None");
            },
        }
        s.append("=============================================");
        assert(s@ =~= interface_text(self@));
        s
    }
}

impl CompoundHIDevice {
    /// The summary of this device, for the log.
    pub fn describe(&self) -> (s: String)
        ensures
            s@ == compound_text(self@),
    {
        let mut s = String::from_str("\n=== Compound HID Device [Bus ");
        push_place(&mut s, self.bus, " Address ", self.address);
        s.append("] ===\n");
        let id = id_string(self.vendor_id, self.product_id);
        push_labelled(&mut s, "ID:             ", id.as_str());
        push_text_or(&mut s, "Manufacturer:   ", &self.manufacturer, "N/A");
        push_text_or(&mut s, "Product:        ", &self.product, "N/A");
        push_text_or(&mut s, "Serial:         ", &self.serial_number, "N/A");
        push_number_line(&mut s, "Interfaces:     ", self.interfaces.len() as u64);
        let ghost head = s@;
        let mut i: usize = 0;
        assert(s@ =~= head + interface_lines(self@.interfaces, 0));
        while i < self.interfaces.len()
            invariant
                i <= self.interfaces.len(),
                s@ == head + interface_lines(self@.interfaces, i as nat),
            decreases self.interfaces.len() - i,
        {
            let h = &self.interfaces[i];
            assert(self@.interfaces[i as int] == h@);
            let ghost before = s@;
            s.append("  [");
            let index = decimal_string(i as u64);
            s.append(index.as_str());
            s.append("] Interface ");
            let number = decimal_string(h.interface_num as u64);
            s.append(number.as_str());
            s.append(", Protocol: ");
            s.append(protocol_name_str(h.protocol));
            s.append("\n");
            assert(s@ =~= before + interface_line(i as nat, h@));
            i = i + 1;
            assert(s@ =~= head + interface_lines(self@.interfaces, i as nat));
        }
        s.append("=================================================");
        assert(s@ =~= compound_text(self@));
        s
    }
}

fn push_table_row(out: &mut String, i: usize, d: &CompoundHIDevice)
    ensures
        final(out)@ == old(out)@ + table_row(i as nat, d@),
{
    let ghost before = out@;
    let index = decimal_string(i as u64);
    push_left_aligned(out, index.as_str(), 5);
    out.append(" | ");
    let id = id_string(d.vendor_id, d.product_id);
    push_left_aligned(out, id.as_str(), 13);
    out.append(" | ");
    push_place(out, d.bus, ":", d.address);
    out.append("    | ");
    let count = decimal_string(d.interfaces.len() as u64);
    push_left_aligned(out, count.as_str(), 10);
    out.append(" | ");
    match &d.product {
        Some(name) => out.append(name.as_str()),
        None => out.append("Unknown"),
    }
    out.append("\n");
    assert(out@ =~= before + table_row(i as nat, d@));
}

/// The table of candidates and the prompt that asks the user for one.
pub fn selection_table(candidates: &Vec<CompoundHIDevice>) -> (s: String)
    ensures
        s@ == table_text(compound_views(candidates@)),
{
    let ghost views = compound_views(candidates@);
    let mut s = String::from_str("found ");
    let count = decimal_string(candidates.len() as u64);
    s.append(count.as_str());
    s.append(" devices. Please select one:\n");
    s.append("IDX   | ID            | BUS:ADDR   | INTERFACES | PRODUCT\n");
    s.append("------+---------------+------------+--------------+---------------------\n");
    let ghost head = s@;
    let mut i: usize = 0;
    assert(s@ =~= head + table_rows(views, 0));
    while i < candidates.len()
        invariant
            i <= candidates.len(),
            views == compound_views(candidates@),
            s@ == head + table_rows(views, i as nat),
        decreases candidates.len() - i,
    {
        assert(views[i as int] == candidates[i as int]@);
        push_table_row(&mut s, i, &candidates[i]);
        i = i + 1;
        assert(s@ =~= head + table_rows(views, i as nat));
    }
    s.append("\n> select a device index [e.g., 0]: ");
    assert(s@ =~= table_text(views));
    s
}

} // verus!
