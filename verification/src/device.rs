//! Physical HID devices: what is known of one HID interface, how interfaces
//! group into a compound device, and how both are harvested from the raw USB
//! descriptors of a bus scan.

use crate::text::{chars_of, digit_char, digits, hex_text, push_hex, significant_digits};
use vstd::prelude::*;
use vstd::string::StringExecFns;

verus! {

/// USB class code of Human Interface Devices.
pub const HID_CLASS: u8 = 0x03;

/// Report length assumed where the endpoint announces a packet size of zero.
pub const DEFAULT_REPORT_LEN: u16 = 64;

/// The characters of an optional string.
pub open spec fn opt_text(o: Option<String>) -> Option<Seq<char>> {
    match o {
        Some(s) => Some(s@),
        None => None,
    }
}

/// A copy of an optional string.
pub fn clone_opt_text(o: &Option<String>) -> (r: Option<String>)
    ensures
        opt_text(r) == opt_text(*o),
{
    match o {
        Some(s) => Some(s.clone()),
        None => None,
    }
}

// ---------------------------------------------------------------------------
// One HID interface
// ---------------------------------------------------------------------------

/// One HID interface of a physical device, with everything needed to mirror it.
#[derive(Debug, PartialEq, Eq)]
pub struct HIDevice {
    pub vendor_id: u16,
    pub product_id: u16,
    pub manufacturer: Option<String>,
    pub product: Option<String>,
    pub serial_number: Option<String>,
    pub configuration: Option<String>,
    pub bcd_usb: u16,
    pub bcd_device: u16,
    pub bus: u8,
    pub address: u8,
    pub interface_num: u8,
    pub protocol: u8,
    pub subclass: u8,
    pub max_power: u16,
    pub report_len: u16,
    pub endpoint_in: u8,
    pub endpoint_out: Option<u8>,
    pub report_descriptor: Vec<u8>,
}

/// Mathematical content of a [`HIDevice`].
pub ghost struct HIDeviceView {
    pub vendor_id: u16,
    pub product_id: u16,
    pub manufacturer: Option<Seq<char>>,
    pub product: Option<Seq<char>>,
    pub serial_number: Option<Seq<char>>,
    pub configuration: Option<Seq<char>>,
    pub bcd_usb: u16,
    pub bcd_device: u16,
    pub bus: u8,
    pub address: u8,
    pub interface_num: u8,
    pub protocol: u8,
    pub subclass: u8,
    pub max_power: u16,
    pub report_len: u16,
    pub endpoint_in: u8,
    pub endpoint_out: Option<u8>,
    pub report_descriptor: Seq<u8>,
}

impl View for HIDevice {
    type V = HIDeviceView;

    open spec fn view(&self) -> HIDeviceView {
        HIDeviceView {
            vendor_id: self.vendor_id,
            product_id: self.product_id,
            manufacturer: opt_text(self.manufacturer),
            product: opt_text(self.product),
            serial_number: opt_text(self.serial_number),
            configuration: opt_text(self.configuration),
            bcd_usb: self.bcd_usb,
            bcd_device: self.bcd_device,
            bus: self.bus,
            address: self.address,
            interface_num: self.interface_num,
            protocol: self.protocol,
            subclass: self.subclass,
            max_power: self.max_power,
            report_len: self.report_len,
            endpoint_in: self.endpoint_in,
            endpoint_out: self.endpoint_out,
            report_descriptor: self.report_descriptor@,
        }
    }
}

/// Whether an endpoint address names a device-to-host endpoint: bit 7 is set.
pub open spec fn is_in_address(address: u8) -> bool {
    address & 0x80 != 0
}

impl HIDeviceView {
    /// What holds of every interface that a bus scan surfaces: it has an
    /// interrupt IN endpoint, a report descriptor, and a positive report
    /// length.
    pub open spec fn usable(self) -> bool {
        &&& is_in_address(self.endpoint_in)
        &&& self.report_descriptor.len() > 0
        &&& self.report_len > 0
    }
}

impl Clone for HIDevice {
    fn clone(&self) -> (r: Self)
        ensures
            r@ == self@,
    {
        let report_descriptor = self.report_descriptor.clone();
        assert(report_descriptor@ =~= self.report_descriptor@);
        HIDevice {
            vendor_id: self.vendor_id,
            product_id: self.product_id,
            manufacturer: clone_opt_text(&self.manufacturer),
            product: clone_opt_text(&self.product),
            serial_number: clone_opt_text(&self.serial_number),
            configuration: clone_opt_text(&self.configuration),
            bcd_usb: self.bcd_usb,
            bcd_device: self.bcd_device,
            bus: self.bus,
            address: self.address,
            interface_num: self.interface_num,
            protocol: self.protocol,
            subclass: self.subclass,
            max_power: self.max_power,
            report_len: self.report_len,
            endpoint_in: self.endpoint_in,
            endpoint_out: self.endpoint_out,
            report_descriptor,
        }
    }
}

impl HIDevice {
    /// Boot protocol 1 is a keyboard.
    pub fn is_keyboard(&self) -> (b: bool)
        ensures
            b == (self.protocol == 1),
    {
        self.protocol == 1
    }

    /// Boot protocol 2 is a mouse.
    pub fn is_mouse(&self) -> (b: bool)
        ensures
            b == (self.protocol == 2),
    {
        self.protocol == 2
    }
}

// ---------------------------------------------------------------------------
// A compound device
// ---------------------------------------------------------------------------

/// A physical device: its identity and the HID interfaces found on it.
#[derive(Debug, PartialEq, Eq)]
pub struct CompoundHIDevice {
    pub vendor_id: u16,
    pub product_id: u16,
    pub manufacturer: Option<String>,
    pub product: Option<String>,
    pub serial_number: Option<String>,
    pub bus: u8,
    pub address: u8,
    pub interfaces: Vec<HIDevice>,
}

/// Mathematical content of a [`CompoundHIDevice`].
pub ghost struct CompoundHIDeviceView {
    pub vendor_id: u16,
    pub product_id: u16,
    pub manufacturer: Option<Seq<char>>,
    pub product: Option<Seq<char>>,
    pub serial_number: Option<Seq<char>>,
    pub bus: u8,
    pub address: u8,
    pub interfaces: Seq<HIDeviceView>,
}

/// The views of a list of interfaces.
pub open spec fn interface_views(v: Seq<HIDevice>) -> Seq<HIDeviceView> {
    Seq::new(v.len(), |i: int| v[i]@)
}

impl View for CompoundHIDevice {
    type V = CompoundHIDeviceView;

    open spec fn view(&self) -> CompoundHIDeviceView {
        CompoundHIDeviceView {
            vendor_id: self.vendor_id,
            product_id: self.product_id,
            manufacturer: opt_text(self.manufacturer),
            product: opt_text(self.product),
            serial_number: opt_text(self.serial_number),
            bus: self.bus,
            address: self.address,
            interfaces: interface_views(self.interfaces@),
        }
    }
}

/// The views of a list of compound devices.
pub open spec fn compound_views(v: Seq<CompoundHIDevice>) -> Seq<CompoundHIDeviceView> {
    Seq::new(v.len(), |i: int| v[i]@)
}

/// A device id as users write it: four hexadecimal digits of the vendor, a
/// colon, four of the product.
pub open spec fn id_text(vendor_id: u16, product_id: u16) -> Seq<char> {
    hex_text(vendor_id as nat, 4) + seq![':'] + hex_text(product_id as nat, 4)
}

/// The lower-case form of an ASCII capital; any other character unchanged.
pub open spec fn ascii_lower(c: char) -> char {
    if 'A' <= c <= 'Z' {
        ((c as u8) + 32) as char
    } else {
        c
    }
}

/// `s` with every ASCII capital replaced by its lower-case form.
pub open spec fn lower_text(s: Seq<char>) -> Seq<char> {
    Seq::new(s.len(), |i: int| ascii_lower(s[i]))
}

fn to_ascii_lower(c: char) -> (r: char)
    ensures
        r == ascii_lower(c),
{
    if 'A' <= c && c <= 'Z' {
        ((c as u8) + 32) as char
    } else {
        c
    }
}

/// The id of a device, written as [`id_text`] says.
pub fn id_string(vendor_id: u16, product_id: u16) -> (s: String)
    ensures
        s@ == id_text(vendor_id, product_id),
{
    let mut s = String::new();
    push_hex(&mut s, vendor_id as u64, 4);
    proof {
        reveal_strlit(":");
    }
    s.append(":");
    push_hex(&mut s, product_id as u64, 4);
    assert(s@ =~= id_text(vendor_id, product_id));
    s
}

impl Clone for CompoundHIDevice {
    fn clone(&self) -> (r: Self)
        ensures
            r@ == self@,
    {
        let mut interfaces: Vec<HIDevice> = Vec::new();
        let mut i: usize = 0;
        while i < self.interfaces.len()
            invariant
                i <= self.interfaces.len(),
                interfaces.len() == i,
                forall|k: int| 0 <= k < i ==> interfaces[k]@ == self.interfaces[k]@,
            decreases self.interfaces.len() - i,
        {
            interfaces.push(self.interfaces[i].clone());
            i = i + 1;
        }
        assert(interface_views(interfaces@) =~= interface_views(self.interfaces@));
        CompoundHIDevice {
            vendor_id: self.vendor_id,
            product_id: self.product_id,
            manufacturer: clone_opt_text(&self.manufacturer),
            product: clone_opt_text(&self.product),
            serial_number: clone_opt_text(&self.serial_number),
            bus: self.bus,
            address: self.address,
            interfaces,
        }
    }
}

impl CompoundHIDevice {
    /// Whether `target` names this device: compared without regard to the
    /// case of its letters, it is this device's id.
    pub fn matches(&self, target: &str) -> (b: bool)
        ensures
            b == (lower_text(target@) == id_text(self.vendor_id, self.product_id)),
    {
        let id = id_string(self.vendor_id, self.product_id);
        let want = chars_of(id.as_str());
        let given = chars_of(target);
        if given.len() != want.len() {
            assert(lower_text(target@).len() != id_text(self.vendor_id, self.product_id).len());
            return false;
        }
        let mut i: usize = 0;
        while i < given.len()
            invariant
                i <= given.len(),
                given.len() == want.len(),
                given@ == target@,
                want@ == id_text(self.vendor_id, self.product_id),
                forall|k: int| 0 <= k < i ==> ascii_lower(given[k]) == want[k],
            decreases given.len() - i,
        {
            if to_ascii_lower(given[i]) != want[i] {
                assert(lower_text(target@)[i as int] != id_text(
                    self.vendor_id,
                    self.product_id,
                )[i as int]);
                return false;
            }
            i = i + 1;
        }
        assert(lower_text(target@) =~= id_text(self.vendor_id, self.product_id));
        true
    }
}

/// No hexadecimal digit of a number is an ASCII capital.
pub proof fn hex_digits_are_lower_case(n: nat)
    ensures
        forall|i: int|
            0 <= i < significant_digits(n, 16).len() ==> ascii_lower(
                #[trigger] significant_digits(n, 16)[i],
            ) == significant_digits(n, 16)[i],
    decreases n,
{
    if n > 0 {
        let head = significant_digits(n / 16, 16);
        let all = significant_digits(n, 16);
        hex_digits_are_lower_case(n / 16);
        let d = (n % 16) as int;
        assert(all == head.push(digit_char(d)));
        assert(ascii_lower(digit_char(d)) == digit_char(d));
        assert forall|i: int| 0 <= i < all.len() implies ascii_lower(#[trigger] all[i])
            == all[i] by {
            if i < head.len() {
                assert(all[i] == head[i]);
            }
        }
    }
}

/// A device is named by its own id as [`id_text`] writes it: the id holds no
/// capital, so it is what it is compared with.
pub proof fn device_is_named_by_its_id(vendor_id: u16, product_id: u16)
    ensures
        lower_text(id_text(vendor_id, product_id)) == id_text(vendor_id, product_id),
{
    let id = id_text(vendor_id, product_id);
    hex_digits_are_lower_case(vendor_id as nat);
    hex_digits_are_lower_case(product_id as nat);
    let v = hex_text(vendor_id as nat, 4);
    let p = hex_text(product_id as nat, 4);
    assert forall|i: int| 0 <= i < v.len() implies ascii_lower(#[trigger] v[i]) == v[i] by {
        let body = digits(vendor_id as nat, 16);
        if body.len() < 4 && i < 4 - body.len() {
            assert(v[i] == '0');
        } else if body.len() < 4 {
            assert(v[i] == body[i - (4 - body.len())]);
        }
    }
    assert forall|i: int| 0 <= i < p.len() implies ascii_lower(#[trigger] p[i]) == p[i] by {
        let body = digits(product_id as nat, 16);
        if body.len() < 4 && i < 4 - body.len() {
            assert(p[i] == '0');
        } else if body.len() < 4 {
            assert(p[i] == body[i - (4 - body.len())]);
        }
    }
    assert forall|i: int| 0 <= i < id.len() implies ascii_lower(#[trigger] id[i]) == id[i] by {
        if i < v.len() {
            assert(id[i] == v[i]);
        } else if i == v.len() {
            assert(id[i] == ':');
        } else {
            assert(id[i] == p[i - v.len() - 1]);
        }
    }
    assert(lower_text(id) =~= id);
}

// ---------------------------------------------------------------------------
// Harvesting
// ---------------------------------------------------------------------------

/// How an endpoint moves its data.
#[derive(Clone, Copy, Debug, PartialEq, Eq, Structural)]
pub enum TransferType {
    Control,
    Isochronous,
    Bulk,
    Interrupt,
}

/// One endpoint as its descriptor gives it.
#[derive(Clone, Copy, Debug, PartialEq, Eq)]
pub struct EndpointDescriptor {
    pub address: u8,
    pub transfer_type: TransferType,
    pub max_packet_size: u16,
}

/// The interrupt endpoints found on an interface.
#[derive(Clone, Copy, Debug, PartialEq, Eq)]
pub struct EndpointScan {
    pub endpoint_in: Option<u8>,
    pub endpoint_out: Option<u8>,
    pub max_packet_size: u16,
}

/// A three-part version as a descriptor's BCD field decodes.
#[derive(Clone, Copy, Debug, PartialEq, Eq)]
pub struct Version {
    pub major: u8,
    pub minor: u8,
    pub sub_minor: u8,
}

/// One interface of a scanned device. `report_descriptor` holds what the HID
/// report-descriptor request returned, and is empty where the request failed
/// or was not made.
#[derive(Debug, PartialEq, Eq)]
pub struct InterfaceDescriptor {
    pub interface_number: u8,
    pub class_code: u8,
    pub sub_class_code: u8,
    pub protocol_code: u8,
    pub endpoints: Vec<EndpointDescriptor>,
    pub report_descriptor: Vec<u8>,
    pub configuration: Option<String>,
}

/// Mathematical content of an [`InterfaceDescriptor`].
pub ghost struct InterfaceDescriptorView {
    pub interface_number: u8,
    pub class_code: u8,
    pub sub_class_code: u8,
    pub protocol_code: u8,
    pub endpoints: Seq<EndpointDescriptor>,
    pub report_descriptor: Seq<u8>,
    pub configuration: Option<Seq<char>>,
}

impl View for InterfaceDescriptor {
    type V = InterfaceDescriptorView;

    open spec fn view(&self) -> InterfaceDescriptorView {
        InterfaceDescriptorView {
            interface_number: self.interface_number,
            class_code: self.class_code,
            sub_class_code: self.sub_class_code,
            protocol_code: self.protocol_code,
            endpoints: self.endpoints@,
            report_descriptor: self.report_descriptor@,
            configuration: opt_text(self.configuration),
        }
    }
}

/// One device of a bus scan: what its device and configuration descriptors
/// and its string descriptors gave. `max_power` is the configuration's
/// reported value.
#[derive(Debug, PartialEq, Eq)]
pub struct UsbDevice {
    pub bus: u8,
    pub address: u8,
    pub vendor_id: u16,
    pub product_id: u16,
    pub usb_version: Version,
    pub device_version: Version,
    pub manufacturer: Option<String>,
    pub product: Option<String>,
    pub serial_number: Option<String>,
    pub max_power: u16,
    pub interfaces: Vec<InterfaceDescriptor>,
}

/// Mathematical content of a [`UsbDevice`].
pub ghost struct UsbDeviceView {
    pub bus: u8,
    pub address: u8,
    pub vendor_id: u16,
    pub product_id: u16,
    pub usb_version: Version,
    pub device_version: Version,
    pub manufacturer: Option<Seq<char>>,
    pub product: Option<Seq<char>>,
    pub serial_number: Option<Seq<char>>,
    pub max_power: u16,
    pub interfaces: Seq<InterfaceDescriptorView>,
}

/// The views of a list of interface descriptors.
pub open spec fn descriptor_views(v: Seq<InterfaceDescriptor>) -> Seq<InterfaceDescriptorView> {
    Seq::new(v.len(), |i: int| v[i]@)
}

impl View for UsbDevice {
    type V = UsbDeviceView;

    open spec fn view(&self) -> UsbDeviceView {
        UsbDeviceView {
            bus: self.bus,
            address: self.address,
            vendor_id: self.vendor_id,
            product_id: self.product_id,
            usb_version: self.usb_version,
            device_version: self.device_version,
            manufacturer: opt_text(self.manufacturer),
            product: opt_text(self.product),
            serial_number: opt_text(self.serial_number),
            max_power: self.max_power,
            interfaces: descriptor_views(self.interfaces@),
        }
    }
}

/// The views of a list of scanned devices.
pub open spec fn device_views(v: Seq<UsbDevice>) -> Seq<UsbDeviceView> {
    Seq::new(v.len(), |i: int| v[i]@)
}

/// The interrupt endpoints among `endpoints`: the last interrupt endpoint
/// with an IN address and its packet size, and the last other interrupt
/// endpoint.
pub open spec fn endpoint_scan(endpoints: Seq<EndpointDescriptor>) -> EndpointScan
    decreases endpoints.len(),
{
    if endpoints.len() == 0 {
        EndpointScan { endpoint_in: None, endpoint_out: None, max_packet_size: 0 }
    } else {
        let before = endpoint_scan(endpoints.drop_last());
        let e = endpoints.last();
        if e.transfer_type != TransferType::Interrupt {
            before
        } else if is_in_address(e.address) {
            EndpointScan {
                endpoint_in: Some(e.address),
                endpoint_out: before.endpoint_out,
                max_packet_size: e.max_packet_size,
            }
        } else {
            EndpointScan {
                endpoint_in: before.endpoint_in,
                endpoint_out: Some(e.address),
                max_packet_size: before.max_packet_size,
            }
        }
    }
}

/// The report length of an interface whose IN endpoint announces
/// `max_packet_size`: that size, or 64 where it is zero.
pub open spec fn spec_report_length(max_packet_size: u16) -> u16 {
    if max_packet_size == 0 {
        DEFAULT_REPORT_LEN
    } else {
        max_packet_size
    }
}

/// A version in packed 16-bit form: major in the high byte, then minor and
/// sub-minor in a nibble each.
pub open spec fn spec_pack_bcd(v: Version) -> u16 {
    ((v.major as u16) << 8) | ((v.minor as u16) << 4) | (v.sub_minor as u16)
}

/// Whether an interface is worth a report-descriptor request: it is of the
/// HID class and has an interrupt IN endpoint.
pub open spec fn is_hid_candidate(iface: InterfaceDescriptorView) -> bool {
    iface.class_code == HID_CLASS && endpoint_scan(iface.endpoints).endpoint_in is Some
}

/// Whether a bus scan surfaces an interface: it is a candidate and its report
/// descriptor was read.
pub open spec fn is_surfaced(iface: InterfaceDescriptorView) -> bool {
    is_hid_candidate(iface) && iface.report_descriptor.len() > 0
}

/// The interface record made from a surfaced interface of `dev`.
pub open spec fn harvested_interface(
    dev: UsbDeviceView,
    iface: InterfaceDescriptorView,
) -> HIDeviceView {
    let scan = endpoint_scan(iface.endpoints);
    HIDeviceView {
        vendor_id: dev.vendor_id,
        product_id: dev.product_id,
        manufacturer: dev.manufacturer,
        product: dev.product,
        serial_number: dev.serial_number,
        configuration: iface.configuration,
        bcd_usb: spec_pack_bcd(dev.usb_version),
        bcd_device: spec_pack_bcd(dev.device_version),
        bus: dev.bus,
        address: dev.address,
        interface_num: iface.interface_number,
        protocol: iface.protocol_code,
        subclass: iface.sub_class_code,
        max_power: (dev.max_power * 2) as u16,
        report_len: spec_report_length(scan.max_packet_size),
        endpoint_in: scan.endpoint_in->0,
        endpoint_out: scan.endpoint_out,
        report_descriptor: iface.report_descriptor,
    }
}

/// Whether `group` is the device at `bus` and `address`.
pub open spec fn at_place(group: CompoundHIDeviceView, bus: u8, address: u8) -> bool {
    group.bus == bus && group.address == address
}

/// Whether `i` is the first index in `groups` of the device at `bus` and
/// `address`.
pub open spec fn first_at_place(
    groups: Seq<CompoundHIDeviceView>,
    i: int,
    bus: u8,
    address: u8,
) -> bool {
    &&& 0 <= i < groups.len()
    &&& at_place(groups[i], bus, address)
    &&& forall|k: int| 0 <= k < i ==> !at_place(#[trigger] groups[k], bus, address)
}

/// `groups` after one more interface `h` was found on `dev`: appended to the
/// device's group where there is one, else in a new group at the end.
pub open spec fn with_interface(
    groups: Seq<CompoundHIDeviceView>,
    dev: UsbDeviceView,
    h: HIDeviceView,
) -> Seq<CompoundHIDeviceView> {
    if exists|i: int| first_at_place(groups, i, dev.bus, dev.address) {
        let i = choose|i: int| first_at_place(groups, i, dev.bus, dev.address);
        groups.update(
            i,
            CompoundHIDeviceView { interfaces: groups[i].interfaces.push(h), ..groups[i] },
        )
    } else {
        groups.push(
            CompoundHIDeviceView {
                vendor_id: dev.vendor_id,
                product_id: dev.product_id,
                manufacturer: dev.manufacturer,
                product: dev.product,
                serial_number: dev.serial_number,
                bus: dev.bus,
                address: dev.address,
                interfaces: seq![h],
            },
        )
    }
}

/// `groups` after the first `count` interfaces of `dev` were looked at.
pub open spec fn with_interfaces(
    groups: Seq<CompoundHIDeviceView>,
    dev: UsbDeviceView,
    count: nat,
) -> Seq<CompoundHIDeviceView>
    decreases count,
{
    if count == 0 {
        groups
    } else {
        let before = with_interfaces(groups, dev, (count - 1) as nat);
        let iface = dev.interfaces[count - 1];
        if is_surfaced(iface) {
            with_interface(before, dev, harvested_interface(dev, iface))
        } else {
            before
        }
    }
}

/// The compound devices of a bus scan: every surfaced interface, grouped by
/// bus and address, groups in the order in which their first interface was
/// found, interfaces in the order of the scan.
pub open spec fn harvest(devices: Seq<UsbDeviceView>) -> Seq<CompoundHIDeviceView>
    decreases devices.len(),
{
    if devices.len() == 0 {
        Seq::empty()
    } else {
        with_interfaces(
            harvest(devices.drop_last()),
            devices.last(),
            devices.last().interfaces.len(),
        )
    }
}

/// What holds of the result of every bus scan: each group has an interface,
/// every interface is usable and sits in the group of its own bus and
/// address, and no two groups share bus and address.
pub open spec fn well_grouped(groups: Seq<CompoundHIDeviceView>) -> bool {
    &&& forall|i: int|
        0 <= i < groups.len() ==> (#[trigger] groups[i]).interfaces.len() > 0
    &&& forall|i: int, j: int|
        0 <= i < groups.len() && 0 <= j < groups[i].interfaces.len() ==> {
            let h = #[trigger] groups[i].interfaces[j];
            h.usable() && h.bus == groups[i].bus && h.address == groups[i].address
        }
    &&& forall|i: int, j: int|
        0 <= i < j < groups.len() ==> !at_place(
            #[trigger] groups[j],
            (#[trigger] groups[i]).bus,
            groups[i].address,
        )
}

/// The endpoint scan never reports an IN endpoint whose address lacks bit 7.
pub proof fn endpoint_scan_in_has_bit(endpoints: Seq<EndpointDescriptor>)
    ensures
        endpoint_scan(endpoints).endpoint_in is Some ==> is_in_address(
            endpoint_scan(endpoints).endpoint_in->0,
        ),
    decreases endpoints.len(),
{
    if endpoints.len() > 0 {
        endpoint_scan_in_has_bit(endpoints.drop_last());
    }
}

/// Adding a usable interface of `dev` keeps a grouping well formed.
pub proof fn with_interface_well_grouped(
    groups: Seq<CompoundHIDeviceView>,
    dev: UsbDeviceView,
    h: HIDeviceView,
)
    requires
        well_grouped(groups),
        h.usable(),
        h.bus == dev.bus,
        h.address == dev.address,
    ensures
        well_grouped(with_interface(groups, dev, h)),
{
    let after = with_interface(groups, dev, h);
    if exists|i: int| first_at_place(groups, i, dev.bus, dev.address) {
        let i = choose|i: int| first_at_place(groups, i, dev.bus, dev.address);
        assert forall|a: int, b: int|
            0 <= a < after.len() && 0 <= b < after[a].interfaces.len() implies {
            let x = #[trigger] after[a].interfaces[b];
            x.usable() && x.bus == after[a].bus && x.address == after[a].address
        } by {
            if a == i {
                if b < groups[i].interfaces.len() {
                    assert(after[a].interfaces[b] == groups[i].interfaces[b]);
                }
            } else {
                assert(after[a].interfaces[b] == groups[a].interfaces[b]);
            }
        }
        assert forall|a: int, b: int| 0 <= a < b < after.len() implies !at_place(
            #[trigger] after[b],
            (#[trigger] after[a]).bus,
            after[a].address,
        ) by {
            assert(after[a].bus == groups[a].bus && after[a].address == groups[a].address);
            assert(after[b].bus == groups[b].bus && after[b].address == groups[b].address);
            assert(!at_place(groups[b], groups[a].bus, groups[a].address));
        }
        assert forall|a: int| 0 <= a < after.len() implies (#[trigger] after[a]).interfaces.len()
            > 0 by {
            if a != i {
                assert(after[a] == groups[a]);
            }
        }
    } else {
        assert forall|a: int, b: int|
            0 <= a < after.len() && 0 <= b < after[a].interfaces.len() implies {
            let x = #[trigger] after[a].interfaces[b];
            x.usable() && x.bus == after[a].bus && x.address == after[a].address
        } by {
            if a < groups.len() {
                assert(after[a].interfaces[b] == groups[a].interfaces[b]);
            }
        }
        assert forall|a: int, b: int| 0 <= a < b < after.len() implies !at_place(
            #[trigger] after[b],
            (#[trigger] after[a]).bus,
            after[a].address,
        ) by {
            if b < groups.len() {
                assert(!at_place(groups[b], groups[a].bus, groups[a].address));
            } else {
                if at_place(after[b], after[a].bus, after[a].address) {
                    assert(at_place(groups[a], dev.bus, dev.address));
                    first_exists(groups, a, dev.bus, dev.address);
                }
            }
        }
        assert forall|a: int| 0 <= a < after.len() implies (#[trigger] after[a]).interfaces.len()
            > 0 by {
            if a < groups.len() {
                assert(after[a] == groups[a]);
            }
        }
    }
}

/// Where some group sits at a place, a first one does.
pub proof fn first_exists(groups: Seq<CompoundHIDeviceView>, at: int, bus: u8, address: u8)
    requires
        0 <= at < groups.len(),
        at_place(groups[at], bus, address),
    ensures
        exists|i: int| first_at_place(groups, i, bus, address),
    decreases at,
{
    if exists|k: int| 0 <= k < at && at_place(groups[k], bus, address) {
        let k = choose|k: int| 0 <= k < at && at_place(groups[k], bus, address);
        first_exists(groups, k, bus, address);
    } else {
        assert(first_at_place(groups, at, bus, address));
    }
}

/// Looking at more interfaces of `dev` keeps a grouping well formed.
pub proof fn with_interfaces_well_grouped(
    groups: Seq<CompoundHIDeviceView>,
    dev: UsbDeviceView,
    count: nat,
)
    requires
        well_grouped(groups),
        count <= dev.interfaces.len(),
    ensures
        well_grouped(with_interfaces(groups, dev, count)),
    decreases count,
{
    if count > 0 {
        with_interfaces_well_grouped(groups, dev, (count - 1) as nat);
        let before = with_interfaces(groups, dev, (count - 1) as nat);
        let iface = dev.interfaces[count - 1];
        if is_surfaced(iface) {
            endpoint_scan_in_has_bit(iface.endpoints);
            with_interface_well_grouped(before, dev, harvested_interface(dev, iface));
        }
    }
}

/// Every compound device that a bus scan emits has at least one interface,
/// each of its interfaces has an interrupt IN endpoint, a report descriptor
/// that is not empty and a positive report length, and no device is emitted
/// twice.
pub proof fn harvest_well_grouped(devices: Seq<UsbDeviceView>)
    ensures
        well_grouped(harvest(devices)),
    decreases devices.len(),
{
    if devices.len() > 0 {
        harvest_well_grouped(devices.drop_last());
        with_interfaces_well_grouped(
            harvest(devices.drop_last()),
            devices.last(),
            devices.last().interfaces.len(),
        );
    }
}

/// The report length for an IN endpoint of the given packet size: the size
/// itself, or 64 where the device reads zero.
pub fn report_length(max_packet_size: u16) -> (n: u16)
    ensures
        n == spec_report_length(max_packet_size),
        n > 0,
        max_packet_size == 0 ==> n == 64,
        max_packet_size != 0 ==> n == max_packet_size,
{
    if max_packet_size == 0 {
        DEFAULT_REPORT_LEN
    } else {
        max_packet_size
    }
}

/// Packs a version into 16 bits: `(major << 8) | (minor << 4) | sub_minor`.
pub fn pack_bcd(v: Version) -> (packed: u16)
    ensures
        packed == spec_pack_bcd(v),
{
    ((v.major as u16) << 8) | ((v.minor as u16) << 4) | (v.sub_minor as u16)
}

/// For a version whose minor and sub-minor parts are single BCD digits, the
/// packed form is `major * 256 + minor * 16 + sub_minor`.
pub proof fn pack_bcd_value(v: Version)
    requires
        v.minor < 16,
        v.sub_minor < 16,
    ensures
        spec_pack_bcd(v) == v.major * 256 + v.minor * 16 + v.sub_minor,
{
    let a = v.major;
    let b = v.minor;
    let c = v.sub_minor;
    assert(((a as u16) << 8) | ((b as u16) << 4) | (c as u16) == a * 256 + b * 16 + c)
        by (bit_vector)
        requires
            b < 16,
            c < 16,
    ;
}

/// Whether `address` names a device-to-host endpoint.
pub fn address_is_in(address: u8) -> (b: bool)
    ensures
        b == is_in_address(address),
{
    address & 0x80 != 0
}

/// Finds the interrupt endpoints of an interface.
pub fn scan_endpoints(endpoints: &Vec<EndpointDescriptor>) -> (scan: EndpointScan)
    ensures
        scan == endpoint_scan(endpoints@),
        scan.endpoint_in is Some ==> is_in_address(scan.endpoint_in->0),
{
    let mut scan = EndpointScan { endpoint_in: None, endpoint_out: None, max_packet_size: 0 };
    let mut i: usize = 0;
    while i < endpoints.len()
        invariant
            i <= endpoints.len(),
            scan == endpoint_scan(endpoints@.subrange(0, i as int)),
        decreases endpoints.len() - i,
    {
        assert(endpoints@.subrange(0, i + 1).drop_last() =~= endpoints@.subrange(0, i as int));
        let e = endpoints[i];
        match e.transfer_type {
            TransferType::Interrupt => {
                if address_is_in(e.address) {
                    scan.endpoint_in = Some(e.address);
                    scan.max_packet_size = e.max_packet_size;
                } else {
                    scan.endpoint_out = Some(e.address);
                }
            },
            _ => {},
        }
        i = i + 1;
    }
    assert(endpoints@.subrange(0, i as int) =~= endpoints@);
    proof {
        endpoint_scan_in_has_bit(endpoints@);
    }
    scan
}

/// Whether the report descriptor of `iface` should be requested.
pub fn wants_report_descriptor(iface: &InterfaceDescriptor) -> (b: bool)
    ensures
        b == is_hid_candidate(iface@),
{
    iface.class_code == HID_CLASS && scan_endpoints(&iface.endpoints).endpoint_in.is_some()
}

/// Index of the group at `bus` and `address`, if there is one.
fn find_group(groups: &Vec<CompoundHIDevice>, bus: u8, address: u8) -> (found: Option<usize>)
    ensures
        match found {
            Some(i) => first_at_place(compound_views(groups@), i as int, bus, address),
            None => !exists|i: int| first_at_place(compound_views(groups@), i, bus, address),
        },
{
    let mut i: usize = 0;
    while i < groups.len()
        invariant
            i <= groups.len(),
            forall|k: int|
                0 <= k < i ==> !at_place(#[trigger] compound_views(groups@)[k], bus, address),
        decreases groups.len() - i,
    {
        if groups[i].bus == bus && groups[i].address == address {
            assert(at_place(compound_views(groups@)[i as int], bus, address));
            return Some(i);
        }
        assert(!at_place(compound_views(groups@)[i as int], bus, address));
        i = i + 1;
    }
    None
}

/// Records one more interface found on `dev`.
fn add_interface(groups: &mut Vec<CompoundHIDevice>, dev: &UsbDevice, h: HIDevice)
    ensures
        compound_views(final(groups)@) == with_interface(compound_views(old(groups)@), dev@, h@),
{
    let ghost before = compound_views(groups@);
    match find_group(groups, dev.bus, dev.address) {
        Some(i) => {
            proof {
                let c = choose|c: int| first_at_place(before, c, dev.bus, dev.address);
                assert(first_at_place(before, c, dev.bus, dev.address));
                assert(c == i) by {
                    if c < i {
                        assert(!at_place(before[c], dev.bus, dev.address));
                    }
                    if i < c {
                        assert(!at_place(before[i as int], dev.bus, dev.address));
                    }
                }
            }
            let mut group = groups.remove(i);
            let ghost old_interfaces = interface_views(group.interfaces@);
            group.interfaces.push(h);
            assert(interface_views(group.interfaces@) =~= old_interfaces.push(h@));
            groups.insert(i, group);
            assert(compound_views(groups@) =~= with_interface(before, dev@, h@));
        },
        None => {
            let mut interfaces: Vec<HIDevice> = Vec::new();
            interfaces.push(h);
            assert(interface_views(interfaces@) =~= seq![h@]);
            groups.push(
                CompoundHIDevice {
                    vendor_id: dev.vendor_id,
                    product_id: dev.product_id,
                    manufacturer: clone_opt_text(&dev.manufacturer),
                    product: clone_opt_text(&dev.product),
                    serial_number: clone_opt_text(&dev.serial_number),
                    bus: dev.bus,
                    address: dev.address,
                    interfaces,
                },
            );
            assert(compound_views(groups@) =~= with_interface(before, dev@, h@));
        },
    }
}

/// The interface record for a surfaced interface of `dev`.
fn make_interface(dev: &UsbDevice, iface: &InterfaceDescriptor) -> (h: HIDevice)
    requires
        is_surfaced(iface@),
        dev.max_power * 2 <= u16::MAX,
    ensures
        h@ == harvested_interface(dev@, iface@),
{
    let scan = scan_endpoints(&iface.endpoints);
    let endpoint_in = match scan.endpoint_in {
        Some(a) => a,
        None => 0,
    };
    let report_descriptor = iface.report_descriptor.clone();
    assert(report_descriptor@ =~= iface.report_descriptor@);
    HIDevice {
        vendor_id: dev.vendor_id,
        product_id: dev.product_id,
        manufacturer: clone_opt_text(&dev.manufacturer),
        product: clone_opt_text(&dev.product),
        serial_number: clone_opt_text(&dev.serial_number),
        configuration: clone_opt_text(&iface.configuration),
        bcd_usb: pack_bcd(dev.usb_version),
        bcd_device: pack_bcd(dev.device_version),
        bus: dev.bus,
        address: dev.address,
        interface_num: iface.interface_number,
        protocol: iface.protocol_code,
        subclass: iface.sub_class_code,
        max_power: dev.max_power * 2,
        report_len: report_length(scan.max_packet_size),
        endpoint_in,
        endpoint_out: scan.endpoint_out,
        report_descriptor,
    }
}

/// Whether every device's doubled power value fits its 16-bit field.
pub open spec fn power_fits(devices: Seq<UsbDevice>) -> bool {
    forall|i: int| 0 <= i < devices.len() ==> (#[trigger] devices[i]).max_power * 2 <= u16::MAX
}

/// Groups the HID interfaces of a bus scan into compound devices.
///
/// An interface is surfaced when it is of the HID class, has an interrupt IN
/// endpoint and a report descriptor that is not empty. Interfaces of one bus
/// and address form one compound device; devices come in the order in which
/// their first interface was found.
pub fn get_connected_devices(devices: &Vec<UsbDevice>) -> (found: Vec<CompoundHIDevice>)
    requires
        power_fits(devices@),
    ensures
        compound_views(found@) == harvest(device_views(devices@)),
        well_grouped(compound_views(found@)),
{
    let mut found: Vec<CompoundHIDevice> = Vec::new();
    let mut d: usize = 0;
    assert(compound_views(found@) =~= harvest(device_views(devices@).subrange(0, 0)));
    while d < devices.len()
        invariant
            d <= devices.len(),
            power_fits(devices@),
            compound_views(found@) == harvest(device_views(devices@).subrange(0, d as int)),
        decreases devices.len() - d,
    {
        let dev = &devices[d];
        let ghost start = compound_views(found@);
        assert(device_views(devices@).subrange(0, d + 1).drop_last() =~= device_views(
            devices@,
        ).subrange(0, d as int));
        assert(device_views(devices@).subrange(0, d + 1).last() == dev@);
        let mut k: usize = 0;
        while k < dev.interfaces.len()
            invariant
                k <= dev.interfaces.len(),
                dev.max_power * 2 <= u16::MAX,
                compound_views(found@) == with_interfaces(start, dev@, k as nat),
            decreases dev.interfaces.len() - k,
        {
            let iface = &dev.interfaces[k];
            assert(dev@.interfaces[k as int] == iface@);
            if wants_report_descriptor(iface) && iface.report_descriptor.len() > 0 {
                let h = make_interface(dev, iface);
                add_interface(&mut found, dev, h);
            }
            k = k + 1;
        }
        d = d + 1;
    }
    assert(device_views(devices@).subrange(0, d as int) =~= device_views(devices@));
    proof {
        harvest_well_grouped(device_views(devices@));
    }
    found
}

/// Why a bus scan yields nothing at all.
#[derive(Clone, Copy, Debug, PartialEq, Eq, Structural)]
pub enum HarvestError {
    /// The USB library could not list the devices of the bus.
    UsbIo,
}

/// Harvests the compound devices of one enumeration pass. `scan` holds the
/// devices that could be opened and read, or `None` where the bus could not
/// be listed at all; only then does the harvest fail.
pub fn enumerate(scan: Option<&Vec<UsbDevice>>) -> (r: Result<Vec<CompoundHIDevice>, HarvestError>)
    requires
        scan matches Some(devices) ==> power_fits(devices@),
    ensures
        match scan {
            Some(devices) => r is Ok && compound_views(r->Ok_0@) == harvest(
                device_views(devices@),
            ) && well_grouped(compound_views(r->Ok_0@)),
            None => r == Err::<Vec<CompoundHIDevice>, HarvestError>(HarvestError::UsbIo),
        },
{
    match scan {
        Some(devices) => Ok(get_connected_devices(devices)),
        None => Err(HarvestError::UsbIo),
    }
}

} // verus!
