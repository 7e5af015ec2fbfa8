//! The USB gadget that mirrors a device toward the upstream host.
//!
//! Nothing here touches the file system. Each function returns the ordered
//! list of file operations that builds, binds or removes the gadget's configfs
//! tree; the caller carries them out. Operations of a build plan must all
//! succeed; those of a teardown are attempted one by one, failures ignored.

use crate::device::{opt_text, CompoundHIDevice, CompoundHIDeviceView, HIDeviceView};
use crate::text::{
    chars_of, decimal_string, decimal_text, has_prefix, hex_word_string, hex_word_text, matches_at,
    trim_range, trimmed,
};
use crate::virtual_device::VirtualDeviceType;
use vstd::prelude::*;
use vstd::string::StringExecFns;

verus! {

/// Length of the all-zero report that releases held keys and buttons.
pub const RELEASE_REPORT_LEN: usize = 64;

/// Milliseconds between two reads of the controller's state.
pub const HOST_POLL_MILLIS: u64 = 500;

/// Milliseconds to wait after unbinding the controller.
pub const UNBIND_SETTLE_MILLIS: u64 = 100;

// ---------------------------------------------------------------------------
// File operations
// ---------------------------------------------------------------------------

/// One file operation of a plan.
#[derive(Debug, PartialEq, Eq)]
pub enum FsOp {
    /// Create a directory and its missing parents.
    CreateDirAll { path: String },
    /// Write text to a file, replacing what it held.
    WriteText { path: String, content: String },
    /// Write bytes to a file, replacing what it held.
    WriteBytes { path: String, data: Vec<u8> },
    /// Open an existing character device for writing, write the bytes, flush.
    WriteDevice { path: String, data: Vec<u8> },
    /// Make `link` a symbolic link to `target`, unless `link` exists.
    Symlink { target: String, link: String },
    /// Remove one file or link.
    RemoveFile { path: String },
    /// Remove a directory with all it holds.
    RemoveDirAll { path: String },
    /// Pause.
    Sleep { millis: u64 },
}

/// Mathematical content of an [`FsOp`].
pub ghost enum FsOpView {
    CreateDirAll { path: Seq<char> },
    WriteText { path: Seq<char>, content: Seq<char> },
    WriteBytes { path: Seq<char>, data: Seq<u8> },
    WriteDevice { path: Seq<char>, data: Seq<u8> },
    Symlink { target: Seq<char>, link: Seq<char> },
    RemoveFile { path: Seq<char> },
    RemoveDirAll { path: Seq<char> },
    Sleep { millis: u64 },
}

impl View for FsOp {
    type V = FsOpView;

    open spec fn view(&self) -> FsOpView {
        match *self {
            FsOp::CreateDirAll { path } => FsOpView::CreateDirAll { path: path@ },
            FsOp::WriteText { path, content } => FsOpView::WriteText {
                path: path@,
                content: content@,
            },
            FsOp::WriteBytes { path, data } => FsOpView::WriteBytes { path: path@, data: data@ },
            FsOp::WriteDevice { path, data } => FsOpView::WriteDevice { path: path@, data: data@ },
            FsOp::Symlink { target, link } => FsOpView::Symlink { target: target@, link: link@ },
            FsOp::RemoveFile { path } => FsOpView::RemoveFile { path: path@ },
            FsOp::RemoveDirAll { path } => FsOpView::RemoveDirAll { path: path@ },
            FsOp::Sleep { millis } => FsOpView::Sleep { millis },
        }
    }
}

/// The views of a list of operations.
pub open spec fn op_views(ops: Seq<FsOp>) -> Seq<FsOpView> {
    Seq::new(ops.len(), |i: int| ops[i]@)
}

/// The views of a list of strings.
pub open spec fn text_views(v: Seq<String>) -> Seq<Seq<char>> {
    Seq::new(v.len(), |i: int| v[i]@)
}

// ---------------------------------------------------------------------------
// Paths
// ---------------------------------------------------------------------------

/// Root of the gadget in configfs.
pub open spec fn gadget_root() -> Seq<char> {
    "/sys/kernel/config/usb_gadget/hid_proxy"@
}

/// `dir`, a slash, `name`.
pub open spec fn child_path(dir: Seq<char>, name: Seq<char>) -> Seq<char> {
    dir + "/"@ + name
}

/// Name of the gadget function with index `i`: `hid.usb` and the index.
pub open spec fn function_name(i: nat) -> Seq<char> {
    "hid.usb"@ + decimal_text(i)
}

/// Directory of function `i` under the gadget at `base`.
pub open spec fn function_dir(base: Seq<char>, i: nat) -> Seq<char> {
    child_path(child_path(base, "functions"@), function_name(i))
}

/// Directory of the gadget's one configuration.
pub open spec fn config_dir(base: Seq<char>) -> Seq<char> {
    child_path(base, "configs/c.1"@)
}

/// Directory of the English strings below `dir`.
pub open spec fn strings_dir(dir: Seq<char>) -> Seq<char> {
    child_path(dir, "strings/0x409"@)
}

/// The character device of function `i`: `/dev/hidg` and the index.
pub open spec fn device_path(i: nat) -> Seq<char> {
    "/dev/hidg"@ + decimal_text(i)
}

/// The state file of the controller `udc`.
pub open spec fn udc_state_path(udc: Seq<char>) -> Seq<char> {
    "/sys/class/udc/"@ + udc + "/state"@
}

/// The gadget root as a string.
pub fn gadget_root_string() -> (s: String)
    ensures
        s@ == gadget_root(),
{
    String::from_str("/sys/kernel/config/usb_gadget/hid_proxy")
}

fn child(dir: &str, name: &str) -> (s: String)
    ensures
        s@ == child_path(dir@, name@),
{
    let mut s = String::from_str(dir);
    s.append("/");
    s.append(name);
    s
}

fn function_name_string(i: usize) -> (s: String)
    ensures
        s@ == function_name(i as nat),
{
    let mut s = String::from_str("hid.usb");
    let n = decimal_string(i as u64);
    s.append(n.as_str());
    s
}

/// The path of the character device of function `i`.
pub fn device_path_string(i: usize) -> (s: String)
    ensures
        s@ == device_path(i as nat),
{
    let mut s = String::from_str("/dev/hidg");
    let n = decimal_string(i as u64);
    s.append(n.as_str());
    s
}

/// The path of the state file of the controller `udc`.
pub fn udc_state_path_string(udc: &str) -> (s: String)
    ensures
        s@ == udc_state_path(udc@),
{
    let mut s = String::from_str("/sys/class/udc/");
    s.append(udc);
    s.append("/state");
    s
}

fn create_dir(path: &str) -> (op: FsOp)
    ensures
        op@ == (FsOpView::CreateDirAll { path: path@ }),
{
    FsOp::CreateDirAll { path: String::from_str(path) }
}

fn write_file(dir: &str, file: &str, content: &str) -> (op: FsOp)
    ensures
        op@ == (FsOpView::WriteText { path: child_path(dir@, file@), content: content@ }),
{
    FsOp::WriteText { path: child(dir, file), content: String::from_str(content) }
}

// ---------------------------------------------------------------------------
// The functions of a gadget
// ---------------------------------------------------------------------------

/// What one HID function of the gadget announces.
#[derive(Debug, PartialEq, Eq)]
pub struct GadgetFunction {
    pub protocol: u8,
    pub subclass: u8,
    pub report_length: u16,
    pub report_descriptor: Vec<u8>,
}

/// Mathematical content of a [`GadgetFunction`].
pub ghost struct GadgetFunctionView {
    pub protocol: u8,
    pub subclass: u8,
    pub report_length: u16,
    pub report_descriptor: Seq<u8>,
}

impl View for GadgetFunction {
    type V = GadgetFunctionView;

    open spec fn view(&self) -> GadgetFunctionView {
        GadgetFunctionView {
            protocol: self.protocol,
            subclass: self.subclass,
            report_length: self.report_length,
            report_descriptor: self.report_descriptor@,
        }
    }
}

/// The views of a list of functions.
pub open spec fn function_views(v: Seq<GadgetFunction>) -> Seq<GadgetFunctionView> {
    Seq::new(v.len(), |i: int| v[i]@)
}

/// The function that mirrors a physical interface: its protocol, subclass,
/// report length and report descriptor, unchanged.
pub open spec fn physical_function(h: HIDeviceView) -> GadgetFunctionView {
    GadgetFunctionView {
        protocol: h.protocol,
        subclass: h.subclass,
        report_length: h.report_len,
        report_descriptor: h.report_descriptor,
    }
}

/// The function of a virtual interface of the given kind.
pub open spec fn virtual_function(kind: VirtualDeviceType) -> GadgetFunctionView {
    GadgetFunctionView {
        protocol: kind.spec_protocol(),
        subclass: 0,
        report_length: kind.spec_report_length(),
        report_descriptor: kind.spec_report_descriptor(),
    }
}

/// The functions of the gadget for `device` and the requested virtual
/// interfaces: one per physical interface, in order, then one per request, in
/// order.
pub open spec fn spec_gadget_functions(
    device: CompoundHIDeviceView,
    requests: Seq<VirtualDeviceType>,
) -> Seq<GadgetFunctionView> {
    Seq::new(
        device.interfaces.len() + requests.len(),
        |i: int|
            if i < device.interfaces.len() {
                physical_function(device.interfaces[i])
            } else {
                virtual_function(requests[i - device.interfaces.len()])
            },
    )
}

/// Lists the functions of the gadget: the physical interfaces first, then the
/// virtual ones in the order in which they were requested.
pub fn gadget_functions(device: &CompoundHIDevice, requests: &Vec<VirtualDeviceType>) -> (fns: Vec<
    GadgetFunction,
>)
    ensures
        function_views(fns@) == spec_gadget_functions(device@, requests@),
        fns.len() == device.interfaces.len() + requests.len(),
{
    let ghost want = spec_gadget_functions(device@, requests@);
    let mut fns: Vec<GadgetFunction> = Vec::new();
    let mut i: usize = 0;
    while i < device.interfaces.len()
        invariant
            i <= device.interfaces.len(),
            want == spec_gadget_functions(device@, requests@),
            fns.len() == i,
            forall|k: int| 0 <= k < i ==> (#[trigger] fns[k])@ == want[k],
        decreases device.interfaces.len() - i,
    {
        let h = &device.interfaces[i];
        assert(device@.interfaces[i as int] == h@);
        let report_descriptor = h.report_descriptor.clone();
        assert(report_descriptor@ =~= h.report_descriptor@);
        fns.push(
            GadgetFunction {
                protocol: h.protocol,
                subclass: h.subclass,
                report_length: h.report_len,
                report_descriptor,
            },
        );
        i = i + 1;
    }
    let n = device.interfaces.len();
    let mut j: usize = 0;
    while j < requests.len()
        invariant
            j <= requests.len(),
            n == device.interfaces.len(),
            want == spec_gadget_functions(device@, requests@),
            fns.len() == n + j,
            forall|k: int| 0 <= k < n + j ==> (#[trigger] fns[k])@ == want[k],
        decreases requests.len() - j,
    {
        let kind = requests[j];
        fns.push(
            GadgetFunction {
                protocol: kind.protocol(),
                subclass: kind.subclass(),
                report_length: kind.report_length(),
                report_descriptor: kind.report_descriptor(),
            },
        );
        j = j + 1;
    }
    assert(function_views(fns@) =~= want);
    fns
}

// ---------------------------------------------------------------------------
// Building the gadget
// ---------------------------------------------------------------------------

/// The text of `o`, or `fallback` where there is none.
pub open spec fn text_or(o: Option<Seq<char>>, fallback: Seq<char>) -> Seq<char> {
    match o {
        Some(s) => s,
        None => fallback,
    }
}

/// Creates the gadget root and writes the ids of `device`, and the versions
/// of its first interface where it has one.
pub open spec fn identity_ops(base: Seq<char>, device: CompoundHIDeviceView) -> Seq<FsOpView> {
    let ids = seq![
        FsOpView::CreateDirAll { path: base },
        FsOpView::WriteText {
            path: child_path(base, "idVendor"@),
            content: hex_word_text(device.vendor_id),
        },
        FsOpView::WriteText {
            path: child_path(base, "idProduct"@),
            content: hex_word_text(device.product_id),
        },
    ];
    if device.interfaces.len() > 0 {
        ids + seq![
            FsOpView::WriteText {
                path: child_path(base, "bcdDevice"@),
                content: hex_word_text(device.interfaces[0].bcd_device),
            },
            FsOpView::WriteText {
                path: child_path(base, "bcdUSB"@),
                content: hex_word_text(device.interfaces[0].bcd_usb),
            },
        ]
    } else {
        ids
    }
}

/// Writes the device's strings, with fixed defaults where one is absent.
pub open spec fn strings_ops(base: Seq<char>, device: CompoundHIDeviceView) -> Seq<FsOpView> {
    seq![
        FsOpView::CreateDirAll { path: strings_dir(base) },
        FsOpView::WriteText {
            path: child_path(strings_dir(base), "serialnumber"@),
            content: text_or(device.serial_number, "1337-PROXY"@),
        },
        FsOpView::WriteText {
            path: child_path(strings_dir(base), "manufacturer"@),
            content: text_or(device.manufacturer, "Rust Proxy"@),
        },
        FsOpView::WriteText {
            path: child_path(strings_dir(base), "product"@),
            content: text_or(device.product, "Cloned Compound Device"@),
        },
    ]
}

/// Creates the one configuration, named and powered with 500 mA.
pub open spec fn config_ops(base: Seq<char>) -> Seq<FsOpView> {
    seq![
        FsOpView::CreateDirAll { path: config_dir(base) },
        FsOpView::CreateDirAll { path: strings_dir(config_dir(base)) },
        FsOpView::WriteText {
            path: child_path(strings_dir(config_dir(base)), "configuration"@),
            content: "Config 1"@,
        },
        FsOpView::WriteText { path: child_path(config_dir(base), "MaxPower"@), content: "500"@ },
    ]
}

/// Creates function `i`, writes its four files and links it into the
/// configuration.
pub open spec fn function_ops(base: Seq<char>, i: nat, f: GadgetFunctionView) -> Seq<FsOpView> {
    seq![
        FsOpView::CreateDirAll { path: function_dir(base, i) },
        FsOpView::WriteText {
            path: child_path(function_dir(base, i), "protocol"@),
            content: decimal_text(f.protocol as nat),
        },
        FsOpView::WriteText {
            path: child_path(function_dir(base, i), "subclass"@),
            content: decimal_text(f.subclass as nat),
        },
        FsOpView::WriteText {
            path: child_path(function_dir(base, i), "report_length"@),
            content: decimal_text(f.report_length as nat),
        },
        FsOpView::WriteBytes {
            path: child_path(function_dir(base, i), "report_desc"@),
            data: f.report_descriptor,
        },
        FsOpView::Symlink {
            target: function_dir(base, i),
            link: child_path(config_dir(base), function_name(i)),
        },
    ]
}

/// The operations for the first `count` functions of `fns`, in order.
pub open spec fn functions_ops(base: Seq<char>, fns: Seq<GadgetFunctionView>, count: nat) -> Seq<
    FsOpView,
>
    decreases count,
{
    if count == 0 {
        Seq::empty()
    } else {
        functions_ops(base, fns, (count - 1) as nat) + function_ops(
            base,
            (count - 1) as nat,
            fns[count - 1],
        )
    }
}

/// Everything that builds the gadget for `device` with the requested virtual
/// interfaces, up to but not including the binding to a controller.
pub open spec fn create_ops(
    device: CompoundHIDeviceView,
    requests: Seq<VirtualDeviceType>,
) -> Seq<FsOpView> {
    let fns = spec_gadget_functions(device, requests);
    identity_ops(gadget_root(), device) + strings_ops(gadget_root(), device) + config_ops(
        gadget_root(),
    ) + functions_ops(gadget_root(), fns, fns.len())
}

/// The character devices of a gadget with `count` functions, by index.
pub open spec fn device_paths(count: nat) -> Seq<Seq<char>> {
    Seq::new(count, |i: int| device_path(i as nat))
}

/// The operations that build a gadget, and the character devices that the
/// kernel makes for its functions once it is bound.
#[derive(Debug, PartialEq, Eq)]
pub struct GadgetPlan {
    pub ops: Vec<FsOp>,
    pub device_paths: Vec<String>,
}

fn text_or_default(o: &Option<String>, fallback: &str) -> (s: String)
    ensures
        s@ == text_or(opt_text(*o), fallback@),
{
    match o {
        Some(t) => t.clone(),
        None => String::from_str(fallback),
    }
}

fn push_function_ops(ops: &mut Vec<FsOp>, base: &str, i: usize, f: &GadgetFunction)
    ensures
        op_views(final(ops)@) == op_views(old(ops)@) + function_ops(base@, i as nat, f@),
{
    let ghost before = op_views(ops@);
    let functions = child(base, "functions");
    let name = function_name_string(i);
    let dir = child(functions.as_str(), name.as_str());
    let config = child(base, "configs/c.1");
    let protocol = decimal_string(f.protocol as u64);
    let subclass = decimal_string(f.subclass as u64);
    let report_length = decimal_string(f.report_length as u64);
    let report_descriptor = f.report_descriptor.clone();
    assert(report_descriptor@ =~= f.report_descriptor@);
    ops.push(create_dir(dir.as_str()));
    ops.push(write_file(dir.as_str(), "protocol", protocol.as_str()));
    ops.push(write_file(dir.as_str(), "subclass", subclass.as_str()));
    ops.push(write_file(dir.as_str(), "report_length", report_length.as_str()));
    ops.push(FsOp::WriteBytes { path: child(dir.as_str(), "report_desc"), data: report_descriptor });
    ops.push(FsOp::Symlink { target: dir.clone(), link: child(config.as_str(), name.as_str()) });
    assert(op_views(ops@) =~= before + function_ops(base@, i as nat, f@));
}

/// Plans the tree of the gadget for `device` and the virtual interfaces that
/// the script requested.
///
/// The plan creates the root, writes ids, versions and strings, creates the
/// configuration, and then for every function index creates the function with
/// its protocol, subclass, report length and report descriptor and links it
/// into the configuration. The number of functions is the number of physical
/// interfaces plus the number of requests.
pub fn gadget_tree(device: &CompoundHIDevice, requests: &Vec<VirtualDeviceType>) -> (plan:
    GadgetPlan)
    ensures
        op_views(plan.ops@) == create_ops(device@, requests@),
        plan.device_paths.len() == device.interfaces.len() + requests.len(),
        text_views(plan.device_paths@) == device_paths(
            (device.interfaces.len() + requests.len()) as nat,
        ),
{
    let base_string = gadget_root_string();
    let base = base_string.as_str();
    let mut ops: Vec<FsOp> = Vec::new();

    ops.push(create_dir(base));
    let vendor = hex_word_string(device.vendor_id);
    ops.push(write_file(base, "idVendor", vendor.as_str()));
    let product = hex_word_string(device.product_id);
    ops.push(write_file(base, "idProduct", product.as_str()));
    if device.interfaces.len() > 0 {
        let first = &device.interfaces[0];
        assert(device@.interfaces[0] == first@);
        let bcd_device = hex_word_string(first.bcd_device);
        ops.push(write_file(base, "bcdDevice", bcd_device.as_str()));
        let bcd_usb = hex_word_string(first.bcd_usb);
        ops.push(write_file(base, "bcdUSB", bcd_usb.as_str()));
    }
    assert(op_views(ops@) =~= identity_ops(gadget_root(), device@));

    let strings = child(base, "strings/0x409");
    ops.push(create_dir(strings.as_str()));
    let serial = text_or_default(&device.serial_number, "1337-PROXY");
    ops.push(write_file(strings.as_str(), "serialnumber", serial.as_str()));
    let manufacturer = text_or_default(&device.manufacturer, "Rust Proxy");
    ops.push(write_file(strings.as_str(), "manufacturer", manufacturer.as_str()));
    let product_name = text_or_default(&device.product, "Cloned Compound Device");
    ops.push(write_file(strings.as_str(), "product", product_name.as_str()));
    assert(op_views(ops@) =~= identity_ops(gadget_root(), device@) + strings_ops(
        gadget_root(),
        device@,
    ));

    let config = child(base, "configs/c.1");
    ops.push(create_dir(config.as_str()));
    let config_strings = child(config.as_str(), "strings/0x409");
    ops.push(create_dir(config_strings.as_str()));
    ops.push(write_file(config_strings.as_str(), "configuration", "Config 1"));
    ops.push(write_file(config.as_str(), "MaxPower", "500"));
    let ghost head = identity_ops(gadget_root(), device@) + strings_ops(gadget_root(), device@)
        + config_ops(gadget_root());
    assert(op_views(ops@) =~= head);

    let fns = gadget_functions(device, requests);
    let ghost want = spec_gadget_functions(device@, requests@);
    let mut device_paths: Vec<String> = Vec::new();
    let mut i: usize = 0;
    while i < fns.len()
        invariant
            i <= fns.len(),
            base@ == gadget_root(),
            function_views(fns@) == want,
            op_views(ops@) == head + functions_ops(gadget_root(), want, i as nat),
            device_paths.len() == i,
            forall|k: int| 0 <= k < i ==> (#[trigger] device_paths[k])@ == device_path(k as nat),
        decreases fns.len() - i,
    {
        assert(want[i as int] == fns[i as int]@);
        push_function_ops(&mut ops, base, i, &fns[i]);
        device_paths.push(device_path_string(i));
        i = i + 1;
        assert(op_views(ops@) =~= head + functions_ops(gadget_root(), want, i as nat));
    }
    assert(text_views(device_paths@) =~= self::device_paths(fns.len() as nat));
    GadgetPlan { ops, device_paths }
}

/// The operation that binds the gadget to the controller `udc`: its name
/// written to the root's `UDC` file.
pub open spec fn bind_op(udc: Seq<char>) -> FsOpView {
    FsOpView::WriteText { path: child_path(gadget_root(), "UDC"@), content: udc }
}

/// The operation that binds the gadget to the controller `udc`.
pub fn bind_gadget(udc: &str) -> (op: FsOp)
    ensures
        op@ == bind_op(udc@),
{
    let base = gadget_root_string();
    write_file(base.as_str(), "UDC", udc)
}

// ---------------------------------------------------------------------------
// Finding the controller
// ---------------------------------------------------------------------------

/// One entry of the listing of `/sys/class/udc`.
#[derive(Debug, PartialEq, Eq)]
pub enum UdcEntry {
    /// The entry could not be read.
    Unreadable,
    /// The entry's name is not valid text.
    Unnamed,
    /// A controller of this name.
    Named(String),
}

/// Mathematical content of a [`UdcEntry`].
pub ghost enum UdcEntryView {
    Unreadable,
    Unnamed,
    Named(Seq<char>),
}

impl View for UdcEntry {
    type V = UdcEntryView;

    open spec fn view(&self) -> UdcEntryView {
        match *self {
            UdcEntry::Unreadable => UdcEntryView::Unreadable,
            UdcEntry::Unnamed => UdcEntryView::Unnamed,
            UdcEntry::Named(name) => UdcEntryView::Named(name@),
        }
    }
}

/// The views of a listing.
pub open spec fn udc_views(v: Seq<UdcEntry>) -> Seq<UdcEntryView> {
    Seq::new(v.len(), |i: int| v[i]@)
}

/// Why a gadget could not be bound.
#[derive(Clone, Copy, Debug, PartialEq, Eq, Structural)]
pub enum GadgetError {
    /// The listing held no controller.
    NoController,
    /// The listing broke off at an entry that could not be read.
    ListingFailed,
}

/// The controller that a listing yields: the first named entry, unless an
/// unreadable entry comes before it.
pub open spec fn first_controller(entries: Seq<UdcEntryView>) -> Result<Seq<char>, GadgetError>
    decreases entries.len(),
{
    if entries.len() == 0 {
        Err(GadgetError::NoController)
    } else {
        match entries[0] {
            UdcEntryView::Named(name) => Ok(name),
            UdcEntryView::Unreadable => Err(GadgetError::ListingFailed),
            UdcEntryView::Unnamed => first_controller(entries.drop_first()),
        }
    }
}

/// Picks the controller to bind to from the listing of the controller
/// directory.
pub fn find_udc_controller(entries: &Vec<UdcEntry>) -> (r: Result<String, GadgetError>)
    ensures
        match r {
            Ok(name) => first_controller(udc_views(entries@)) == Ok::<Seq<char>, GadgetError>(
                name@,
            ),
            Err(e) => first_controller(udc_views(entries@)) == Err::<Seq<char>, GadgetError>(e),
        },
{
    let ghost all = udc_views(entries@);
    let mut i: usize = 0;
    assert(all.subrange(0, all.len() as int) =~= all);
    while i < entries.len()
        invariant
            i <= entries.len(),
            all == udc_views(entries@),
            first_controller(all) == first_controller(all.subrange(i as int, all.len() as int)),
        decreases entries.len() - i,
    {
        let ghost rest = all.subrange(i as int, all.len() as int);
        assert(rest[0] == entries[i as int]@);
        assert(rest.drop_first() =~= all.subrange(i + 1, all.len() as int));
        match &entries[i] {
            UdcEntry::Named(name) => {
                return Ok(name.clone());
            },
            UdcEntry::Unreadable => {
                return Err(GadgetError::ListingFailed);
            },
            UdcEntry::Unnamed => {},
        }
        i = i + 1;
    }
    Err(GadgetError::NoController)
}

// ---------------------------------------------------------------------------
// Waiting for the host
// ---------------------------------------------------------------------------

/// What the wait for the upstream host has to remember: whether the
/// "awaiting host" message was already surfaced.
#[derive(Clone, Copy, Debug, PartialEq, Eq, Structural)]
pub struct HostWait {
    pub announced: bool,
}

/// What to do after one read of the controller's state.
#[derive(Clone, Copy, Debug, PartialEq, Eq, Structural)]
pub enum WaitStep {
    /// The host has configured the gadget.
    Connected,
    /// Read again after [`HOST_POLL_MILLIS`]; surface the message first if
    /// `announce` is set.
    Waiting { announce: bool },
}

/// Whether a state text says that the host has configured the gadget.
pub open spec fn is_configured(state: Seq<char>) -> bool {
    trimmed(state) == "configured"@
}

/// Tells whether the controller's state file reports a configured gadget.
pub fn state_is_configured(state: &str) -> (b: bool)
    ensures
        b == is_configured(state@),
{
    let chars = chars_of(state);
    let (a, z) = trim_range(&chars, 0, chars.len());
    assert(chars@.subrange(0, chars.len() as int) =~= chars@);
    let want = chars_of("configured");
    if z - a != want.len() {
        return false;
    }
    let b = matches_at(&chars, a, z, &want);
    assert(chars@.subrange(0, z as int).subrange(a as int, a + want.len()) =~= chars@.subrange(
        a as int,
        z as int,
    ));
    b
}

impl HostWait {
    /// A wait that has surfaced nothing yet.
    pub fn new() -> (w: HostWait)
        ensures
            w.announced == false,
    {
        HostWait { announced: false }
    }
}

/// Takes one read of the controller's state: its text, or `None` where the
/// file could not be read.
///
/// The host is connected once the text, trimmed, is `configured`. The first
/// read of any other text surfaces the "awaiting host" message; no later read
/// does.
pub fn wait_for_host_connection(wait: &mut HostWait, state: Option<&str>) -> (step: WaitStep)
    ensures
        step == spec_wait_step(*old(wait), state),
        *final(wait) == spec_wait_next(*old(wait), state),
        old(wait).announced ==> final(wait).announced,
        step matches WaitStep::Waiting { announce } ==> (announce ==> !old(wait).announced
            && final(wait).announced),
{
    match state {
        Some(text) => {
            if state_is_configured(text) {
                WaitStep::Connected
            } else {
                let announce = !wait.announced;
                wait.announced = true;
                WaitStep::Waiting { announce }
            }
        },
        None => WaitStep::Waiting { announce: false },
    }
}

/// The step that follows a read of the controller's state.
pub open spec fn spec_wait_step(wait: HostWait, state: Option<&str>) -> WaitStep {
    match state {
        Some(text) => if is_configured(text@) {
            WaitStep::Connected
        } else {
            WaitStep::Waiting { announce: !wait.announced }
        },
        None => WaitStep::Waiting { announce: false },
    }
}

/// What the wait remembers after a read of the controller's state.
pub open spec fn spec_wait_next(wait: HostWait, state: Option<&str>) -> HostWait {
    match state {
        Some(text) => if is_configured(text@) {
            wait
        } else {
            HostWait { announced: true }
        },
        None => wait,
    }
}

// ---------------------------------------------------------------------------
// Teardown
// ---------------------------------------------------------------------------

/// One entry of a directory listing: its name and what kind of thing it is.
#[derive(Debug, PartialEq, Eq)]
pub struct DirEntry {
    pub name: String,
    pub is_symlink: bool,
    pub is_dir: bool,
}

/// Mathematical content of a [`DirEntry`].
pub ghost struct DirEntryView {
    pub name: Seq<char>,
    pub is_symlink: bool,
    pub is_dir: bool,
}

impl View for DirEntry {
    type V = DirEntryView;

    open spec fn view(&self) -> DirEntryView {
        DirEntryView { name: self.name@, is_symlink: self.is_symlink, is_dir: self.is_dir }
    }
}

/// The views of a directory listing.
pub open spec fn entry_views(v: Seq<DirEntry>) -> Seq<DirEntryView> {
    Seq::new(v.len(), |i: int| v[i]@)
}

/// Whether a name is that of a gadget function: it begins with `hid.usb`.
pub open spec fn is_function_name(name: Seq<char>) -> bool {
    has_prefix(name, "hid.usb"@)
}

/// Removal of every symbolic link in `entries` that is named like a function,
/// in the order of the listing.
pub open spec fn link_removals(dir: Seq<char>, entries: Seq<DirEntryView>) -> Seq<FsOpView>
    decreases entries.len(),
{
    if entries.len() == 0 {
        Seq::empty()
    } else {
        let before = link_removals(dir, entries.drop_last());
        let e = entries.last();
        if e.is_symlink && is_function_name(e.name) {
            before.push(FsOpView::RemoveFile { path: child_path(dir, e.name) })
        } else {
            before
        }
    }
}

/// Removal of every directory in `entries` that is named like a function, in
/// the order of the listing.
pub open spec fn function_removals(dir: Seq<char>, entries: Seq<DirEntryView>) -> Seq<FsOpView>
    decreases entries.len(),
{
    if entries.len() == 0 {
        Seq::empty()
    } else {
        let before = function_removals(dir, entries.drop_last());
        let e = entries.last();
        if e.is_dir && is_function_name(e.name) {
            before.push(FsOpView::RemoveDirAll { path: child_path(dir, e.name) })
        } else {
            before
        }
    }
}

/// The teardown of the gadget at `base`: nothing where the root does not
/// exist; else unbind the controller, wait, unlink the functions from the
/// configuration, remove the configuration, the functions, the strings and at
/// last the root.
pub open spec fn teardown_ops(
    base: Seq<char>,
    exists: bool,
    config_entries: Seq<DirEntryView>,
    function_entries: Seq<DirEntryView>,
) -> Seq<FsOpView> {
    if !exists {
        Seq::empty()
    } else {
        seq![
            FsOpView::WriteText { path: child_path(base, "UDC"@), content: Seq::empty() },
            FsOpView::Sleep { millis: UNBIND_SETTLE_MILLIS },
        ] + link_removals(config_dir(base), config_entries) + seq![
            FsOpView::RemoveDirAll { path: config_dir(base) },
        ] + function_removals(child_path(base, "functions"@), function_entries) + seq![
            FsOpView::RemoveDirAll { path: strings_dir(base) },
            FsOpView::RemoveDirAll { path: base },
        ]
    }
}

fn names_function(name: &str) -> (b: bool)
    ensures
        b == is_function_name(name@),
{
    crate::text::starts_with(name, "hid.usb")
}

/// Plans the removal of the gadget at `base_path`.
///
/// `exists` tells whether the root exists; the two listings are those of its
/// configuration directory and of its functions directory, empty where they
/// could not be read.
pub fn teardown_gadget(
    base_path: &str,
    exists: bool,
    config_entries: &Vec<DirEntry>,
    function_entries: &Vec<DirEntry>,
) -> (ops: Vec<FsOp>)
    ensures
        op_views(ops@) == teardown_ops(
            base_path@,
            exists,
            entry_views(config_entries@),
            entry_views(function_entries@),
        ),
        !exists ==> ops.len() == 0,
{
    let mut ops: Vec<FsOp> = Vec::new();
    if !exists {
        assert(op_views(ops@) =~= Seq::<FsOpView>::empty());
        return ops;
    }
    let ghost cfg = entry_views(config_entries@);
    let ghost fns = entry_views(function_entries@);
    ops.push(FsOp::WriteText { path: child(base_path, "UDC"), content: String::new() });
    ops.push(FsOp::Sleep { millis: UNBIND_SETTLE_MILLIS });
    let ghost head = seq![
        FsOpView::WriteText { path: child_path(base_path@, "UDC"@), content: Seq::empty() },
        FsOpView::Sleep { millis: UNBIND_SETTLE_MILLIS },
    ];
    assert(op_views(ops@) =~= head);

    let config = child(base_path, "configs/c.1");
    let mut i: usize = 0;
    assert(cfg.subrange(0, 0) =~= Seq::<DirEntryView>::empty());
    assert(op_views(ops@) =~= head + link_removals(config@, cfg.subrange(0, 0)));
    while i < config_entries.len()
        invariant
            i <= config_entries.len(),
            cfg == entry_views(config_entries@),
            config@ == config_dir(base_path@),
            op_views(ops@) == head + link_removals(config@, cfg.subrange(0, i as int)),
        decreases config_entries.len() - i,
    {
        let e = &config_entries[i];
        let ghost before = op_views(ops@);
        let ghost seen = link_removals(config@, cfg.subrange(0, i as int));
        assert(cfg.subrange(0, i + 1).drop_last() =~= cfg.subrange(0, i as int));
        assert(cfg.subrange(0, i + 1).last() == e@);
        if e.is_symlink && names_function(e.name.as_str()) {
            ops.push(FsOp::RemoveFile { path: child(config.as_str(), e.name.as_str()) });
            assert(op_views(ops@) =~= before.push(
                FsOpView::RemoveFile { path: child_path(config@, e.name@) },
            ));
            assert(link_removals(config@, cfg.subrange(0, i + 1)) == seen.push(
                FsOpView::RemoveFile { path: child_path(config@, e.name@) },
            ));
            assert((head + seen).push(FsOpView::RemoveFile { path: child_path(config@, e.name@) })
                =~= head + seen.push(FsOpView::RemoveFile { path: child_path(config@, e.name@) }));
        } else {
            assert(link_removals(config@, cfg.subrange(0, i + 1)) == seen);
        }
        i = i + 1;
    }
    assert(cfg.subrange(0, i as int) =~= cfg);
    ops.push(FsOp::RemoveDirAll { path: config.clone() });
    let ghost middle = head + link_removals(config@, cfg) + seq![
        FsOpView::RemoveDirAll { path: config_dir(base_path@) },
    ];
    assert(op_views(ops@) =~= middle);

    let functions = child(base_path, "functions");
    let mut j: usize = 0;
    assert(fns.subrange(0, 0) =~= Seq::<DirEntryView>::empty());
    assert(op_views(ops@) =~= middle + function_removals(functions@, fns.subrange(0, 0)));
    while j < function_entries.len()
        invariant
            j <= function_entries.len(),
            fns == entry_views(function_entries@),
            functions@ == child_path(base_path@, "functions"@),
            op_views(ops@) == middle + function_removals(functions@, fns.subrange(0, j as int)),
        decreases function_entries.len() - j,
    {
        let e = &function_entries[j];
        let ghost before = op_views(ops@);
        let ghost seen = function_removals(functions@, fns.subrange(0, j as int));
        assert(fns.subrange(0, j + 1).drop_last() =~= fns.subrange(0, j as int));
        assert(fns.subrange(0, j + 1).last() == e@);
        if e.is_dir && names_function(e.name.as_str()) {
            ops.push(FsOp::RemoveDirAll { path: child(functions.as_str(), e.name.as_str()) });
            assert(op_views(ops@) =~= before.push(
                FsOpView::RemoveDirAll { path: child_path(functions@, e.name@) },
            ));
            assert(function_removals(functions@, fns.subrange(0, j + 1)) == seen.push(
                FsOpView::RemoveDirAll { path: child_path(functions@, e.name@) },
            ));
            assert((middle + seen).push(
                FsOpView::RemoveDirAll { path: child_path(functions@, e.name@) },
            ) =~= middle + seen.push(
                FsOpView::RemoveDirAll { path: child_path(functions@, e.name@) },
            ));
        } else {
            assert(function_removals(functions@, fns.subrange(0, j + 1)) == seen);
        }
        j = j + 1;
    }
    assert(fns.subrange(0, j as int) =~= fns);
    ops.push(FsOp::RemoveDirAll { path: child(base_path, "strings/0x409") });
    ops.push(FsOp::RemoveDirAll { path: String::from_str(base_path) });
    assert(op_views(ops@) =~= teardown_ops(base_path@, exists, cfg, fns));
    ops
}

/// A report of [`RELEASE_REPORT_LEN`] zero bytes.
pub open spec fn release_report() -> Seq<u8> {
    Seq::new(RELEASE_REPORT_LEN as nat, |i: int| 0u8)
}

/// One all-zero report written to each of the first `count` character
/// devices.
pub open spec fn release_ops(count: nat) -> Seq<FsOpView> {
    Seq::new(
        count,
        |i: int| FsOpView::WriteDevice { path: device_path(i as nat), data: release_report() },
    )
}

/// The emergency cleanup: where the gadget exists, an all-zero report to the
/// character device of each listed function; then the teardown.
pub open spec fn emergency_ops(
    exists: bool,
    config_entries: Seq<DirEntryView>,
    function_entries: Seq<DirEntryView>,
) -> Seq<FsOpView> {
    (if exists {
        release_ops(function_entries.len())
    } else {
        Seq::empty()
    }) + teardown_ops(gadget_root(), exists, config_entries, function_entries)
}

fn zero_report() -> (v: Vec<u8>)
    ensures
        v@ == release_report(),
{
    let mut v: Vec<u8> = Vec::new();
    let mut i: usize = 0;
    while i < RELEASE_REPORT_LEN
        invariant
            i <= RELEASE_REPORT_LEN,
            v.len() == i,
            forall|k: int| 0 <= k < i ==> v[k] == 0u8,
        decreases RELEASE_REPORT_LEN - i,
    {
        v.push(0);
        i = i + 1;
    }
    assert(v@ =~= release_report());
    v
}

/// Plans the cleanup on termination while a gadget is bound: a zero-filled
/// report of 64 bytes to each `/dev/hidg{i}`, which releases held keys and
/// buttons on the host, then the full teardown of the gadget.
pub fn cleanup_gadget_emergency(
    exists: bool,
    config_entries: &Vec<DirEntry>,
    function_entries: &Vec<DirEntry>,
) -> (ops: Vec<FsOp>)
    ensures
        op_views(ops@) == emergency_ops(
            exists,
            entry_views(config_entries@),
            entry_views(function_entries@),
        ),
{
    let mut ops: Vec<FsOp> = Vec::new();
    if exists {
        let mut i: usize = 0;
        while i < function_entries.len()
            invariant
                i <= function_entries.len(),
                ops.len() == i,
                forall|k: int| 0 <= k < i ==> (#[trigger] ops[k])@ == release_ops(i as nat)[k],
            decreases function_entries.len() - i,
        {
            ops.push(FsOp::WriteDevice { path: device_path_string(i), data: zero_report() });
            i = i + 1;
        }
        assert(op_views(ops@) =~= release_ops(function_entries.len() as nat));
    } else {
        assert(op_views(ops@) =~= Seq::<FsOpView>::empty());
    }
    let ghost head = op_views(ops@);
    let base = gadget_root_string();
    let mut rest = teardown_gadget(base.as_str(), exists, config_entries, function_entries);
    let ghost tail = op_views(rest@);
    ops.append(&mut rest);
    assert(op_views(ops@) =~= head + tail);
    ops
}

// ---------------------------------------------------------------------------
// The whole build
// ---------------------------------------------------------------------------

/// Everything that a gadget build does, in order.
#[derive(Debug, PartialEq, Eq)]
pub struct GadgetBuild {
    /// Removal of any prior instance. Failures are ignored.
    pub teardown: Vec<FsOp>,
    /// Creation of the tree and, where a controller was found, the binding
    /// to it. Every operation must succeed.
    pub build: Vec<FsOp>,
    /// The character devices of the gadget by function index, or the reason
    /// why the gadget cannot be bound.
    pub outcome: Result<Vec<String>, GadgetError>,
}

/// The binding to the controller that a listing yields; nothing where it
/// yields none.
pub open spec fn binding_ops(entries: Seq<UdcEntryView>) -> Seq<FsOpView> {
    match first_controller(entries) {
        Ok(name) => seq![bind_op(name)],
        Err(_) => Seq::empty(),
    }
}

/// Plans a gadget build from the device, the virtual interfaces that the
/// script requested, what is left of a prior gadget and the listing of the
/// controller directory.
///
/// Any prior instance is removed; the tree is created with one function per
/// physical interface followed by one per request; where the listing yields a
/// controller its name is written to the root's `UDC` file, which makes the
/// kernel enumerate the gadget with the upstream host, and the outcome is the
/// list of character devices `/dev/hidg{i}`. Without a controller the tree is
/// still created and the outcome is the error.
pub fn create_gadget(
    device: &CompoundHIDevice,
    requests: &Vec<VirtualDeviceType>,
    exists: bool,
    config_entries: &Vec<DirEntry>,
    function_entries: &Vec<DirEntry>,
    controllers: &Vec<UdcEntry>,
) -> (b: GadgetBuild)
    ensures
        op_views(b.teardown@) == teardown_ops(
            gadget_root(),
            exists,
            entry_views(config_entries@),
            entry_views(function_entries@),
        ),
        op_views(b.build@) == create_ops(device@, requests@) + binding_ops(
            udc_views(controllers@),
        ),
        match b.outcome {
            Ok(paths) => first_controller(udc_views(controllers@)) is Ok && text_views(paths@)
                == device_paths((device.interfaces.len() + requests.len()) as nat),
            Err(e) => first_controller(udc_views(controllers@)) == Err::<Seq<char>, GadgetError>(
                e,
            ),
        },
{
    let base = gadget_root_string();
    let teardown = teardown_gadget(base.as_str(), exists, config_entries, function_entries);
    let plan = gadget_tree(device, requests);
    let mut build = plan.ops;
    let ghost tree = op_views(build@);
    match find_udc_controller(controllers) {
        Ok(name) => {
            build.push(bind_gadget(name.as_str()));
            assert(op_views(build@) =~= tree + seq![bind_op(name@)]);
            GadgetBuild { teardown, build, outcome: Ok(plan.device_paths) }
        },
        Err(e) => {
            assert(op_views(build@) =~= tree + Seq::<FsOpView>::empty());
            GadgetBuild { teardown, build, outcome: Err(e) }
        },
    }
}

// ---------------------------------------------------------------------------
// What holds of every plan
// ---------------------------------------------------------------------------

/// The number of gadget functions is the number of physical interfaces plus
/// the number of requested virtual interfaces.
pub proof fn function_count_is_sum(device: CompoundHIDeviceView, requests: Seq<VirtualDeviceType>)
    ensures
        spec_gadget_functions(device, requests).len() == device.interfaces.len() + requests.len(),
{
}

/// The physical interfaces take the first indices, in their order.
pub proof fn physical_functions_come_first(
    device: CompoundHIDeviceView,
    requests: Seq<VirtualDeviceType>,
    i: int,
)
    requires
        0 <= i < device.interfaces.len(),
    ensures
        spec_gadget_functions(device, requests)[i] == physical_function(device.interfaces[i]),
{
}

/// The virtual interfaces follow the physical ones in the order in which they
/// were requested: request `j` is the function at index `physical count + j`,
/// with the protocol, report length and descriptor of its kind.
pub proof fn virtual_functions_follow_requests(
    device: CompoundHIDeviceView,
    requests: Seq<VirtualDeviceType>,
    j: int,
)
    requires
        0 <= j < requests.len(),
    ensures
        spec_gadget_functions(device, requests)[device.interfaces.len() + j] == virtual_function(
            requests[j],
        ),
{
}

/// Six operations are planned for each function.
pub proof fn functions_ops_len(base: Seq<char>, fns: Seq<GadgetFunctionView>, count: nat)
    ensures
        functions_ops(base, fns, count).len() == 6 * count,
    decreases count,
{
    if count > 0 {
        functions_ops_len(base, fns, (count - 1) as nat);
    }
}

/// The operations of function `i` stand together, at `6 * i` and after.
pub proof fn functions_ops_at(
    base: Seq<char>,
    fns: Seq<GadgetFunctionView>,
    count: nat,
    i: nat,
    k: int,
)
    requires
        i < count,
        0 <= k < 6,
    ensures
        functions_ops(base, fns, count).len() == 6 * count,
        functions_ops(base, fns, count)[6 * i + k] == function_ops(base, i, fns[i as int])[k],
    decreases count,
{
    functions_ops_len(base, fns, count);
    functions_ops_len(base, fns, (count - 1) as nat);
    if i < count - 1 {
        functions_ops_at(base, fns, (count - 1) as nat, i, k);
    }
}

/// For every function index of a gadget, the plan creates the function's
/// directory and links it into the configuration under the function's name,
/// and the list of character devices holds `/dev/hidg` with that index at
/// that index.
pub proof fn every_function_is_linked(
    device: CompoundHIDeviceView,
    requests: Seq<VirtualDeviceType>,
    i: nat,
)
    requires
        i < device.interfaces.len() + requests.len(),
    ensures
        create_ops(device, requests).contains(
            FsOpView::CreateDirAll { path: function_dir(gadget_root(), i) },
        ),
        create_ops(device, requests).contains(
            FsOpView::Symlink {
                target: function_dir(gadget_root(), i),
                link: child_path(config_dir(gadget_root()), function_name(i)),
            },
        ),
        device_paths((device.interfaces.len() + requests.len()) as nat)[i as int] == device_path(i),
{
    let fns = spec_gadget_functions(device, requests);
    let head = identity_ops(gadget_root(), device) + strings_ops(gadget_root(), device)
        + config_ops(gadget_root());
    let all = create_ops(device, requests);
    functions_ops_at(gadget_root(), fns, fns.len(), i, 0);
    functions_ops_at(gadget_root(), fns, fns.len(), i, 5);
    assert(all == head + functions_ops(gadget_root(), fns, fns.len()));
    assert(all[head.len() as int + 6 * i] == function_ops(gadget_root(), i, fns[i as int])[0]);
    assert(all[head.len() as int + 6 * i + 5] == function_ops(gadget_root(), i, fns[i as int])[5]);
}

/// Whether `path` is `dir` or lies below it.
pub open spec fn is_under(path: Seq<char>, dir: Seq<char>) -> bool {
    path == dir || has_prefix(path, dir + "/"@)
}

/// The effect of one operation on the set of paths that exist, where the
/// operation succeeds.
pub open spec fn apply_op(paths: Set<Seq<char>>, op: FsOpView) -> Set<Seq<char>> {
    match op {
        FsOpView::CreateDirAll { path } => paths.insert(path),
        FsOpView::WriteText { path, .. } => paths.insert(path),
        FsOpView::WriteBytes { path, .. } => paths.insert(path),
        FsOpView::WriteDevice { .. } => paths,
        FsOpView::Symlink { link, .. } => paths.insert(link),
        FsOpView::RemoveFile { path } => paths.remove(path),
        FsOpView::RemoveDirAll { path } => Set::new(
            |p: Seq<char>| paths.contains(p) && !is_under(p, path),
        ),
        FsOpView::Sleep { .. } => paths,
    }
}

/// The effect of a list of operations, carried out in order.
pub open spec fn apply_ops(paths: Set<Seq<char>>, ops: Seq<FsOpView>) -> Set<Seq<char>>
    decreases ops.len(),
{
    if ops.len() == 0 {
        paths
    } else {
        apply_op(apply_ops(paths, ops.drop_last()), ops.last())
    }
}

/// The paths that exist after a teardown of the gadget at `base`, planned
/// from the given listings.
pub open spec fn after_teardown(
    paths: Set<Seq<char>>,
    base: Seq<char>,
    config_entries: Seq<DirEntryView>,
    function_entries: Seq<DirEntryView>,
) -> Set<Seq<char>> {
    apply_ops(
        paths,
        teardown_ops(base, paths.contains(base), config_entries, function_entries),
    )
}

/// A teardown leaves no gadget root behind.
pub proof fn teardown_removes_root(
    paths: Set<Seq<char>>,
    base: Seq<char>,
    config_entries: Seq<DirEntryView>,
    function_entries: Seq<DirEntryView>,
)
    ensures
        !after_teardown(paths, base, config_entries, function_entries).contains(base),
{
    if paths.contains(base) {
        let ops = teardown_ops(base, true, config_entries, function_entries);
        assert(ops.last() == (FsOpView::RemoveDirAll { path: base }));
    }
}

/// Running the teardown twice in succession leaves the same paths as running
/// it once, whatever the second run finds listed.
pub proof fn teardown_is_idempotent(
    paths: Set<Seq<char>>,
    base: Seq<char>,
    config_entries: Seq<DirEntryView>,
    function_entries: Seq<DirEntryView>,
    config_entries_again: Seq<DirEntryView>,
    function_entries_again: Seq<DirEntryView>,
)
    ensures
        after_teardown(
            after_teardown(paths, base, config_entries, function_entries),
            base,
            config_entries_again,
            function_entries_again,
        ) == after_teardown(paths, base, config_entries, function_entries),
{
    teardown_removes_root(paths, base, config_entries, function_entries);
}

} // verus!
