//! The state of one proxy session and the decisions of the report router.
//!
//! The router reads from the physical device and from the gadget's character
//! devices; what to do with the outcome of each read and of each write is
//! decided here.

use crate::bindings::{DeviceType, Interface, InterfaceType};
use crate::device::{CompoundHIDeviceView, HIDevice, HIDeviceView};
use crate::gadget::{
    device_path, device_path_string, device_paths, spec_gadget_functions, text_views,
    virtual_function,
};
use crate::usb::Direction;
use crate::virtual_device::VirtualDeviceType;
use vstd::prelude::*;

verus! {

/// `errno` of a write that would block.
pub const EAGAIN: i32 = 11;

/// `errno` of a write to an endpoint that was shut down.
pub const ESHUTDOWN: i32 = 108;

/// Milliseconds to wait before a gadget write is tried again.
pub const WRITE_BACKOFF_MILLIS: u64 = 1;

/// Size of the buffer for one read from a gadget character device.
pub const GADGET_READ_LEN: usize = 64;

// ---------------------------------------------------------------------------
// Session state
// ---------------------------------------------------------------------------

/// What a session shares between router and script: the primary physical
/// interface, the number of physical interfaces, the virtual interfaces that
/// the script requested, and the character device of every gadget function
/// once the gadget is up.
#[derive(Debug)]
pub struct GlobalState {
    target_info: HIDevice,
    num_physical_interfaces: usize,
    virtual_device_requests: Vec<VirtualDeviceType>,
    frozen: bool,
    gadget_writers: Vec<String>,
}

impl GlobalState {
    /// The primary physical interface.
    pub closed spec fn target(&self) -> HIDeviceView {
        self.target_info@
    }

    /// Number of physical interfaces.
    pub closed spec fn physical_count(&self) -> nat {
        self.num_physical_interfaces as nat
    }

    /// The virtual interfaces requested so far, in order.
    pub closed spec fn requests(&self) -> Seq<VirtualDeviceType> {
        self.virtual_device_requests@
    }

    /// Whether the list of requests is closed.
    pub closed spec fn is_frozen(&self) -> bool {
        self.frozen
    }

    /// The path of the open character device of each gadget index.
    pub closed spec fn writers(&self) -> Seq<Seq<char>> {
        text_views(self.gadget_writers@)
    }

    /// Number of gadget functions: physical interfaces plus requests.
    pub open spec fn function_count(&self) -> nat {
        self.physical_count() + self.requests().len()
    }

    /// Whether the session has its writers: the requests are frozen and there
    /// is exactly one writer per gadget function, the writer of index `i`
    /// being `/dev/hidg{i}`.
    pub open spec fn is_running(&self) -> bool {
        self.is_frozen() && self.writers() == device_paths(self.function_count())
    }

    /// What holds of a session at all times: the functions can be counted,
    /// and there are either no writers yet or those of a running session.
    pub open spec fn well_formed(&self) -> bool {
        &&& self.function_count() <= usize::MAX
        &&& (self.writers().len() == 0 || self.is_running())
    }

    #[verifier::type_invariant]
    spec fn inv(&self) -> bool {
        self.well_formed()
    }

    /// A session for the device whose primary interface is `target_info`,
    /// with no request and no writer yet.
    pub fn new(target_info: HIDevice, num_physical_interfaces: usize) -> (state: GlobalState)
        ensures
            state.target() == target_info@,
            state.physical_count() == num_physical_interfaces,
            state.requests() == Seq::<VirtualDeviceType>::empty(),
            !state.is_frozen(),
            state.writers().len() == 0,
            state.well_formed(),
    {
        let state = GlobalState {
            target_info,
            num_physical_interfaces,
            virtual_device_requests: Vec::new(),
            frozen: false,
            gadget_writers: Vec::new(),
        };
        assert(state.writers() =~= Seq::<Seq<char>>::empty());
        state
    }

    pub fn target_info(&self) -> (info: &HIDevice)
        ensures
            info@ == self.target(),
    {
        &self.target_info
    }

    pub fn num_physical_interfaces(&self) -> (n: usize)
        ensures
            n == self.physical_count(),
    {
        self.num_physical_interfaces
    }

    pub fn virtual_device_requests(&self) -> (requests: &Vec<VirtualDeviceType>)
        ensures
            requests@ == self.requests(),
    {
        &self.virtual_device_requests
    }

    pub fn frozen(&self) -> (b: bool)
        ensures
            b == self.is_frozen(),
    {
        self.frozen
    }

    /// Number of gadget functions of this session.
    pub fn num_functions(&self) -> (n: usize)
        ensures
            n == self.function_count(),
    {
        proof {
            use_type_invariant(self);
        }
        self.num_physical_interfaces + self.virtual_device_requests.len()
    }

    /// The character device that takes the reports of gadget index `index`,
    /// if the session has its writers and the index is one of its functions.
    pub fn gadget_writer(&self, index: usize) -> (path: Option<&String>)
        ensures
            match path {
                Some(p) => index < self.writers().len() && p@ == self.writers()[index as int],
                None => index >= self.writers().len(),
            },
            self.is_running() && index < self.function_count() ==> path is Some && path->0@
                == device_path(index as nat),
    {
        if index < self.gadget_writers.len() {
            Some(&self.gadget_writers[index])
        } else {
            None
        }
    }

    /// Queues a request for a virtual interface of the given kind and hands
    /// out its handle. The handle's index is the number of physical
    /// interfaces plus the number of requests made before this one.
    ///
    /// Once the requests are frozen nothing is queued and there is no handle.
    /// The same holds where one more function could not be counted.
    pub fn create_virtual(&mut self, kind: VirtualDeviceType) -> (handle: Option<Interface>)
        ensures
            final(self).target() == old(self).target(),
            final(self).physical_count() == old(self).physical_count(),
            final(self).is_frozen() == old(self).is_frozen(),
            final(self).writers() == old(self).writers(),
            handle is Some <==> !old(self).is_frozen() && old(self).function_count() < usize::MAX,
            handle is Some ==> final(self).requests() == old(self).requests().push(kind)
                && handle->0 == spec_virtual_handle(
                old(self).function_count(),
                kind,
            ),
            handle is None ==> final(self).requests() == old(self).requests(),
            final(self).well_formed(),
            old(self).is_running() ==> final(self).is_running() && handle is None,
    {
        proof {
            use_type_invariant(&*self);
        }
        let count = self.num_physical_interfaces + self.virtual_device_requests.len();
        if self.frozen || count == usize::MAX {
            return None;
        }
        assert(self.writers().len() == 0);
        let mut requests = self.virtual_device_requests.clone();
        assert(requests@ =~= self.virtual_device_requests@);
        requests.push(kind);
        self.virtual_device_requests = requests;
        let dev_type = match kind {
            VirtualDeviceType::Keyboard => DeviceType::Keyboard,
            VirtualDeviceType::Mouse => DeviceType::Mouse,
        };
        Some(Interface::new_virtual(count, dev_type))
    }

    /// Requests a virtual keyboard.
    pub fn create_virtual_keyboard(&mut self) -> (handle: Option<Interface>)
        ensures
            final(self).target() == old(self).target(),
            final(self).physical_count() == old(self).physical_count(),
            final(self).is_frozen() == old(self).is_frozen(),
            final(self).writers() == old(self).writers(),
            handle is Some <==> !old(self).is_frozen() && old(self).function_count() < usize::MAX,
            handle is Some ==> final(self).requests() == old(self).requests().push(
                VirtualDeviceType::Keyboard,
            ) && handle->0 == spec_virtual_handle(
                old(self).function_count(),
                VirtualDeviceType::Keyboard,
            ),
            handle is None ==> final(self).requests() == old(self).requests(),
            final(self).well_formed(),
            old(self).is_running() ==> final(self).is_running() && handle is None,
    {
        self.create_virtual(VirtualDeviceType::Keyboard)
    }

    /// Requests a virtual mouse.
    pub fn create_virtual_mouse(&mut self) -> (handle: Option<Interface>)
        ensures
            final(self).target() == old(self).target(),
            final(self).physical_count() == old(self).physical_count(),
            final(self).is_frozen() == old(self).is_frozen(),
            final(self).writers() == old(self).writers(),
            handle is Some <==> !old(self).is_frozen() && old(self).function_count() < usize::MAX,
            handle is Some ==> final(self).requests() == old(self).requests().push(
                VirtualDeviceType::Mouse,
            ) && handle->0 == spec_virtual_handle(
                old(self).function_count(),
                VirtualDeviceType::Mouse,
            ),
            handle is None ==> final(self).requests() == old(self).requests(),
            final(self).well_formed(),
            old(self).is_running() ==> final(self).is_running() && handle is None,
    {
        self.create_virtual(VirtualDeviceType::Mouse)
    }

    /// Closes the list of requests and hands it to the gadget builder. Only
    /// the first call yields the list.
    pub fn freeze(&mut self) -> (requests: Option<Vec<VirtualDeviceType>>)
        ensures
            final(self).target() == old(self).target(),
            final(self).physical_count() == old(self).physical_count(),
            final(self).requests() == old(self).requests(),
            final(self).writers() == old(self).writers(),
            final(self).is_frozen(),
            requests is Some <==> !old(self).is_frozen(),
            requests is Some ==> requests->0@ == old(self).requests(),
            final(self).well_formed(),
            old(self).is_running() ==> final(self).is_running() && requests is None,
    {
        proof {
            use_type_invariant(&*self);
        }
        if self.frozen {
            return None;
        }
        self.frozen = true;
        let copy = self.virtual_device_requests.clone();
        assert(copy@ =~= self.virtual_device_requests@);
        Some(copy)
    }

    /// Takes the character devices of the gadget, once, at the start of the
    /// session. They are accepted where the requests are frozen, no writers
    /// were taken before, and `paths` holds `/dev/hidg{i}` at every index `i`
    /// of a gadget function and nothing else; then the session is running.
    /// Otherwise nothing changes.
    pub fn open_writers(&mut self, paths: Vec<String>) -> (accepted: bool)
        ensures
            final(self).target() == old(self).target(),
            final(self).physical_count() == old(self).physical_count(),
            final(self).requests() == old(self).requests(),
            final(self).is_frozen() == old(self).is_frozen(),
            accepted <==> old(self).is_frozen() && old(self).writers().len() == 0 && text_views(
                paths@,
            ) == device_paths(old(self).function_count()),
            accepted ==> final(self).is_running(),
            !accepted ==> final(self).writers() == old(self).writers(),
            final(self).well_formed(),
            old(self).is_running() ==> final(self).is_running(),
    {
        proof {
            use_type_invariant(&*self);
        }
        let count = self.num_physical_interfaces + self.virtual_device_requests.len();
        if !self.frozen || self.gadget_writers.len() != 0 || paths.len() != count {
            assert(text_views(paths@).len() == paths.len());
            return false;
        }
        let mut i: usize = 0;
        while i < count
            invariant
                i <= count,
                count == paths.len(),
                count == old(self).function_count(),
                *self == *old(self),
                self.well_formed(),
                forall|k: int| 0 <= k < i ==> (#[trigger] paths[k])@ == device_path(k as nat),
            decreases count - i,
        {
            let want = device_path_string(i);
            let same = paths[i] == want;
            if !same {
                assert(text_views(paths@)[i as int] != device_paths(count as nat)[i as int]);
                return false;
            }
            i = i + 1;
        }
        assert(text_views(paths@) =~= device_paths(count as nat));
        self.gadget_writers = paths;
        true
    }
}

/// The handle of the virtual interface at gadget index `index`.
pub open spec fn spec_virtual_handle(index: nat, kind: VirtualDeviceType) -> Interface {
    Interface {
        iface_type: InterfaceType::Virtual,
        dev_type: match kind {
            VirtualDeviceType::Keyboard => DeviceType::Keyboard,
            VirtualDeviceType::Mouse => DeviceType::Mouse,
        },
        index: index as usize,
    }
}

/// The handles that a script gets for the requests `kinds`, made in this
/// order on a session with `physical` physical interfaces and no request yet.
pub open spec fn handles_for(physical: nat, kinds: Seq<VirtualDeviceType>) -> Seq<Interface> {
    Seq::new(kinds.len(), |j: int| spec_virtual_handle(physical + j as nat, kinds[j]))
}

/// `keyboards` requests for a keyboard followed by `mice` requests for a
/// mouse.
pub open spec fn keyboards_then_mice(keyboards: nat, mice: nat) -> Seq<VirtualDeviceType> {
    Seq::new(
        keyboards + mice,
        |j: int|
            if j < keyboards {
                VirtualDeviceType::Keyboard
            } else {
                VirtualDeviceType::Mouse
            },
    )
}

/// Virtual requests are served in order: after `keyboards` requests for a
/// keyboard and `mice` requests for a mouse on a device with `physical`
/// interfaces, the gadget's functions from index `physical` on are first the
/// keyboards, then the mice, and the handle of request `j` names index
/// `physical + j`.
pub proof fn virtual_request_determinism(
    device: CompoundHIDeviceView,
    keyboards: nat,
    mice: nat,
    j: int,
)
    requires
        0 <= j < keyboards + mice,
        device.interfaces.len() + keyboards + mice <= usize::MAX,
    ensures
        spec_gadget_functions(device, keyboards_then_mice(keyboards, mice)).len()
            == device.interfaces.len() + keyboards + mice,
        handles_for(device.interfaces.len(), keyboards_then_mice(keyboards, mice))[j].index
            == device.interfaces.len() + j,
        handles_for(device.interfaces.len(), keyboards_then_mice(keyboards, mice))[j].iface_type
            == InterfaceType::Virtual,
        j < keyboards ==> {
            &&& handles_for(
                device.interfaces.len(),
                keyboards_then_mice(keyboards, mice),
            )[j].dev_type == DeviceType::Keyboard
            &&& spec_gadget_functions(
                device,
                keyboards_then_mice(keyboards, mice),
            )[device.interfaces.len() + j] == virtual_function(VirtualDeviceType::Keyboard)
        },
        j >= keyboards ==> {
            &&& handles_for(
                device.interfaces.len(),
                keyboards_then_mice(keyboards, mice),
            )[j].dev_type == DeviceType::Mouse
            &&& spec_gadget_functions(
                device,
                keyboards_then_mice(keyboards, mice),
            )[device.interfaces.len() + j] == virtual_function(VirtualDeviceType::Mouse)
        },
{
}

// ---------------------------------------------------------------------------
// Router
// ---------------------------------------------------------------------------

/// Why the router gave up.
#[derive(Clone, Copy, Debug, PartialEq, Eq, Structural)]
pub enum RouterError {
    /// An interrupt read from the physical device failed.
    UsbRead,
    /// A write to a gadget character device failed with this `errno`.
    GadgetWrite { errno: i32 },
}

/// How a session ends.
#[derive(Clone, Copy, Debug, PartialEq, Eq, Structural)]
pub enum SessionEnd {
    /// The upstream host went away; the normal end of a session.
    HostDisconnected,
    /// The router failed.
    Failed(RouterError),
}

/// Outcome of one interrupt read from the physical device.
#[derive(Clone, Copy, Debug, PartialEq, Eq, Structural)]
pub enum UsbRead {
    /// So many bytes arrived.
    Bytes(usize),
    /// Nothing arrived in time.
    TimedOut,
    /// Any other error.
    Failed,
}

/// Outcome of one read from a gadget character device.
#[derive(Clone, Copy, Debug, PartialEq, Eq, Structural)]
pub enum GadgetRead {
    /// So many bytes arrived.
    Bytes(usize),
    /// The read failed.
    Failed,
}

/// What a router loop does next.
#[derive(Debug, PartialEq, Eq)]
pub enum RouterStep {
    /// Hand the report to the script, then read again.
    Deliver { direction: Direction, payload: Vec<u8> },
    /// Read again.
    Continue,
    /// Leave the loop; the session ends.
    Stop(SessionEnd),
}

/// Mathematical content of a [`RouterStep`].
pub ghost enum RouterStepView {
    Deliver { direction: Direction, payload: Seq<u8> },
    Continue,
    Stop(SessionEnd),
}

impl View for RouterStep {
    type V = RouterStepView;

    open spec fn view(&self) -> RouterStepView {
        match *self {
            RouterStep::Deliver { direction, payload } => RouterStepView::Deliver {
                direction,
                payload: payload@,
            },
            RouterStep::Continue => RouterStepView::Continue,
            RouterStep::Stop(end) => RouterStepView::Stop(end),
        }
    }
}

/// The step after an interrupt read into `buf`: a report that is not empty
/// goes to the script as `IN`; an empty read and a timeout change nothing; any
/// other error ends the session.
pub open spec fn spec_device_to_host(read: UsbRead, buf: Seq<u8>) -> RouterStepView {
    match read {
        UsbRead::Bytes(n) => if n > 0 {
            RouterStepView::Deliver { direction: Direction::In, payload: buf.subrange(0, n as int) }
        } else {
            RouterStepView::Continue
        },
        UsbRead::TimedOut => RouterStepView::Continue,
        UsbRead::Failed => RouterStepView::Stop(SessionEnd::Failed(RouterError::UsbRead)),
    }
}

/// The step after a read from a gadget character device into `buf`: a report
/// that is not empty goes to the script as `OUT`; an empty read and an error
/// mean that the host is gone.
pub open spec fn spec_host_to_device(read: GadgetRead, buf: Seq<u8>) -> RouterStepView {
    match read {
        GadgetRead::Bytes(n) => if n > 0 {
            RouterStepView::Deliver {
                direction: Direction::Out,
                payload: buf.subrange(0, n as int),
            }
        } else {
            RouterStepView::Stop(SessionEnd::HostDisconnected)
        },
        GadgetRead::Failed => RouterStepView::Stop(SessionEnd::HostDisconnected),
    }
}

fn first_bytes(buf: &Vec<u8>, n: usize) -> (head: Vec<u8>)
    requires
        n <= buf.len(),
    ensures
        head@ == buf@.subrange(0, n as int),
{
    let mut head: Vec<u8> = Vec::new();
    let mut i: usize = 0;
    while i < n
        invariant
            i <= n <= buf.len(),
            head@ == buf@.subrange(0, i as int),
        decreases n - i,
    {
        head.push(buf[i]);
        i = i + 1;
    }
    head
}

/// Decides the device-to-host loop's next step from the outcome of an
/// interrupt read into `buf`.
pub fn bridge_device_to_host(read: UsbRead, buf: &Vec<u8>) -> (step: RouterStep)
    requires
        read matches UsbRead::Bytes(n) ==> n <= buf.len(),
    ensures
        step@ == spec_device_to_host(read, buf@),
{
    match read {
        UsbRead::Bytes(n) => {
            if n > 0 {
                RouterStep::Deliver { direction: Direction::In, payload: first_bytes(buf, n) }
            } else {
                RouterStep::Continue
            }
        },
        UsbRead::TimedOut => RouterStep::Continue,
        UsbRead::Failed => RouterStep::Stop(SessionEnd::Failed(RouterError::UsbRead)),
    }
}

/// Decides the host-to-device loop's next step from the outcome of a read
/// from the gadget character device into `buf`.
pub fn bridge_host_to_device(read: GadgetRead, buf: &Vec<u8>) -> (step: RouterStep)
    requires
        read matches GadgetRead::Bytes(n) ==> n <= buf.len(),
    ensures
        step@ == spec_host_to_device(read, buf@),
{
    match read {
        GadgetRead::Bytes(n) => {
            if n > 0 {
                RouterStep::Deliver { direction: Direction::Out, payload: first_bytes(buf, n) }
            } else {
                RouterStep::Stop(SessionEnd::HostDisconnected)
            }
        },
        GadgetRead::Failed => RouterStep::Stop(SessionEnd::HostDisconnected),
    }
}

/// What follows a write to a gadget character device.
#[derive(Clone, Copy, Debug, PartialEq, Eq, Structural)]
pub enum WriteStep {
    /// The report is written.
    Done,
    /// Wait [`WRITE_BACKOFF_MILLIS`] and write again.
    Retry,
    /// The session ends.
    Stop(SessionEnd),
}

/// The step after a gadget write: done where it succeeded; a write that
/// would block is tried again; a shut-down endpoint means the host is gone;
/// any other error is a failure of the router.
pub open spec fn spec_after_gadget_write(errno: Option<i32>) -> WriteStep {
    match errno {
        None => WriteStep::Done,
        Some(code) => if code == EAGAIN {
            WriteStep::Retry
        } else if code == ESHUTDOWN {
            WriteStep::Stop(SessionEnd::HostDisconnected)
        } else {
            WriteStep::Stop(SessionEnd::Failed(RouterError::GadgetWrite { errno: code }))
        },
    }
}

/// Decides what follows a write to a gadget character device. `errno` is
/// `None` where the write succeeded, else the error's number.
pub fn after_gadget_write(errno: Option<i32>) -> (step: WriteStep)
    ensures
        step == spec_after_gadget_write(errno),
        errno == Some(EAGAIN) ==> step == WriteStep::Retry,
        errno == Some(ESHUTDOWN) ==> step == WriteStep::Stop(SessionEnd::HostDisconnected),
{
    match errno {
        None => WriteStep::Done,
        Some(code) => {
            if code == EAGAIN {
                WriteStep::Retry
            } else if code == ESHUTDOWN {
                WriteStep::Stop(SessionEnd::HostDisconnected)
            } else {
                WriteStep::Stop(SessionEnd::Failed(RouterError::GadgetWrite { errno: code }))
            }
        },
    }
}

/// Size of the buffer for one interrupt read from `info`'s IN endpoint.
pub fn device_read_len(info: &HIDevice) -> (n: usize)
    ensures
        n == info.report_len,
{
    info.report_len as usize
}

/// The character device that both router directions of gadget index
/// `interface_index` open.
pub fn setup_gadget_files(interface_index: usize) -> (path: String)
    ensures
        path@ == device_path(interface_index as nat),
{
    device_path_string(interface_index)
}

/// Whether `i` is the first index in `places` of the bus and address of
/// `target`.
pub open spec fn is_first_place(places: Seq<(u8, u8)>, i: int, target: HIDeviceView) -> bool {
    &&& 0 <= i < places.len()
    &&& places[i] == (target.bus, target.address)
    &&& forall|k: int| 0 <= k < i ==> #[trigger] places[k] != (target.bus, target.address)
}

/// What to do with the opened device before reports can flow.
#[derive(Clone, Copy, Debug, PartialEq, Eq, Structural)]
pub enum ConnectStep {
    /// Detach the kernel driver from this interface; failure is fatal.
    DetachKernelDriver(u8),
    /// Claim this interface; failure is fatal.
    ClaimInterface(u8),
}

/// Finds the device to open among the bus and address pairs of a scan: the
/// first one at the place of `target_info`.
pub fn setup_device_connection(places: &Vec<(u8, u8)>, target_info: &HIDevice) -> (found: Option<
    usize,
>)
    ensures
        match found {
            Some(i) => is_first_place(places@, i as int, target_info@),
            None => forall|k: int|
                0 <= k < places.len() ==> #[trigger] places[k] != (
                    target_info.bus,
                    target_info.address,
                ),
        },
{
    let mut i: usize = 0;
    while i < places.len()
        invariant
            i <= places.len(),
            forall|k: int|
                0 <= k < i ==> #[trigger] places[k] != (target_info.bus, target_info.address),
        decreases places.len() - i,
    {
        let place = places[i];
        if place.0 == target_info.bus && place.1 == target_info.address {
            return Some(i);
        }
        i = i + 1;
    }
    None
}

/// The steps that prepare the opened device: detach the kernel driver from
/// the interface if one is known to be active, then claim the interface.
/// `driver_active` is `None` where the question could not be answered.
pub fn connection_steps(target_info: &HIDevice, driver_active: Option<bool>) -> (steps: Vec<
    ConnectStep,
>)
    ensures
        steps@ == (if driver_active == Some(true) {
            seq![
                ConnectStep::DetachKernelDriver(target_info.interface_num),
                ConnectStep::ClaimInterface(target_info.interface_num),
            ]
        } else {
            seq![ConnectStep::ClaimInterface(target_info.interface_num)]
        }),
{
    let mut steps: Vec<ConnectStep> = Vec::new();
    match driver_active {
        Some(true) => {
            steps.push(ConnectStep::DetachKernelDriver(target_info.interface_num));
        },
        _ => {},
    }
    steps.push(ConnectStep::ClaimInterface(target_info.interface_num));
    assert(steps@ =~= (if driver_active == Some(true) {
        seq![
            ConnectStep::DetachKernelDriver(target_info.interface_num),
            ConnectStep::ClaimInterface(target_info.interface_num),
        ]
    } else {
        seq![ConnectStep::ClaimInterface(target_info.interface_num)]
    }));
    steps
}

} // verus!
