//! What a script can do: the interface handles it holds, and where a report
//! goes that it sends through one.
//!
//! Sending is decided here and carried out by the caller: every send yields a
//! [`Transfer`], which names the write to make or the reason why none is made.

use crate::proxy::GlobalState;
use crate::text::{hex_text, push_hex, same_text};
use crate::usb::{
    set_report_request, spec_set_report_request, ControlRequest, TRANSFER_TIMEOUT_MILLIS,
};
use vstd::prelude::*;

verus! {

/// Whether a handle stands for an interface of the physical device or for a
/// synthetic one.
#[derive(Clone, Copy, Debug, PartialEq, Eq, Structural)]
pub enum InterfaceType {
    Physical,
    Virtual,
}

/// What kind of device an interface is.
#[derive(Clone, Copy, Debug, PartialEq, Eq, Structural)]
pub enum DeviceType {
    Keyboard,
    Mouse,
    Other,
}

/// The handle of one gadget function, as a script sees it.
#[derive(Clone, Copy, Debug, PartialEq, Eq, Structural)]
pub struct Interface {
    pub iface_type: InterfaceType,
    pub dev_type: DeviceType,
    pub index: usize,
}

/// Why a send was refused. A refusal is a warning, never an error.
#[derive(Clone, Copy, Debug, PartialEq, Eq, Structural)]
pub enum Refusal {
    /// `send_to` on a virtual interface.
    NotPhysical,
    /// `send_report` on a physical interface.
    NotVirtual,
    /// A direction other than `IN` and `OUT`.
    BadDirection,
    /// No character device is open for the interface's index.
    NoWriter,
}

/// The write that a send asks for.
#[derive(Debug, PartialEq, Eq)]
pub enum Transfer {
    /// Write `data` to the character device of gadget index `index`.
    Gadget { index: usize, data: Vec<u8> },
    /// Send `data` to the physical device by interrupt transfer.
    Interrupt { endpoint: u8, data: Vec<u8>, timeout_millis: u64 },
    /// Send `data` to the physical device by control transfer.
    Control { request: ControlRequest, data: Vec<u8> },
    /// Send nothing.
    Refused(Refusal),
}

/// Mathematical content of a [`Transfer`].
pub ghost enum TransferView {
    Gadget { index: usize, data: Seq<u8> },
    Interrupt { endpoint: u8, data: Seq<u8>, timeout_millis: u64 },
    Control { request: ControlRequest, data: Seq<u8> },
    Refused(Refusal),
}

impl View for Transfer {
    type V = TransferView;

    open spec fn view(&self) -> TransferView {
        match *self {
            Transfer::Gadget { index, data } => TransferView::Gadget { index, data: data@ },
            Transfer::Interrupt { endpoint, data, timeout_millis } => TransferView::Interrupt {
                endpoint,
                data: data@,
                timeout_millis,
            },
            Transfer::Control { request, data } => TransferView::Control { request, data: data@ },
            Transfer::Refused(why) => TransferView::Refused(why),
        }
    }
}

// ---------------------------------------------------------------------------
// Script values
// ---------------------------------------------------------------------------

/// The byte that a script value stands for: the low eight bits of an integer,
/// zero for anything else.
pub open spec fn script_byte(value: Option<i64>) -> u8 {
    match value {
        Some(x) => x as u8,
        None => 0,
    }
}

/// The bytes that a script's array stands for.
pub open spec fn script_bytes(values: Seq<Option<i64>>) -> Seq<u8> {
    Seq::new(values.len(), |i: int| script_byte(values[i]))
}

/// A report as a script receives it: one integer per byte.
pub open spec fn spec_payload_values(data: Seq<u8>) -> Seq<Option<i64>> {
    Seq::new(data.len(), |i: int| Some(data[i] as i64))
}

/// Turns the array that a script passed into the bytes of a report. `None`
/// stands for an element that is no integer.
pub fn report_bytes(values: &Vec<Option<i64>>) -> (data: Vec<u8>)
    ensures
        data@ == script_bytes(values@),
{
    let mut data: Vec<u8> = Vec::new();
    let mut i: usize = 0;
    while i < values.len()
        invariant
            i <= values.len(),
            data.len() == i,
            forall|k: int| 0 <= k < i ==> data[k] == script_byte(values[k]),
        decreases values.len() - i,
    {
        let b: u8 = match values[i] {
            Some(x) => #[verifier::truncate]
            (x as u8),
            None => 0,
        };
        data.push(b);
        i = i + 1;
    }
    assert(data@ =~= script_bytes(values@));
    data
}

/// Turns the bytes of a report into the array that a script receives.
pub fn payload_values(data: &[u8]) -> (values: Vec<Option<i64>>)
    ensures
        values@ == spec_payload_values(data@),
{
    let mut values: Vec<Option<i64>> = Vec::new();
    let mut i: usize = 0;
    while i < data.len()
        invariant
            i <= data.len(),
            values.len() == i,
            forall|k: int| 0 <= k < i ==> values[k] == Some(data[k] as i64),
        decreases data.len() - i,
    {
        values.push(Some(data[i] as i64));
        i = i + 1;
    }
    assert(values@ =~= spec_payload_values(data@));
    values
}

/// A report that went to a script and comes back unchanged is the same
/// report, byte for byte.
pub proof fn report_survives_script(data: Seq<u8>)
    ensures
        script_bytes(spec_payload_values(data)) == data,
{
    assert forall|i: int| 0 <= i < data.len() implies script_byte(
        #[trigger] spec_payload_values(data)[i],
    ) == data[i] by {
        let b = data[i];
        assert((b as i64) as u8 == b) by (bit_vector);
    }
    assert(script_bytes(spec_payload_values(data)) =~= data);
}

/// `num` in lower-case hexadecimal, read as an unsigned 64-bit number and
/// zero-padded to `width` digits.
pub fn to_hex(num: i64, width: i64) -> (s: String)
    requires
        0 <= width <= usize::MAX,
    ensures
        s@ == hex_text((num as u64) as nat, width as nat),
{
    let mut s = String::new();
    let bits: u64 = #[verifier::truncate]
    (num as u64);
    push_hex(&mut s, bits, width as usize);
    assert(s@ =~= hex_text((num as u64) as nat, width as nat));
    s
}

// ---------------------------------------------------------------------------
// Sending
// ---------------------------------------------------------------------------

/// Where a report for the upstream host goes: to the character device of the
/// handle's index, if the session holds one.
pub open spec fn spec_send_to_host(iface: Interface, state: &GlobalState, data: Seq<u8>) -> TransferView {
    if iface.index < state.writers().len() {
        TransferView::Gadget { index: iface.index, data }
    } else {
        TransferView::Refused(Refusal::NoWriter)
    }
}

/// Where a report for the physical device goes: to its interrupt OUT
/// endpoint where it has one, else through SET_REPORT on the control pipe.
pub open spec fn spec_send_to_device(state: &GlobalState, data: Seq<u8>) -> TransferView {
    match state.target().endpoint_out {
        Some(endpoint) => TransferView::Interrupt {
            endpoint,
            data,
            timeout_millis: TRANSFER_TIMEOUT_MILLIS,
        },
        None => TransferView::Control {
            request: spec_set_report_request(state.target().interface_num),
            data,
        },
    }
}

/// What `send_to` does with a report: refused on a virtual interface; `IN`
/// goes to the host, `OUT` to the device; any other direction is refused.
pub open spec fn spec_send_to(
    iface: Interface,
    state: &GlobalState,
    direction: Seq<char>,
    values: Seq<Option<i64>>,
) -> TransferView {
    if iface.iface_type != InterfaceType::Physical {
        TransferView::Refused(Refusal::NotPhysical)
    } else if direction == "IN"@ {
        spec_send_to_host(iface, state, script_bytes(values))
    } else if direction == "OUT"@ {
        spec_send_to_device(state, script_bytes(values))
    } else {
        TransferView::Refused(Refusal::BadDirection)
    }
}

/// What `send_report` does with a report: refused on a physical interface,
/// else sent to the host.
pub open spec fn spec_send_report(
    iface: Interface,
    state: &GlobalState,
    values: Seq<Option<i64>>,
) -> TransferView {
    if iface.iface_type != InterfaceType::Virtual {
        TransferView::Refused(Refusal::NotVirtual)
    } else {
        spec_send_to_host(iface, state, script_bytes(values))
    }
}

/// Passthrough is the identity: a report that a script hands on unchanged
/// through the physical interface it arrived on, in the direction it arrived
/// with, is sent with the same bytes; as `IN` to the character device of
/// the interface's index in a running session, as `OUT` to the physical
/// device.
pub proof fn passthrough_identity(iface: Interface, state: &GlobalState, data: Seq<u8>)
    requires
        iface.iface_type == InterfaceType::Physical,
    ensures
        spec_send_to(iface, state, "IN"@, spec_payload_values(data)) == spec_send_to_host(
            iface,
            state,
            data,
        ),
        state.is_running() && iface.index < state.function_count() ==> spec_send_to(
            iface,
            state,
            "IN"@,
            spec_payload_values(data),
        ) == (TransferView::Gadget { index: iface.index, data }),
        spec_send_to(iface, state, "OUT"@, spec_payload_values(data)) == spec_send_to_device(
            state,
            data,
        ),
        spec_send_to_device(state, data) is Interrupt ==> spec_send_to_device(
            state,
            data,
        )->Interrupt_data == data,
        spec_send_to_device(state, data) is Control ==> spec_send_to_device(
            state,
            data,
        )->Control_data == data,
{
    report_survives_script(data);
    reveal_strlit("IN");
    reveal_strlit("OUT");
    assert("IN"@.len() != "OUT"@.len());
}

/// A device without an interrupt OUT endpoint takes its reports through
/// SET_REPORT on the control pipe, addressed to the interface; a device with
/// one takes them on that endpoint.
pub proof fn device_without_out_endpoint_gets_set_report(state: &GlobalState, data: Seq<u8>)
    ensures
        state.target().endpoint_out is None ==> spec_send_to_device(state, data) == (
        TransferView::Control {
            request: ControlRequest {
                request_type: 0x21,
                request: 0x09,
                value: 0x0200,
                index: state.target().interface_num as u16,
                timeout_millis: 100,
            },
            data,
        }),
        state.target().endpoint_out is Some ==> spec_send_to_device(state, data) == (
        TransferView::Interrupt {
            endpoint: state.target().endpoint_out->0,
            data,
            timeout_millis: 100,
        }),
{
}

impl Interface {
    /// The handle of the physical interface at gadget index `index`. Its kind
    /// is that of the session's primary interface: keyboard for protocol 1,
    /// mouse for protocol 2, other for anything else.
    pub fn new_physical(index: usize, state: &GlobalState) -> (iface: Interface)
        ensures
            iface.iface_type == InterfaceType::Physical,
            iface.index == index,
            iface.dev_type == (if state.target().protocol == 1 {
                DeviceType::Keyboard
            } else if state.target().protocol == 2 {
                DeviceType::Mouse
            } else {
                DeviceType::Other
            }),
    {
        let info = state.target_info();
        let dev_type = if info.is_keyboard() {
            DeviceType::Keyboard
        } else if info.is_mouse() {
            DeviceType::Mouse
        } else {
            DeviceType::Other
        };
        Interface { iface_type: InterfaceType::Physical, dev_type, index }
    }

    /// The handle of the virtual interface of kind `dev_type` at gadget index
    /// `index`.
    pub fn new_virtual(index: usize, dev_type: DeviceType) -> (iface: Interface)
        ensures
            iface == (Interface { iface_type: InterfaceType::Virtual, dev_type, index }),
    {
        Interface { iface_type: InterfaceType::Virtual, dev_type, index }
    }

    /// Sends a report from a script through a physical interface, toward the
    /// host for `IN` and toward the device for `OUT`.
    pub fn send_to(&self, state: &GlobalState, direction: &str, data: &Vec<Option<i64>>) -> (t:
        Transfer)
        ensures
            t@ == spec_send_to(*self, state, direction@, data@),
    {
        match self.iface_type {
            InterfaceType::Physical => {},
            InterfaceType::Virtual => {
                return Transfer::Refused(Refusal::NotPhysical);
            },
        }
        let bytes = report_bytes(data);
        if same_text(direction, "IN") {
            self.send_to_host(state, bytes)
        } else if same_text(direction, "OUT") {
            self.send_to_device(state, bytes)
        } else {
            Transfer::Refused(Refusal::BadDirection)
        }
    }

    /// Sends a report from a script through a virtual interface to the host.
    pub fn send_report(&self, state: &GlobalState, data: &Vec<Option<i64>>) -> (t: Transfer)
        ensures
            t@ == spec_send_report(*self, state, data@),
    {
        match self.iface_type {
            InterfaceType::Virtual => {},
            InterfaceType::Physical => {
                return Transfer::Refused(Refusal::NotVirtual);
            },
        }
        let bytes = report_bytes(data);
        self.send_to_host(state, bytes)
    }

    /// Directs `data` to the character device of this handle's index.
    pub fn send_to_host(&self, state: &GlobalState, data: Vec<u8>) -> (t: Transfer)
        ensures
            t@ == spec_send_to_host(*self, state, data@),
    {
        match state.gadget_writer(self.index) {
            Some(_) => Transfer::Gadget { index: self.index, data },
            None => Transfer::Refused(Refusal::NoWriter),
        }
    }

    /// Directs `data` to the physical device.
    pub fn send_to_device(&self, state: &GlobalState, data: Vec<u8>) -> (t: Transfer)
        ensures
            t@ == spec_send_to_device(state, data@),
    {
        let info = state.target_info();
        match info.endpoint_out {
            Some(endpoint) => Transfer::Interrupt {
                endpoint,
                data,
                timeout_millis: TRANSFER_TIMEOUT_MILLIS,
            },
            None => Transfer::Control { request: set_report_request(info.interface_num), data },
        }
    }

    pub fn is_keyboard(&self) -> (b: bool)
        ensures
            b == (self.dev_type == DeviceType::Keyboard),
    {
        match self.dev_type {
            DeviceType::Keyboard => true,
            _ => false,
        }
    }

    pub fn is_mouse(&self) -> (b: bool)
        ensures
            b == (self.dev_type == DeviceType::Mouse),
    {
        match self.dev_type {
            DeviceType::Mouse => true,
            _ => false,
        }
    }

    pub fn is_physical(&self) -> (b: bool)
        ensures
            b == (self.iface_type == InterfaceType::Physical),
    {
        match self.iface_type {
            InterfaceType::Physical => true,
            _ => false,
        }
    }

    pub fn is_virtual(&self) -> (b: bool)
        ensures
            b == (self.iface_type == InterfaceType::Virtual),
    {
        match self.iface_type {
            InterfaceType::Virtual => true,
            _ => false,
        }
    }
}

} // verus!
