//! The two synthetic interfaces a script may ask for, with their boot-protocol
//! report descriptors.

use vstd::prelude::*;

verus! {

/// Kind of a synthetic HID interface.
#[derive(Clone, Copy, Debug, PartialEq, Eq, Structural)]
pub enum VirtualDeviceType {
    Keyboard,
    Mouse,
}

/// Length in bytes of the boot keyboard report descriptor.
pub const KEYBOARD_REPORT_DESC_LEN: usize = 63;

/// Length in bytes of the boot mouse report descriptor.
pub const MOUSE_REPORT_DESC_LEN: usize = 52;

/// Boot-protocol keyboard: one modifier byte, one reserved byte, six key codes
/// in, five LED bits out.
pub const KEYBOARD_REPORT_DESC: [u8; 63] = [
    0x05, 0x01, 0x09, 0x06, 0xA1, 0x01, 0x05, 0x07, 0x19, 0xE0, 0x29, 0xE7, 0x15, 0x00, 0x25, 0x01,
    0x75, 0x01, 0x95, 0x08, 0x81, 0x02, 0x95, 0x01, 0x75, 0x08, 0x81, 0x01, 0x95, 0x06, 0x75, 0x08,
    0x15, 0x00, 0x25, 0x65, 0x05, 0x07, 0x19, 0x00, 0x29, 0x65, 0x81, 0x00, 0x05, 0x08, 0x19, 0x01,
    0x29, 0x05, 0x95, 0x05, 0x75, 0x01, 0x91, 0x02, 0x95, 0x01, 0x75, 0x03, 0x91, 0x03, 0xC0,
];

/// Boot-protocol mouse: five buttons and three padding bits, then signed X, Y
/// and wheel.
pub const MOUSE_REPORT_DESC: [u8; 52] = [
    0x05, 0x01, 0x09, 0x02, 0xA1, 0x01, 0x09, 0x01, 0xA1, 0x00, 0x05, 0x09, 0x19, 0x01, 0x29, 0x05,
    0x15, 0x00, 0x25, 0x01, 0x95, 0x05, 0x75, 0x01, 0x81, 0x02, 0x95, 0x01, 0x75, 0x03, 0x81, 0x01,
    0x05, 0x01, 0x09, 0x30, 0x09, 0x31, 0x09, 0x38, 0x15, 0x81, 0x25, 0x7F, 0x75, 0x08, 0x95, 0x03,
    0x81, 0x06, 0xC0, 0xC0,
];

impl VirtualDeviceType {
    /// HID protocol code the gadget function announces: 1 for a keyboard, 2 for
    /// a mouse.
    pub open spec fn spec_protocol(self) -> u8 {
        match self {
            VirtualDeviceType::Keyboard => 1,
            VirtualDeviceType::Mouse => 2,
        }
    }

    /// Size of one input report: 8 bytes for a keyboard, 4 for a mouse.
    pub open spec fn spec_report_length(self) -> u16 {
        match self {
            VirtualDeviceType::Keyboard => 8,
            VirtualDeviceType::Mouse => 4,
        }
    }

    /// The report descriptor of this kind, as a sequence of bytes.
    pub open spec fn spec_report_descriptor(self) -> Seq<u8> {
        match self {
            VirtualDeviceType::Keyboard => KEYBOARD_REPORT_DESC@,
            VirtualDeviceType::Mouse => MOUSE_REPORT_DESC@,
        }
    }

    #[verifier::when_used_as_spec(spec_protocol)]
    pub fn protocol(self) -> (p: u8)
        ensures
            p == self.spec_protocol(),
    {
        match self {
            VirtualDeviceType::Keyboard => 1,
            VirtualDeviceType::Mouse => 2,
        }
    }

    /// Virtual interfaces never use the boot subclass.
    pub fn subclass(self) -> (s: u8)
        ensures
            s == 0,
    {
        0
    }

    #[verifier::when_used_as_spec(spec_report_length)]
    pub fn report_length(self) -> (n: u16)
        ensures
            n == self.spec_report_length(),
    {
        match self {
            VirtualDeviceType::Keyboard => 8,
            VirtualDeviceType::Mouse => 4,
        }
    }

    /// A fresh copy of the descriptor bytes.
    pub fn report_descriptor(self) -> (d: Vec<u8>)
        ensures
            d@ == self.spec_report_descriptor(),
    {
        let mut d: Vec<u8> = Vec::new();
        match self {
            VirtualDeviceType::Keyboard => {
                let mut i: usize = 0;
                while i < 63
                    invariant
                        i <= 63,
                        d@ == KEYBOARD_REPORT_DESC@.subrange(0, i as int),
                    decreases 63 - i,
                {
                    d.push(KEYBOARD_REPORT_DESC[i]);
                    i = i + 1;
                }
            },
            VirtualDeviceType::Mouse => {
                let mut i: usize = 0;
                while i < 52
                    invariant
                        i <= 52,
                        d@ == MOUSE_REPORT_DESC@.subrange(0, i as int),
                    decreases 52 - i,
                {
                    d.push(MOUSE_REPORT_DESC[i]);
                    i = i + 1;
                }
            },
        }
        d
    }
}

} // verus!
