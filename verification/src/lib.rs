//! Decision logic of a USB HID man-in-the-middle proxy.
//!
//! A physical HID device is mirrored as a USB gadget toward an upstream host.
//! This crate holds everything the proxy decides: which interfaces of a device
//! are usable, what the gadget tree looks like, where a report goes, how a
//! session advances. Every function here works on plain values and carries a
//! contract; the caller performs the transfers and file operations.

pub mod bindings;
pub mod cli;
pub mod describe;
pub mod device;
pub mod gadget;
pub mod logging;
pub mod proxy;
pub mod scripting;
pub mod setup;
pub mod supervisor;
pub mod text;
pub mod usb;
pub mod virtual_device;
