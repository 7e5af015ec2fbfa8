//! The two USB control requests of the proxy: the fetch of a HID report
//! descriptor, and SET_REPORT as the fallback path toward a device without an
//! interrupt OUT endpoint.

use vstd::prelude::*;

verus! {

/// Direction of a transfer, seen from the host.
#[derive(Clone, Copy, Debug, PartialEq, Eq, Structural)]
pub enum Direction {
    In,
    Out,
}

/// Who defines a control request.
#[derive(Clone, Copy, Debug, PartialEq, Eq, Structural)]
pub enum RequestType {
    Standard,
    Class,
    Vendor,
    Reserved,
}

/// Whom a control request addresses.
#[derive(Clone, Copy, Debug, PartialEq, Eq, Structural)]
pub enum Recipient {
    Device,
    Interface,
    Endpoint,
    Other,
}

/// Bit 7 of `bmRequestType`.
pub open spec fn direction_bits(direction: Direction) -> u8 {
    match direction {
        Direction::Out => 0x00,
        Direction::In => 0x80,
    }
}

/// Bits 5 and 6 of `bmRequestType`.
pub open spec fn type_bits(request_type: RequestType) -> u8 {
    match request_type {
        RequestType::Standard => 0x00,
        RequestType::Class => 0x20,
        RequestType::Vendor => 0x40,
        RequestType::Reserved => 0x60,
    }
}

/// The low bits of `bmRequestType`.
pub open spec fn recipient_bits(recipient: Recipient) -> u8 {
    match recipient {
        Recipient::Device => 0x00,
        Recipient::Interface => 0x01,
        Recipient::Endpoint => 0x02,
        Recipient::Other => 0x03,
    }
}

/// The `bmRequestType` byte of a control transfer's setup packet.
pub open spec fn spec_request_type(
    direction: Direction,
    request_type: RequestType,
    recipient: Recipient,
) -> u8 {
    direction_bits(direction) | type_bits(request_type) | recipient_bits(recipient)
}

/// Calls `rusb::request_type`. Trusted: the result is the bitwise or of the
/// direction bit, the two type bits and the recipient bits, with the values
/// that libusb gives them.
#[verifier::external_body]
fn usb_request_type(direction: Direction, request_type: RequestType, recipient: Recipient) -> (v:
    u8)
    ensures
        v == spec_request_type(direction, request_type, recipient),
{
    let d = match direction { Direction::In => rusb::Direction::In, Direction::Out => rusb::Direction::Out };
    let t = match request_type {
        RequestType::Standard => rusb::RequestType::Standard, RequestType::Class => rusb::RequestType::Class,
        RequestType::Vendor => rusb::RequestType::Vendor, RequestType::Reserved => rusb::RequestType::Reserved,
    };
    let r = match recipient {
        Recipient::Device => rusb::Recipient::Device, Recipient::Interface => rusb::Recipient::Interface,
        Recipient::Endpoint => rusb::Recipient::Endpoint, Recipient::Other => rusb::Recipient::Other,
    };
    rusb::request_type(d, t, r)
}

/// `bRequest` of GET_DESCRIPTOR.
pub const GET_DESCRIPTOR: u8 = 0x06;

/// `bRequest` of SET_REPORT.
pub const SET_REPORT: u8 = 0x09;

/// `wValue` that asks for the HID report descriptor: type 0x22, index 0.
pub const REPORT_DESCRIPTOR_VALUE: u16 = 0x2200;

/// `wValue` of an output report with report id 0.
pub const OUTPUT_REPORT_VALUE: u16 = 0x0200;

/// Timeout of a report-descriptor fetch, in milliseconds.
pub const DESCRIPTOR_TIMEOUT_MILLIS: u64 = 2000;

/// Timeout of every interrupt transfer and of SET_REPORT, in milliseconds.
pub const TRANSFER_TIMEOUT_MILLIS: u64 = 100;

/// Size of the buffer that receives a report descriptor.
pub const DESCRIPTOR_BUFFER_LEN: usize = 4096;

/// The setup of a control transfer, and how long to wait for it.
#[derive(Clone, Copy, Debug, PartialEq, Eq, Structural)]
pub struct ControlRequest {
    pub request_type: u8,
    pub request: u8,
    pub value: u16,
    pub index: u16,
    pub timeout_millis: u64,
}

/// The request that fetches the HID report descriptor of an interface.
pub open spec fn spec_report_descriptor_request(interface_number: u8) -> ControlRequest {
    ControlRequest {
        request_type: 0x81,
        request: GET_DESCRIPTOR,
        value: REPORT_DESCRIPTOR_VALUE,
        index: interface_number as u16,
        timeout_millis: DESCRIPTOR_TIMEOUT_MILLIS,
    }
}

/// The request that hands an output report to an interface.
pub open spec fn spec_set_report_request(interface_number: u8) -> ControlRequest {
    ControlRequest {
        request_type: 0x21,
        request: SET_REPORT,
        value: OUTPUT_REPORT_VALUE,
        index: interface_number as u16,
        timeout_millis: TRANSFER_TIMEOUT_MILLIS,
    }
}

/// The standard device-to-host request to an interface that returns its HID
/// report descriptor.
pub fn report_descriptor_request(interface_number: u8) -> (r: ControlRequest)
    ensures
        r == spec_report_descriptor_request(interface_number),
{
    let request_type = usb_request_type(Direction::In, RequestType::Standard, Recipient::Interface);
    assert(0x80u8 | 0x00u8 | 0x01u8 == 0x81u8) by (bit_vector);
    ControlRequest {
        request_type,
        request: GET_DESCRIPTOR,
        value: REPORT_DESCRIPTOR_VALUE,
        index: interface_number as u16,
        timeout_millis: DESCRIPTOR_TIMEOUT_MILLIS,
    }
}

/// The class request from host to an interface that carries an output report
/// with report id 0.
pub fn set_report_request(interface_number: u8) -> (r: ControlRequest)
    ensures
        r == spec_set_report_request(interface_number),
{
    let request_type = usb_request_type(Direction::Out, RequestType::Class, Recipient::Interface);
    assert(0x00u8 | 0x20u8 | 0x01u8 == 0x21u8) by (bit_vector);
    ControlRequest {
        request_type,
        request: SET_REPORT,
        value: OUTPUT_REPORT_VALUE,
        index: interface_number as u16,
        timeout_millis: TRANSFER_TIMEOUT_MILLIS,
    }
}

} // verus!
