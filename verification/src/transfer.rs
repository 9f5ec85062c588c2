//! Control transfer descriptors and the payload copy rules shared by the
//! blocking and cooperative adapters.

use vstd::prelude::*;

use crate::codec::{class_of, recipient_of, split_request_type, ControlType, Recipient};

verus! {

/// Standard request code SET_INTERFACE (USB base specification).
pub const SET_INTERFACE: u8 = 0x0b;

/// Standard request code GET_DESCRIPTOR (USB base specification).
pub const GET_DESCRIPTOR: u8 = 0x06;

/// A control-IN transfer descriptor: request metadata plus the number of
/// bytes to read. Created per call, never persisted.
#[derive(Clone, Copy, Debug, PartialEq, Eq, Structural)]
pub struct ControlInRequest {
    /// Transfer class, for the bmRequestType field.
    pub control_type: ControlType,
    /// Recipient, for the bmRequestType field.
    pub recipient: Recipient,
    /// The bRequest field.
    pub request: u8,
    /// The wValue field.
    pub value: u16,
    /// The wIndex field.
    pub index: u16,
    /// The number of bytes to read.
    pub length: u16,
}

/// A control-OUT transfer descriptor: request metadata plus the payload to
/// send. Created per call, never persisted.
#[derive(Clone, Debug)]
pub struct ControlOutRequest {
    /// Transfer class, for the bmRequestType field.
    pub control_type: ControlType,
    /// Recipient, for the bmRequestType field.
    pub recipient: Recipient,
    /// The bRequest field.
    pub request: u8,
    /// The wValue field.
    pub value: u16,
    /// The wIndex field.
    pub index: u16,
    /// The payload of the data stage.
    pub data: Vec<u8>,
}

/// Builds the control-IN descriptor for a read issued on behalf of the
/// protocol engine: the request-type byte is decoded into class and
/// recipient, the index addresses the claimed interface, and the length is
/// the destination buffer's capacity.
pub fn control_in_request(
    request_type: u8,
    request: u8,
    value: u16,
    interface_number: u8,
    length: u16,
) -> (r: ControlInRequest)
    ensures
        r.control_type == class_of(request_type),
        r.recipient == recipient_of(request_type),
        r.request == request,
        r.value == value,
        r.index == interface_number as u16,
        r.length == length,
{
    let (control_type, recipient) = split_request_type(request_type);
    ControlInRequest { control_type, recipient, request, value, index: interface_number as u16, length }
}

/// Builds the control-OUT descriptor for a write issued on behalf of the
/// protocol engine: the request-type byte is decoded into class and
/// recipient, the index addresses the claimed interface, and the payload is
/// carried by value so a spawned task may outlive the caller's borrow.
pub fn control_out_request(
    request_type: u8,
    request: u8,
    value: u16,
    interface_number: u8,
    data: Vec<u8>,
) -> (r: ControlOutRequest)
    ensures
        r.control_type == class_of(request_type),
        r.recipient == recipient_of(request_type),
        r.request == request,
        r.value == value,
        r.index == interface_number as u16,
        r.data@ == data@,
{
    let (control_type, recipient) = split_request_type(request_type);
    ControlOutRequest { control_type, recipient, request, value, index: interface_number as u16, data }
}

/// Copies a received control-IN payload into the destination buffer,
/// truncating without error: exactly the smaller of the two lengths is
/// copied, the destination keeps its length, bytes past the copied prefix
/// keep their old values, and the returned count is the number copied.
pub fn copy_truncated(bytes: &Vec<u8>, buffer: &mut Vec<u8>) -> (n: usize)
    ensures
        final(buffer)@.len() == old(buffer)@.len(),
        n as nat == (if bytes@.len() <= old(buffer)@.len() {
            bytes@.len()
        } else {
            old(buffer)@.len()
        }),
        forall|i: int| 0 <= i < n ==> final(buffer)@[i] == bytes@[i],
        forall|i: int| n <= i < final(buffer)@.len() ==> final(buffer)@[i] == old(buffer)@[i],
{
    let n = if bytes.len() <= buffer.len() {
        bytes.len()
    } else {
        buffer.len()
    };
    let mut i: usize = 0;
    while i < n
        invariant
            i <= n,
            n <= bytes@.len(),
            n <= buffer@.len(),
            buffer@.len() == old(buffer)@.len(),
            forall|j: int| 0 <= j < i ==> buffer@[j] == bytes@[j],
            forall|j: int| i <= j < buffer@.len() ==> buffer@[j] == old(buffer)@[j],
        decreases n - i,
    {
        buffer.set(i, bytes[i]);
        i = i + 1;
    }
    n
}

} // verus!
