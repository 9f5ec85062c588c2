//! Decoding of the 1-byte USB control request-type field into a
//! (transfer class, recipient) pair.

use vstd::prelude::*;

verus! {

/// Transfer class of a control request, carried in bits 5 and 6 of the
/// request-type byte.
#[derive(Clone, Copy, Debug, PartialEq, Eq, Structural)]
pub enum ControlType {
    /// A standard request.
    Standard,
    /// A class-defined request.
    Class,
    /// A vendor-defined request.
    Vendor,
}

/// Recipient of a control request, carried in bits 0 through 4 of the
/// request-type byte.
#[derive(Clone, Copy, Debug, PartialEq, Eq, Structural)]
pub enum Recipient {
    /// The device receives the request.
    Device,
    /// An interface receives the request.
    Interface,
    /// An endpoint receives the request.
    Endpoint,
    /// Some other part receives the request.
    Other,
}

/// The transfer class encoded in bits 5 and 6 of a request-type byte.
/// The reserved bit pattern 3 falls back to the standard class.
pub open spec fn class_of(request_type: u8) -> ControlType {
    if request_type >> 5 & 0x03 == 1 {
        ControlType::Class
    } else if request_type >> 5 & 0x03 == 2 {
        ControlType::Vendor
    } else {
        ControlType::Standard
    }
}

/// The recipient encoded in bits 0 through 4 of a request-type byte.
/// Reserved bit patterns (4 and above) fall back to the device recipient.
pub open spec fn recipient_of(request_type: u8) -> Recipient {
    if request_type & 0x1f == 1 {
        Recipient::Interface
    } else if request_type & 0x1f == 2 {
        Recipient::Endpoint
    } else if request_type & 0x1f == 3 {
        Recipient::Other
    } else {
        Recipient::Device
    }
}

/// Decodes a request-type byte into its transfer class and recipient.
/// Unknown or reserved bit patterns do not fail: they fall back to the
/// most permissive pair, a standard request addressed to the device.
pub fn split_request_type(request_type: u8) -> (r: (ControlType, Recipient))
    ensures
        r.0 == class_of(request_type),
        r.1 == recipient_of(request_type),
{
    let class_bits = request_type >> 5 & 0x03;
    let recipient_bits = request_type & 0x1f;
    let control_type = if class_bits == 1 {
        ControlType::Class
    } else if class_bits == 2 {
        ControlType::Vendor
    } else {
        ControlType::Standard
    };
    let recipient = if recipient_bits == 1 {
        Recipient::Interface
    } else if recipient_bits == 2 {
        Recipient::Endpoint
    } else if recipient_bits == 3 {
        Recipient::Other
    } else {
        Recipient::Device
    };
    (control_type, recipient)
}

/// The decoded pair depends on nothing but bits 5 and 6 for the class and
/// bits 0 through 4 for the recipient: two request-type bytes that agree on
/// those bits decode alike.
pub proof fn lemma_split_depends_on_bits_alone(a: u8, b: u8)
    requires
        a >> 5 & 0x03 == b >> 5 & 0x03,
        a & 0x1f == b & 0x1f,
    ensures
        class_of(a) == class_of(b),
        recipient_of(a) == recipient_of(b),
{
}

/// Reserved bit patterns decode to the permissive defaults: the class is
/// standard exactly for class bits 0 and the reserved pattern 3, and the
/// recipient is the device exactly for recipient bits 0 and the reserved
/// patterns 4 and above.
pub proof fn lemma_reserved_patterns_default(request_type: u8)
    ensures
        class_of(request_type) == ControlType::Standard <==> (request_type >> 5 & 0x03 == 0
            || request_type >> 5 & 0x03 == 3),
        recipient_of(request_type) == Recipient::Device <==> (request_type & 0x1f == 0
            || request_type & 0x1f >= 4),
{
    assert(request_type >> 5 & 0x03 <= 3) by (bit_vector);
    assert(request_type & 0x1f <= 0x1f) by (bit_vector);
}

} // verus!
