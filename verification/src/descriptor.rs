//! The 9-byte DFU functional descriptor: its decoded form and its parser.

use vstd::prelude::*;

verus! {

/// Descriptor type of a DFU functional descriptor (DFU 1.1, section 4.2.4).
pub const DFU_FUNCTIONAL_DESCRIPTOR_TYPE: u8 = 0x21;

/// Descriptor index used when fetching the DFU functional descriptor.
pub const DFU_FUNCTIONAL_DESCRIPTOR_INDEX: u8 = 0x00;

/// Exact length in bytes of a DFU functional descriptor.
pub const DFU_FUNCTIONAL_DESCRIPTOR_LENGTH: u8 = 9;

/// A DFU functional descriptor, parsed once at open time and immutable for
/// the rest of the session.
#[derive(Clone, Copy, Debug, PartialEq, Eq)]
pub struct FunctionalDescriptor {
    /// Bit 0 of the attributes bitmap: the device can download firmware.
    pub can_download: bool,
    /// Bit 1 of the attributes bitmap: the device can upload firmware.
    pub can_upload: bool,
    /// Bit 2 of the attributes bitmap: the device stays reachable over USB
    /// after the manifestation phase.
    pub manifestation_tolerant: bool,
    /// Bit 3 of the attributes bitmap: the device detaches by itself on a
    /// DFU_DETACH request.
    pub will_detach: bool,
    /// Milliseconds the device waits for a USB reset after DFU_DETACH.
    pub detach_timeout: u16,
    /// Maximum number of bytes per control-write transaction.
    pub transfer_size: u16,
    /// DFU specification release, as the binary-coded-decimal pair
    /// (major byte, minor byte) of the descriptor's version field.
    pub dfu_version: (u8, u8),
}

/// Why a byte sequence was rejected as a functional descriptor.
#[derive(Clone, Copy, Debug, PartialEq, Eq, Structural)]
pub enum DescriptorError {
    /// The sequence does not hold exactly the 9 descriptor bytes.
    WrongLength,
    /// The descriptor type byte is not 0x21.
    WrongType,
    /// The descriptor's own length field is not 9.
    WrongLengthField,
}

/// The 16-bit value stored little-endian in two descriptor bytes.
pub open spec fn u16_from_le_pair(lo: u8, hi: u8) -> u16 {
    (lo + hi * 0x100) as u16
}

/// A byte sequence is a well-formed functional descriptor: exactly 9 bytes,
/// with the length field and the type byte holding their fixed values.
pub open spec fn descriptor_well_formed(bytes: Seq<u8>) -> bool {
    &&& bytes.len() == 9
    &&& bytes[0] == DFU_FUNCTIONAL_DESCRIPTOR_LENGTH
    &&& bytes[1] == DFU_FUNCTIONAL_DESCRIPTOR_TYPE
}

/// The descriptor encoded by a well-formed 9-byte sequence: the attribute
/// bits of byte 2, the two little-endian 16-bit fields, and the version
/// pair read as (major, minor) from bytes 8 and 7.
pub open spec fn descriptor_decoded(bytes: Seq<u8>) -> FunctionalDescriptor {
    FunctionalDescriptor {
        can_download: bytes[2] & 0x01 != 0,
        can_upload: bytes[2] & 0x02 != 0,
        manifestation_tolerant: bytes[2] & 0x04 != 0,
        will_detach: bytes[2] & 0x08 != 0,
        detach_timeout: u16_from_le_pair(bytes[3], bytes[4]),
        transfer_size: u16_from_le_pair(bytes[5], bytes[6]),
        dfu_version: (bytes[8], bytes[7]),
    }
}

/// Parses the payload of a descriptor fetch. Succeeds exactly on
/// well-formed sequences, and then returns every field decoded from the
/// input bytes; a sequence of the wrong length, with a foreign type byte,
/// or with a mismatched length field is rejected without producing any
/// partially-populated descriptor.
pub fn parse_functional_descriptor(bytes: &Vec<u8>) -> (r: Result<
    FunctionalDescriptor,
    DescriptorError,
>)
    ensures
        r is Ok <==> descriptor_well_formed(bytes@),
        descriptor_well_formed(bytes@) ==> r == Ok::<FunctionalDescriptor, DescriptorError>(
            descriptor_decoded(bytes@),
        ),
        bytes@.len() != 9 ==> r == Err::<FunctionalDescriptor, DescriptorError>(
            DescriptorError::WrongLength,
        ),
        bytes@.len() == 9 && bytes@[1] != DFU_FUNCTIONAL_DESCRIPTOR_TYPE ==> r == Err::<
            FunctionalDescriptor,
            DescriptorError,
        >(DescriptorError::WrongType),
        bytes@.len() == 9 && bytes@[1] == DFU_FUNCTIONAL_DESCRIPTOR_TYPE && bytes@[0]
            != DFU_FUNCTIONAL_DESCRIPTOR_LENGTH ==> r == Err::<
            FunctionalDescriptor,
            DescriptorError,
        >(DescriptorError::WrongLengthField),
{
    if bytes.len() != 9 {
        return Err(DescriptorError::WrongLength);
    }
    if bytes[1] != DFU_FUNCTIONAL_DESCRIPTOR_TYPE {
        return Err(DescriptorError::WrongType);
    }
    if bytes[0] != DFU_FUNCTIONAL_DESCRIPTOR_LENGTH {
        return Err(DescriptorError::WrongLengthField);
    }
    let attributes = bytes[2];
    let detach_timeout = bytes[3] as u16 + bytes[4] as u16 * 0x100;
    let transfer_size = bytes[5] as u16 + bytes[6] as u16 * 0x100;
    Ok(FunctionalDescriptor {
        can_download: attributes & 0x01 != 0,
        can_upload: attributes & 0x02 != 0,
        manifestation_tolerant: attributes & 0x04 != 0,
        will_detach: attributes & 0x08 != 0,
        detach_timeout,
        transfer_size,
        dfu_version: (bytes[8], bytes[7]),
    })
}

} // verus!
