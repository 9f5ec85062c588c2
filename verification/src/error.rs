//! The adapter's error type. Collaborator errors are forwarded
//! transparently; the not-found variants are raised locally, exactly when a
//! collaborator call succeeds at the transport level but yields a
//! semantically absent or malformed result.

use vstd::prelude::*;

use crate::descriptor::DescriptorError;

verus! {

/// Declares the USB transport's error type so that transport faults can be
/// carried through and surfaced unchanged.
#[verifier::external_type_specification]
#[verifier::external_body]
pub struct ExUsbError(cross_usb::usb::Error);

/// An error surfaced by a DFU session over the USB transport.
#[derive(Debug)]
pub enum SessionError {
    /// No matching device was found during enumeration.
    DeviceNotFound,
    /// The descriptor fetch succeeded but did not yield the 9 descriptor
    /// bytes.
    FunctionalDescriptorNotFound,
    /// The transport rejected the SET_INTERFACE transfer.
    AltSettingNotFound,
    /// The fetched descriptor bytes are malformed.
    FunctionalDescriptor(DescriptorError),
    /// The protocol engine rejected its inputs, forwarded unchanged.
    Dfu(dfu_core::Error),
    /// A transport-level fault, forwarded unchanged.
    WebUsb(cross_usb::usb::Error),
}

} // verus!
