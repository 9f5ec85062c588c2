//! The DFU session: exclusive owner of the negotiated interface state, and
//! the open-sequence state machine that orders alternate-setting selection,
//! descriptor fetch and protocol initialization.

use vstd::prelude::*;

use crate::codec::{class_of, recipient_of, ControlType, Recipient};
use crate::descriptor::{
    parse_functional_descriptor, descriptor_decoded, DescriptorError, FunctionalDescriptor,
    DFU_FUNCTIONAL_DESCRIPTOR_INDEX, DFU_FUNCTIONAL_DESCRIPTOR_LENGTH,
    DFU_FUNCTIONAL_DESCRIPTOR_TYPE,
};
use crate::error::SessionError;
use crate::transfer::{
    control_in_request, control_out_request, ControlInRequest, ControlOutRequest, GET_DESCRIPTOR,
    SET_INTERFACE,
};

verus! {

/// What the caller asked to open: which interface to claim and which
/// alternate setting to select on it.
#[derive(Clone, Copy, Debug, PartialEq, Eq, Structural)]
pub struct OpenParams {
    /// The interface number to claim.
    pub interface_number: u8,
    /// The alternate setting to select.
    pub alt_setting: u8,
}

/// Where the open sequence stands: which collaborator result it waits for.
#[derive(Clone, Copy, Debug, PartialEq, Eq, Structural)]
pub enum OpenPhase {
    /// Waiting for the device to be opened.
    AwaitDevice,
    /// Waiting for the interface to be claimed.
    AwaitInterface,
    /// Waiting for the SET_INTERFACE transfer to complete.
    AwaitAltSetting,
    /// Waiting for the descriptor fetch to complete.
    AwaitDescriptor,
}

/// The next outside step the driver must perform for the open sequence.
#[derive(Debug)]
pub enum OpenAction {
    /// Open the device.
    OpenDevice,
    /// Claim the interface with this number.
    OpenInterface(u8),
    /// Issue this control-OUT transfer to select the alternate setting.
    SelectAltSetting(ControlOutRequest),
    /// Issue this control-IN transfer to fetch the functional descriptor.
    FetchDescriptor(ControlInRequest),
}

/// What the driver reports back after performing an open-sequence action.
#[derive(Debug)]
pub enum OpenEvent {
    /// The device was opened.
    DeviceOpened,
    /// Opening the device failed at the transport.
    DeviceFailed(cross_usb::usb::Error),
    /// The interface was claimed.
    InterfaceOpened,
    /// Claiming the interface failed at the transport.
    InterfaceFailed(cross_usb::usb::Error),
    /// The SET_INTERFACE transfer completed.
    AltSettingSelected,
    /// The transport rejected the SET_INTERFACE transfer.
    AltSettingRejected(cross_usb::usb::Error),
    /// The descriptor fetch completed with this payload.
    DescriptorFetched(Vec<u8>),
    /// The descriptor fetch failed at the transport.
    DescriptorFetchFailed(cross_usb::usb::Error),
}

/// A ready DFU session: the negotiated interface state, the parsed
/// functional descriptor, and the protocol object, all immutable for the
/// rest of the session. A session exists only once the open sequence has
/// completed, so the interface is claimed before any transfer is issued
/// through it.
pub struct DfuSession {
    interface_number: u8,
    alt_setting: u8,
    descriptor: FunctionalDescriptor,
    protocol: dfu_core::DfuProtocol<dfu_core::memory_layout::MemoryLayout>,
}

/// What an open-sequence step decided: continue with another outside
/// action, finish with a ready session, or fail with the adapter's error.
pub enum OpenOutcome {
    /// The sequence goes on: the driver performs the action and reports
    /// back in the given phase.
    Advance(OpenPhase, OpenAction),
    /// The sequence is complete.
    Complete(DfuSession),
    /// The sequence failed.
    Fail(SessionError),
}

/// Which events can answer which phase: the driver reports exactly the
/// result of the action it was handed.
pub open spec fn event_fits(phase: OpenPhase, event: OpenEvent) -> bool {
    match phase {
        OpenPhase::AwaitDevice => event is DeviceOpened || event is DeviceFailed,
        OpenPhase::AwaitInterface => event is InterfaceOpened || event is InterfaceFailed,
        OpenPhase::AwaitAltSetting => event is AltSettingSelected || event is AltSettingRejected,
        OpenPhase::AwaitDescriptor => event is DescriptorFetched || event is DescriptorFetchFailed,
    }
}

/// The SET_INTERFACE transfer the open sequence issues: a standard,
/// interface-recipient control-OUT with the requested alternate setting as
/// value, the claimed interface as index, and an empty payload.
pub open spec fn is_select_alt_setting_request(r: ControlOutRequest, params: OpenParams) -> bool {
    &&& r.control_type is Standard
    &&& r.recipient is Interface
    &&& r.request == SET_INTERFACE
    &&& r.value == params.alt_setting as u16
    &&& r.index == params.interface_number as u16
    &&& r.data@.len() == 0
}

/// The descriptor fetch the open sequence issues: a standard,
/// interface-recipient control-IN with the DFU functional descriptor type
/// in the value's high byte and the descriptor index in its low byte,
/// asking for exactly the 9 descriptor bytes.
pub open spec fn is_fetch_descriptor_request(r: ControlInRequest, params: OpenParams) -> bool {
    &&& r.control_type is Standard
    &&& r.recipient is Interface
    &&& r.request == GET_DESCRIPTOR
    &&& r.value == 0x2100
    &&& r.index == params.interface_number as u16
    &&& r.length == DFU_FUNCTIONAL_DESCRIPTOR_LENGTH as u16
}

/// Starts the open sequence: the first outside step is opening the device.
pub fn open_start(params: &OpenParams) -> (r: (OpenPhase, OpenAction))
    ensures
        r.0 is AwaitDevice,
        r.1 is OpenDevice,
{
    (OpenPhase::AwaitDevice, OpenAction::OpenDevice)
}

/// One decision step of the open sequence. The driver performs the actions
/// in the order the machine hands them out, so the alternate setting is
/// selected before the descriptor is fetched, and both before the protocol
/// object is constructed. Transport faults while opening the device,
/// claiming the interface or fetching the descriptor surface unchanged; a
/// rejected SET_INTERFACE surfaces as the alternate-setting error; a
/// fetched payload without the 9 descriptor bytes surfaces as the
/// descriptor-not-found error; malformed descriptor contents surface as a
/// parse error; and a well-formed descriptor completes the session exactly
/// when the protocol engine accepts its version.
pub fn open_step(params: &OpenParams, phase: OpenPhase, event: OpenEvent) -> (r: OpenOutcome)
    requires
        event_fits(phase, event),
    ensures
        phase is AwaitDevice ==> (match event {
            OpenEvent::DeviceOpened => {
                &&& r matches OpenOutcome::Advance(p, a)
                &&& p is AwaitInterface
                &&& a matches OpenAction::OpenInterface(n)
                &&& n == params.interface_number
            },
            OpenEvent::DeviceFailed(e) => r == OpenOutcome::Fail(SessionError::WebUsb(e)),
            _ => true,
        }),
        phase is AwaitInterface ==> (match event {
            OpenEvent::InterfaceOpened => {
                &&& r matches OpenOutcome::Advance(p, a)
                &&& p is AwaitAltSetting
                &&& a matches OpenAction::SelectAltSetting(req)
                &&& is_select_alt_setting_request(req, *params)
            },
            OpenEvent::InterfaceFailed(e) => r == OpenOutcome::Fail(SessionError::WebUsb(e)),
            _ => true,
        }),
        phase is AwaitAltSetting ==> (match event {
            OpenEvent::AltSettingSelected => {
                &&& r matches OpenOutcome::Advance(p, a)
                &&& p is AwaitDescriptor
                &&& a matches OpenAction::FetchDescriptor(req)
                &&& is_fetch_descriptor_request(req, *params)
            },
            OpenEvent::AltSettingRejected(_) => r == OpenOutcome::Fail(
                SessionError::AltSettingNotFound,
            ),
            _ => true,
        }),
        phase is AwaitDescriptor ==> (match event {
            OpenEvent::DescriptorFetched(bytes) => {
                if bytes@.len() != 9 {
                    r == OpenOutcome::Fail(SessionError::FunctionalDescriptorNotFound)
                } else if bytes@[1] != DFU_FUNCTIONAL_DESCRIPTOR_TYPE {
                    r == OpenOutcome::Fail(
                        SessionError::FunctionalDescriptor(DescriptorError::WrongType),
                    )
                } else if bytes@[0] != DFU_FUNCTIONAL_DESCRIPTOR_LENGTH {
                    r == OpenOutcome::Fail(
                        SessionError::FunctionalDescriptor(DescriptorError::WrongLengthField),
                    )
                } else if descriptor_decoded(bytes@).dfu_version == (1u8, 0x10u8) {
                    r matches OpenOutcome::Complete(s) && s.spec_descriptor() == descriptor_decoded(
                        bytes@,
                    ) && s.spec_interface_number() == params.interface_number && s.spec_alt_setting()
                        == params.alt_setting
                } else {
                    r matches OpenOutcome::Fail(e) && e is Dfu
                }
            },
            OpenEvent::DescriptorFetchFailed(e) => r == OpenOutcome::Fail(SessionError::WebUsb(e)),
            _ => true,
        }),
{
    match (phase, event) {
        (OpenPhase::AwaitDevice, OpenEvent::DeviceOpened) => OpenOutcome::Advance(
            OpenPhase::AwaitInterface,
            OpenAction::OpenInterface(params.interface_number),
        ),
        (OpenPhase::AwaitDevice, OpenEvent::DeviceFailed(e)) => OpenOutcome::Fail(
            SessionError::WebUsb(e),
        ),
        (OpenPhase::AwaitInterface, OpenEvent::InterfaceOpened) => {
            let request = ControlOutRequest {
                control_type: ControlType::Standard,
                recipient: Recipient::Interface,
                request: SET_INTERFACE,
                value: params.alt_setting as u16,
                index: params.interface_number as u16,
                data: Vec::new(),
            };
            OpenOutcome::Advance(OpenPhase::AwaitAltSetting, OpenAction::SelectAltSetting(request))
        },
        (OpenPhase::AwaitInterface, OpenEvent::InterfaceFailed(e)) => OpenOutcome::Fail(
            SessionError::WebUsb(e),
        ),
        (OpenPhase::AwaitAltSetting, OpenEvent::AltSettingSelected) => {
            let value = (DFU_FUNCTIONAL_DESCRIPTOR_TYPE as u16) << 8 | (
            DFU_FUNCTIONAL_DESCRIPTOR_INDEX as u16);
            proof {
                assert((0x21u16) << 8 | (0x00u16) == 0x2100) by (bit_vector);
            }
            let request = ControlInRequest {
                control_type: ControlType::Standard,
                recipient: Recipient::Interface,
                request: GET_DESCRIPTOR,
                value,
                index: params.interface_number as u16,
                length: DFU_FUNCTIONAL_DESCRIPTOR_LENGTH as u16,
            };
            OpenOutcome::Advance(OpenPhase::AwaitDescriptor, OpenAction::FetchDescriptor(request))
        },
        (OpenPhase::AwaitAltSetting, OpenEvent::AltSettingRejected(_)) => OpenOutcome::Fail(
            SessionError::AltSettingNotFound,
        ),
        (OpenPhase::AwaitDescriptor, OpenEvent::DescriptorFetched(bytes)) => {
            match parse_functional_descriptor(&bytes) {
                Err(DescriptorError::WrongLength) => OpenOutcome::Fail(
                    SessionError::FunctionalDescriptorNotFound,
                ),
                Err(e) => OpenOutcome::Fail(SessionError::FunctionalDescriptor(e)),
                Ok(descriptor) => {
                    proof {
                        reveal_strlit("");
                        assert(!""@.contains('/'));
                    }
                    match dfu_core::DfuProtocol::new("", descriptor.dfu_version) {
                        Ok(protocol) => OpenOutcome::Complete(
                            DfuSession {
                                interface_number: params.interface_number,
                                alt_setting: params.alt_setting,
                                descriptor,
                                protocol,
                            },
                        ),
                        Err(e) => OpenOutcome::Fail(SessionError::Dfu(e)),
                    }
                },
            }
        },
        (OpenPhase::AwaitDescriptor, OpenEvent::DescriptorFetchFailed(e)) => OpenOutcome::Fail(
            SessionError::WebUsb(e),
        ),
        _ => unreached(),
    }
}

impl DfuSession {
    /// The claimed interface's number.
    pub closed spec fn spec_interface_number(&self) -> u8 {
        self.interface_number
    }

    /// The selected alternate setting.
    pub closed spec fn spec_alt_setting(&self) -> u8 {
        self.alt_setting
    }

    /// The functional descriptor parsed at open time.
    pub closed spec fn spec_descriptor(&self) -> FunctionalDescriptor {
        self.descriptor
    }

    /// The protocol object constructed at open time.
    pub closed spec fn spec_protocol(&self) -> &dfu_core::DfuProtocol<
        dfu_core::memory_layout::MemoryLayout,
    > {
        &self.protocol
    }

    /// The claimed interface's number.
    pub fn interface_number(&self) -> (r: u8)
        ensures
            r == self.spec_interface_number(),
    {
        self.interface_number
    }

    /// The selected alternate setting.
    pub fn alt_setting(&self) -> (r: u8)
        ensures
            r == self.spec_alt_setting(),
    {
        self.alt_setting
    }

    /// The functional descriptor of the device.
    pub fn functional_descriptor(&self) -> (r: &FunctionalDescriptor)
        ensures
            *r == self.spec_descriptor(),
    {
        &self.descriptor
    }

    /// The protocol of the device.
    pub fn protocol(&self) -> (r: &dfu_core::DfuProtocol<dfu_core::memory_layout::MemoryLayout>)
        ensures
            r == self.spec_protocol(),
    {
        &self.protocol
    }

    /// Builds the control-IN descriptor for a read issued on this session's
    /// claimed interface, reading at most `length` bytes.
    pub fn read_control_request(&self, request_type: u8, request: u8, value: u16, length: u16) -> (r:
        ControlInRequest)
        ensures
            r.control_type == class_of(request_type),
            r.recipient == recipient_of(request_type),
            r.request == request,
            r.value == value,
            r.index == self.spec_interface_number() as u16,
            r.length == length,
    {
        control_in_request(request_type, request, value, self.interface_number, length)
    }

    /// Builds the control-OUT descriptor for a write issued on this
    /// session's claimed interface, sending the given payload.
    pub fn write_control_request(&self, request_type: u8, request: u8, value: u16, data: Vec<u8>) -> (r:
        ControlOutRequest)
        ensures
            r.control_type == class_of(request_type),
            r.recipient == recipient_of(request_type),
            r.request == request,
            r.value == value,
            r.index == self.spec_interface_number() as u16,
            r.data@ == data@,
    {
        control_out_request(request_type, request, value, self.interface_number, data)
    }
}

} // verus!
