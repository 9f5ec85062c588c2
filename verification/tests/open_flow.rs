use dfu_cross_usb::codec::{ControlType, Recipient};
use dfu_cross_usb::descriptor::DescriptorError;
use dfu_cross_usb::error::SessionError;
use dfu_cross_usb::session::{
    open_start, open_step, DfuSession, OpenAction, OpenEvent, OpenOutcome, OpenParams, OpenPhase,
};

fn well_formed_bytes() -> Vec<u8> {
    vec![9, 0x21, 0x0b, 0xff, 0x00, 0x00, 0x08, 0x10, 0x01]
}

/// Drives the open sequence up to the descriptor fetch and returns the
/// phase awaiting the fetched bytes.
fn advance_to_descriptor(params: &OpenParams) -> OpenPhase {
    let (phase, action) = open_start(params);
    assert!(matches!(phase, OpenPhase::AwaitDevice));
    assert!(matches!(action, OpenAction::OpenDevice));

    let (phase, action) = match open_step(params, phase, OpenEvent::DeviceOpened) {
        OpenOutcome::Advance(p, a) => (p, a),
        _ => panic!("opening the device must advance the sequence"),
    };
    assert!(matches!(phase, OpenPhase::AwaitInterface));
    match action {
        OpenAction::OpenInterface(number) => assert_eq!(number, params.interface_number),
        _ => panic!("the next step must claim the interface"),
    }

    let (phase, action) = match open_step(params, phase, OpenEvent::InterfaceOpened) {
        OpenOutcome::Advance(p, a) => (p, a),
        _ => panic!("claiming the interface must advance the sequence"),
    };
    assert!(matches!(phase, OpenPhase::AwaitAltSetting));
    match action {
        OpenAction::SelectAltSetting(request) => {
            assert_eq!(request.control_type, ControlType::Standard);
            assert_eq!(request.recipient, Recipient::Interface);
            assert_eq!(request.request, 11);
            assert_eq!(request.value, params.alt_setting as u16);
            assert_eq!(request.index, params.interface_number as u16);
            assert!(request.data.is_empty());
        }
        _ => panic!("the next step must select the alternate setting"),
    }

    let (phase, action) = match open_step(params, phase, OpenEvent::AltSettingSelected) {
        OpenOutcome::Advance(p, a) => (p, a),
        _ => panic!("selecting the alternate setting must advance the sequence"),
    };
    assert!(matches!(phase, OpenPhase::AwaitDescriptor));
    match action {
        OpenAction::FetchDescriptor(request) => {
            assert_eq!(request.control_type, ControlType::Standard);
            assert_eq!(request.recipient, Recipient::Interface);
            assert_eq!(request.request, 6);
            assert_eq!(request.value, 0x2100);
            assert_eq!(request.index, params.interface_number as u16);
            assert_eq!(request.length, 9);
        }
        _ => panic!("the next step must fetch the functional descriptor"),
    }
    phase
}

fn open_session(params: &OpenParams, descriptor_bytes: Vec<u8>) -> Result<DfuSession, SessionError> {
    let phase = advance_to_descriptor(params);
    match open_step(params, phase, OpenEvent::DescriptorFetched(descriptor_bytes)) {
        OpenOutcome::Complete(session) => Ok(session),
        OpenOutcome::Fail(error) => Err(error),
        OpenOutcome::Advance(..) => panic!("the fetched descriptor must settle the sequence"),
    }
}

#[test]
fn open_with_well_formed_descriptor_yields_a_ready_session() {
    let params = OpenParams { interface_number: 0, alt_setting: 0 };
    let session = open_session(&params, well_formed_bytes()).expect("the open sequence completes");
    assert_eq!(session.interface_number(), 0);
    assert_eq!(session.alt_setting(), 0);
    let descriptor = session.functional_descriptor();
    assert_eq!(descriptor.dfu_version, (0x01, 0x10));
    assert_eq!(descriptor.transfer_size, 2048);
    assert_eq!(descriptor.detach_timeout, 255);
    assert!(descriptor.can_download);
    assert!(matches!(session.protocol(), dfu_core::DfuProtocol::Dfu));

    // The session accepts a subsequent 3-byte download transfer: the
    // class-level DFU_DNLOAD control-OUT is built for its own interface
    // with the payload intact.
    let download = session.write_control_request(0x21, 0x01, 0, vec![0, 1, 2]);
    assert_eq!(download.control_type, ControlType::Class);
    assert_eq!(download.recipient, Recipient::Interface);
    assert_eq!(download.data, vec![0, 1, 2]);
    assert_eq!(download.index, 0);
}

#[test]
fn short_descriptor_fetch_yields_not_found_and_no_session() {
    let params = OpenParams { interface_number: 0, alt_setting: 0 };
    let result = open_session(&params, vec![9, 0x21, 0x0b, 0xff, 0x00]);
    match result {
        Err(SessionError::FunctionalDescriptorNotFound) => {}
        _ => panic!("a 5-byte fetch must yield the descriptor-not-found error"),
    }
}

#[test]
fn rejected_set_interface_fails_before_any_descriptor_fetch() {
    let params = OpenParams { interface_number: 1, alt_setting: 2 };
    let (phase, _) = open_start(&params);
    let (phase, _) = match open_step(&params, phase, OpenEvent::DeviceOpened) {
        OpenOutcome::Advance(p, a) => (p, a),
        _ => panic!("opening the device must advance the sequence"),
    };
    let (phase, _) = match open_step(&params, phase, OpenEvent::InterfaceOpened) {
        OpenOutcome::Advance(p, a) => (p, a),
        _ => panic!("claiming the interface must advance the sequence"),
    };
    let rejection = cross_usb::usb::Error::TransferError;
    match open_step(&params, phase, OpenEvent::AltSettingRejected(rejection)) {
        OpenOutcome::Fail(SessionError::AltSettingNotFound) => {}
        OpenOutcome::Advance(_, OpenAction::FetchDescriptor(_)) => {
            panic!("a rejected SET_INTERFACE must not reach the descriptor fetch")
        }
        _ => panic!("a rejected SET_INTERFACE must surface the alt-setting error"),
    }
}

#[test]
fn transport_fault_while_opening_surfaces_unchanged() {
    let params = OpenParams { interface_number: 0, alt_setting: 0 };
    let (phase, _) = open_start(&params);
    let fault = cross_usb::usb::Error::CommunicationError(String::from("bus fault"));
    match open_step(&params, phase, OpenEvent::DeviceFailed(fault)) {
        OpenOutcome::Fail(SessionError::WebUsb(error)) => {
            assert_eq!(
                error,
                cross_usb::usb::Error::CommunicationError(String::from("bus fault"))
            );
        }
        _ => panic!("a transport fault must be forwarded unchanged"),
    }
}

#[test]
fn transport_fault_while_claiming_the_interface_surfaces_unchanged() {
    let params = OpenParams { interface_number: 0, alt_setting: 0 };
    let (phase, _) = open_start(&params);
    let (phase, _) = match open_step(&params, phase, OpenEvent::DeviceOpened) {
        OpenOutcome::Advance(p, a) => (p, a),
        _ => panic!("opening the device must advance the sequence"),
    };
    let fault = cross_usb::usb::Error::Disconnected;
    match open_step(&params, phase, OpenEvent::InterfaceFailed(fault)) {
        OpenOutcome::Fail(SessionError::WebUsb(error)) => {
            assert_eq!(error, cross_usb::usb::Error::Disconnected);
        }
        _ => panic!("a transport fault must be forwarded unchanged"),
    }
}

#[test]
fn transport_fault_while_fetching_the_descriptor_surfaces_unchanged() {
    let params = OpenParams { interface_number: 0, alt_setting: 0 };
    let phase = advance_to_descriptor(&params);
    let fault = cross_usb::usb::Error::TransferError;
    match open_step(&params, phase, OpenEvent::DescriptorFetchFailed(fault)) {
        OpenOutcome::Fail(SessionError::WebUsb(error)) => {
            assert_eq!(error, cross_usb::usb::Error::TransferError);
        }
        _ => panic!("a transport fault must be forwarded unchanged"),
    }
}

#[test]
fn foreign_descriptor_type_surfaces_a_parse_error() {
    let params = OpenParams { interface_number: 0, alt_setting: 0 };
    let mut bytes = well_formed_bytes();
    bytes[1] = 0x22;
    match open_session(&params, bytes) {
        Err(SessionError::FunctionalDescriptor(DescriptorError::WrongType)) => {}
        _ => panic!("a foreign type byte must surface the parse error"),
    }
}

#[test]
fn unsupported_dfu_version_fails_protocol_initialization() {
    let params = OpenParams { interface_number: 0, alt_setting: 0 };
    let mut bytes = well_formed_bytes();
    bytes[7] = 0x11;
    match open_session(&params, bytes) {
        Err(SessionError::Dfu(_)) => {}
        _ => panic!("an unsupported version must surface the protocol engine's error"),
    }
}

#[test]
fn read_control_request_is_built_for_the_claimed_interface() {
    let params = OpenParams { interface_number: 3, alt_setting: 1 };
    let session = open_session(&params, well_formed_bytes()).expect("the open sequence completes");
    let request = session.read_control_request(0xa1, 0x03, 0, 6);
    assert_eq!(request.control_type, ControlType::Class);
    assert_eq!(request.recipient, Recipient::Interface);
    assert_eq!(request.request, 0x03);
    assert_eq!(request.index, 3);
    assert_eq!(request.length, 6);
}
