use mouse_core::hid::{
    class_descriptor, report_descriptor, zero_report, ControlInAction, ControlOutAction,
    ControlRequest, HIDClass, Recipient, RequestType, UsbError,
};

fn expected_report_descriptor() -> Vec<u8> {
    vec![
        0x05, 0x01, 0x09, 0x02, 0xa1, 0x01, 0x09, 0x01, 0xa1, 0x00, 0x05, 0x09, 0x19, 0x01,
        0x29, 0x03, 0x15, 0x00, 0x25, 0x01, 0x95, 0x03, 0x75, 0x01, 0x81, 0x02, 0x95, 0x01,
        0x75, 0x05, 0x81, 0x03, 0x05, 0x01, 0x09, 0x30, 0x09, 0x31, 0x15, 0x81, 0x25, 0x7f,
        0x75, 0x08, 0x95, 0x02, 0x81, 0x06, 0xc0, 0xc0,
    ]
}

fn std_get_descriptor(dtype: u8) -> ControlRequest {
    ControlRequest {
        request_type: RequestType::Standard,
        recipient: Recipient::Interface,
        request: 0x06,
        value: (dtype as u16) << 8,
        index: 0,
    }
}

fn class_request(request: u8, index: u16) -> ControlRequest {
    ControlRequest {
        request_type: RequestType::Class,
        recipient: Recipient::Interface,
        request,
        value: 0,
        index,
    }
}

#[test]
fn report_descriptor_bytes() {
    assert_eq!(report_descriptor(), expected_report_descriptor());
}

#[test]
fn class_descriptor_bytes() {
    assert_eq!(class_descriptor(), vec![0x09, 0x21, 0x01, 0x01, 0x00, 0x01, 0x22, 50, 0]);
}

#[test]
fn class_descriptor_length_field_matches_report_length() {
    let cd = class_descriptor();
    let rd = report_descriptor();
    assert_eq!(cd.len(), 9);
    assert_eq!(cd[7] as usize + 256 * (cd[8] as usize), rd.len());
}

#[test]
fn get_descriptor_hid_type_returns_class_descriptor() {
    let hid = HIDClass::new(0);
    match hid.control_in(&std_get_descriptor(0x21)) {
        ControlInAction::Accept(d) => assert_eq!(d, class_descriptor()),
        other => panic!("expected the class descriptor, got {:?}", other),
    }
}

#[test]
fn get_descriptor_report_type_returns_report_descriptor() {
    let hid = HIDClass::new(0);
    match hid.control_in(&std_get_descriptor(0x22)) {
        ControlInAction::Accept(d) => assert_eq!(d, expected_report_descriptor()),
        other => panic!("expected the report descriptor, got {:?}", other),
    }
}

#[test]
fn get_descriptor_other_type_is_ignored() {
    let hid = HIDClass::new(0);
    assert!(matches!(hid.control_in(&std_get_descriptor(0x23)), ControlInAction::Ignore));
}

#[test]
fn get_report_always_answers_eight_zero_bytes() {
    let mut hid = HIDClass::new(4);
    // Prior state must not matter: exercise the transport first.
    let _ = hid.write(&[1, 2, 3]);
    match hid.control_in(&class_request(0x01, 4)) {
        ControlInAction::Accept(d) => assert_eq!(d, vec![0u8; 8]),
        other => panic!("expected eight zero bytes, got {:?}", other),
    }
    assert_eq!(zero_report(), vec![0u8; 8]);
}

#[test]
fn other_class_requests_are_rejected() {
    let hid = HIDClass::new(0);
    for request in [0x09u8, 0x02, 0x0a, 0x03, 0x0b] {
        // SET_REPORT, GET_IDLE, SET_IDLE, GET_PROTOCOL, SET_PROTOCOL
        match hid.control_in(&class_request(request, 0)) {
            ControlInAction::Reject => (),
            other => panic!("request {:#x} not rejected: {:?}", request, other),
        }
    }
}

#[test]
fn class_request_for_other_interface_is_ignored() {
    let hid = HIDClass::new(0);
    assert!(matches!(hid.control_in(&class_request(0x01, 1)), ControlInAction::Ignore));
    let vendor = ControlRequest {
        request_type: RequestType::Vendor,
        recipient: Recipient::Interface,
        request: 0x01,
        value: 0,
        index: 0,
    };
    assert!(matches!(hid.control_in(&vendor), ControlInAction::Ignore));
}

#[test]
fn control_out_stalls_only_own_class_requests() {
    let hid = HIDClass::new(2);
    assert_eq!(hid.control_out(&class_request(0x09, 2)), ControlOutAction::Reject);
    assert_eq!(hid.control_out(&class_request(0x09, 1)), ControlOutAction::Ignore);
    assert_eq!(hid.control_out(&std_get_descriptor(0x21)), ControlOutAction::Ignore);
}

#[test]
fn configuration_descriptors_describe_a_boot_mouse() {
    let hid = HIDClass::new(3);
    let c = hid.get_configuration_descriptors();
    assert_eq!(c.interface_number, 3);
    assert_eq!(c.interface_class, 0x03);
    assert_eq!(c.interface_subclass, 0x01);
    assert_eq!(c.interface_protocol, 0x02);
    assert_eq!(c.hid_descriptor_type, 0x21);
    assert_eq!(c.hid_descriptor_body, vec![0x01, 0x01, 0x00, 0x01, 0x22, 50, 0]);
}

#[test]
fn write_accepts_report_when_endpoint_free() {
    let mut hid = HIDClass::new(0);
    assert_eq!(hid.write(&[0, 1, 2]), Ok(3));
    assert!(hid.report_ep.busy);
}

#[test]
fn write_signals_would_block_while_draining() {
    let mut hid = HIDClass::new(0);
    assert_eq!(hid.write(&[0, 1, 2]), Ok(3));
    assert_eq!(hid.write(&[0, 1, 2]), Err(UsbError::WouldBlock));
    hid.report_ep.complete();
    assert_eq!(hid.write(&[0, 1, 2]), Ok(3));
}

#[test]
fn write_signals_buffer_overflow_beyond_capacity() {
    let mut hid = HIDClass::new(0);
    assert_eq!(hid.write(&[0u8; 9]), Err(UsbError::BufferOverflow));
    // An oversized report does not occupy the endpoint.
    assert!(!hid.report_ep.busy);
}
