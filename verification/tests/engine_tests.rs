//! Tests of the TLV engine, the dispatcher and the whole message transform.

use binding_server::address::{AddressFamily, TransportAddress};
use binding_server::attributes::mapped_address::MappedAddress;
use binding_server::attributes::{
    get_attributes, serialise_attribute, AttributeBody, MessageAttribute,
};
use binding_server::config::Config;
use binding_server::handlers::binding::Binding;
use binding_server::handlers::MessageHandler;
use binding_server::header::{MessageClass, MessageHeader, MessageType};
use binding_server::server::process_message;

fn test_header(mclass: MessageClass, length: u16) -> MessageHeader {
    MessageHeader {
        mtype: MessageType::Binding,
        mclass,
        length,
        id: vec![0, 1, 2, 3, 4, 5, 6, 7, 8, 9, 10, 11],
    }
}

fn tlv(code: u16, value: &[u8]) -> Vec<u8> {
    let mut out = vec![
        (code / 256) as u8,
        (code % 256) as u8,
        (value.len() / 256) as u8,
        (value.len() % 256) as u8,
    ];
    out.extend_from_slice(value);
    out
}

#[test]
fn unknown_attribute_does_not_poison_scan() {
    // one unregistered type, then a well-formed username
    let mut body = tlv(0x0099, &[1, 2, 3, 4]);
    body.extend_from_slice(&tlv(6, b"alice"));
    let header = test_header(MessageClass::Request, body.len() as u16);
    let mapping = get_attributes(body.as_slice(), &header);
    match mapping.get(MessageAttribute::Username) {
        Some(AttributeBody::Username(u)) => assert_eq!(u.value().unwrap(), "alice"),
        _ => panic!("the known attribute must survive the unknown one"),
    }
    assert!(mapping.get(MessageAttribute::MappedAddress).is_none());
}

#[test]
fn duplicate_attribute_keeps_later_value() {
    let mut body = tlv(6, b"first");
    body.extend_from_slice(&tlv(6, b"second"));
    let header = test_header(MessageClass::Request, body.len() as u16);
    let mapping = get_attributes(body.as_slice(), &header);
    match mapping.get(MessageAttribute::Username) {
        Some(AttributeBody::Username(u)) => assert_eq!(u.value().unwrap(), "second"),
        _ => panic!("the username must be present"),
    }
}

#[test]
fn oversize_realm_fails_but_rest_parses() {
    // a realm of 129 ASCII bytes exceeds its cap and is skipped whole,
    // while the username after it still decodes
    let mut body = tlv(20, &[b'r'; 129]);
    body.extend_from_slice(&tlv(6, b"user"));
    let header = test_header(MessageClass::Request, body.len() as u16);
    let mapping = get_attributes(body.as_slice(), &header);
    assert!(mapping.get(MessageAttribute::Realm).is_none());
    match mapping.get(MessageAttribute::Username) {
        Some(AttributeBody::Username(u)) => assert_eq!(u.value().unwrap(), "user"),
        _ => panic!("the username must be present"),
    }
}

#[test]
fn truncated_record_stops_scan_quietly() {
    // the username record declares 200 value bytes but far fewer follow
    let mut body = tlv(6, b"alice");
    body[3] = 200;
    let header = test_header(MessageClass::Request, body.len() as u16);
    let mapping = get_attributes(body.as_slice(), &header);
    assert!(mapping.get(MessageAttribute::Username).is_none());
}

#[test]
fn malformed_attribute_only_skips_itself() {
    // an odd-length unknown-attributes record fails its decode; the mapped
    // address after it still decodes
    let mut body = tlv(10, &[1, 2, 3]);
    body.extend_from_slice(&tlv(1, &[0, 1, 0x13, 0x88, 192, 0, 2, 1]));
    let header = test_header(MessageClass::Request, body.len() as u16);
    let mapping = get_attributes(body.as_slice(), &header);
    assert!(mapping.get(MessageAttribute::UnknownAttributes).is_none());
    match mapping.get(MessageAttribute::MappedAddress) {
        Some(AttributeBody::MappedAddress(a)) => {
            let address = a.address().unwrap();
            assert_eq!(address.port, 5000);
            assert_eq!(address.octets, vec![192, 0, 2, 1]);
        },
        _ => panic!("the mapped address must be present"),
    }
}

#[test]
fn serialise_attribute_emits_zero_length_for_unset_value() {
    let bytes = serialise_attribute(&AttributeBody::MappedAddress(MappedAddress::new()));
    assert_eq!(bytes, vec![0, 1, 0, 0]);
}

#[test]
fn serialise_attribute_wraps_value_in_tlv() {
    let address =
        TransportAddress { family: AddressFamily::V4, port: 5000, octets: vec![192, 0, 2, 1] };
    let bytes = serialise_attribute(&AttributeBody::MappedAddress(MappedAddress::with_address(
        address,
    )));
    assert_eq!(bytes, tlv(1, &[0, 1, 0x13, 0x88, 192, 0, 2, 1]));
}

fn v4_origin() -> TransportAddress {
    TransportAddress { family: AddressFamily::V4, port: 5000, octets: vec![192, 0, 2, 1] }
}

#[test]
fn binding_request_draws_obfuscated_address_response() {
    // request header: method Binding, class Request, no attributes
    let message = test_header(MessageClass::Request, 0).serialise();
    let response = process_message(message.as_slice(), &v4_origin())
        .expect("a binding request draws a response");
    let expected_header =
        vec![0x01, 0x01, 0x00, 0x0C, 0x21, 0x12, 0xA4, 0x42, 0, 1, 2, 3, 4, 5, 6, 7, 8, 9, 10, 11];
    let expected_body = vec![
        0x00,
        0x20,
        0x00,
        0x08,
        0,
        1,
        (5000u16 >> 8) as u8 ^ 0x21,
        (5000u16 & 0xFF) as u8 ^ 0x12,
        192 ^ 0x21,
        0 ^ 0x12,
        2 ^ 0xA4,
        1 ^ 0x42,
    ];
    assert_eq!(&response[..20], expected_header.as_slice());
    assert_eq!(&response[20..], expected_body.as_slice());
}

#[test]
fn response_echoes_transaction_id() {
    let message = test_header(MessageClass::Request, 0).serialise();
    let response = process_message(message.as_slice(), &v4_origin()).unwrap();
    assert_eq!(&response[8..20], &message[8..20]);
}

#[test]
fn binding_request_from_v6_origin_draws_response() {
    let origin = TransportAddress {
        family: AddressFamily::V6,
        port: 443,
        octets: (1..=16).collect(),
    };
    let message = test_header(MessageClass::Request, 0).serialise();
    let response = process_message(message.as_slice(), &origin).unwrap();
    assert_eq!(response.len(), 20 + 24);
    assert_eq!(response[3], 24);
    // the v6 key is the magic cookie followed by the transaction id
    let key = [vec![0x21u8, 0x12, 0xA4, 0x42], message[8..20].to_vec()].concat();
    for i in 0..16 {
        assert_eq!(response[28 + i], (i as u8 + 1) ^ key[i]);
    }
}

#[test]
fn indication_never_draws_output() {
    // an indication with arbitrary attribute content draws nothing
    let body = tlv(6, b"alice");
    let mut message = test_header(MessageClass::Indication, body.len() as u16).serialise();
    message.extend_from_slice(&body);
    assert!(process_message(message.as_slice(), &v4_origin()).is_none());
}

#[test]
fn success_and_error_classes_are_dropped() {
    for mclass in [MessageClass::Success, MessageClass::Error] {
        let message = test_header(mclass, 0).serialise();
        assert!(process_message(message.as_slice(), &v4_origin()).is_none());
    }
}

#[test]
fn short_buffer_draws_no_response() {
    assert!(process_message(&[], &v4_origin()).is_none());
    assert!(process_message(&[0x00, 0x01, 0x00, 0x00], &v4_origin()).is_none());
    let message = test_header(MessageClass::Request, 0).serialise();
    assert!(process_message(&message[..19], &v4_origin()).is_none());
}

#[test]
fn wrong_magic_cookie_draws_no_response() {
    let body = tlv(6, b"alice");
    let mut message = test_header(MessageClass::Request, body.len() as u16).serialise();
    message.extend_from_slice(&body);
    message[6] = 0x00;
    assert!(process_message(message.as_slice(), &v4_origin()).is_none());
}

#[test]
fn request_with_truncated_attribute_section_still_answered() {
    // the header declares 100 attribute bytes but few follow: the scan
    // stops quietly and the request is still answered
    let mut message = test_header(MessageClass::Request, 100).serialise();
    message.extend_from_slice(&[0, 6, 0]);
    let response = process_message(message.as_slice(), &v4_origin());
    assert!(response.is_some());
}

#[test]
fn binding_handler_answers_through_the_handler_interface() {
    let header = test_header(MessageClass::Request, 0);
    let mapping = get_attributes(&[], &header);
    let body = <Binding as MessageHandler>::request(&header, &mapping, &v4_origin())
        .expect("the binding handler never declines a well-formed origin")
        .expect("a binding request always has a payload");
    assert_eq!(&body[..6], &[0x00, 0x20, 0x00, 0x08, 0, 1]);
}

#[test]
fn config_uses_loaded_port() {
    let config = Config::from_loaded_port(Some(String::from("8080")));
    assert_eq!(config.port, "8080");
}

#[test]
fn config_falls_back_to_default_port() {
    let config = Config::from_loaded_port(None);
    assert_eq!(config.port, "3478");
}
