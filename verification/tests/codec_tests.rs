//! Tests of the header codec and the per-type attribute codecs.

use binding_server::address::{AddressFamily, TransportAddress};
use binding_server::attributes::error_code::{ErrorCode, ErrorCodeType};
use binding_server::attributes::mapped_address::MappedAddress;
use binding_server::attributes::message_integrity::MessageIntegrity;
use binding_server::attributes::nonce::Nonce;
use binding_server::attributes::realm::Realm;
use binding_server::attributes::unknown_attributes::UnknownAttributes;
use binding_server::attributes::username::Username;
use binding_server::attributes::xor_mapped_address::XorMappedAddress;
use binding_server::header::{
    get_message_class, get_message_type, verify_header, MessageClass, MessageHeader, MessageType,
};

fn test_header(mclass: MessageClass, length: u16) -> MessageHeader {
    MessageHeader {
        mtype: MessageType::Binding,
        mclass,
        length,
        id: vec![0, 1, 2, 3, 4, 5, 6, 7, 8, 9, 10, 11],
    }
}

#[test]
fn header_serialise_request_bytes() {
    let header = test_header(MessageClass::Request, 0x1234);
    let bytes = header.serialise();
    assert_eq!(
        bytes,
        vec![0x00, 0x01, 0x12, 0x34, 0x21, 0x12, 0xA4, 0x42, 0, 1, 2, 3, 4, 5, 6, 7, 8, 9, 10, 11]
    );
}

#[test]
fn header_serialise_class_bits() {
    let classes = [
        (MessageClass::Request, 0x00u8, 0x01u8),
        (MessageClass::Indication, 0x00, 0x11),
        (MessageClass::Success, 0x01, 0x01),
        (MessageClass::Error, 0x01, 0x11),
    ];
    for (mclass, b0, b1) in classes {
        let bytes = test_header(mclass, 0).serialise();
        assert_eq!(bytes[0], b0);
        assert_eq!(bytes[1], b1);
        assert_eq!(bytes.len(), 20);
    }
}

#[test]
fn header_parse_serialise_round_trip() {
    for mclass in [
        MessageClass::Request,
        MessageClass::Indication,
        MessageClass::Success,
        MessageClass::Error,
    ] {
        let header = test_header(mclass, 516);
        let bytes = header.serialise();
        let parsed = verify_header(bytes.as_slice()).expect("serialised header must parse");
        assert_eq!(parsed.mtype, MessageType::Binding);
        assert_eq!(parsed.mclass, mclass);
        assert_eq!(parsed.length, 516);
        assert_eq!(parsed.id, header.id);
        // and serialising what was parsed gives the same bytes back
        assert_eq!(parsed.serialise(), bytes);
    }
}

#[test]
fn header_rejects_wrong_length() {
    assert!(matches!(verify_header(&[0u8; 19]), Err(1)));
    assert!(matches!(verify_header(&[0u8; 21]), Err(1)));
    assert!(matches!(verify_header(&[]), Err(1)));
}

#[test]
fn header_rejects_bad_top_bits() {
    let mut bytes = test_header(MessageClass::Request, 0).serialise();
    bytes[0] = 0b0100_0000;
    assert!(verify_header(bytes.as_slice()).is_err());
}

#[test]
fn header_rejects_wrong_magic_cookie() {
    let mut bytes = test_header(MessageClass::Request, 0).serialise();
    bytes[4] = 0x20;
    assert!(verify_header(bytes.as_slice()).is_err());
}

#[test]
fn header_rejects_unknown_method() {
    let mut bytes = test_header(MessageClass::Request, 0).serialise();
    bytes[1] = 0x05;
    assert!(verify_header(bytes.as_slice()).is_err());
}

#[test]
fn message_class_bits() {
    assert_eq!(get_message_class(0x00, 0x01), MessageClass::Request);
    assert_eq!(get_message_class(0x00, 0x11), MessageClass::Indication);
    assert_eq!(get_message_class(0x01, 0x01), MessageClass::Success);
    assert_eq!(get_message_class(0x01, 0x11), MessageClass::Error);
}

#[test]
fn message_type_patterns() {
    assert_eq!(get_message_type(0x00, 0x01), Some(MessageType::Binding));
    assert_eq!(get_message_type(0x01, 0x11), Some(MessageType::Binding));
    assert_eq!(get_message_type(0x02, 0x01), None);
    assert_eq!(get_message_type(0x00, 0x02), None);
}

fn v4_address(port: u16, octets: [u8; 4]) -> TransportAddress {
    TransportAddress { family: AddressFamily::V4, port, octets: octets.to_vec() }
}

#[test]
fn mapped_address_serialise_v4() {
    let attribute = MappedAddress::with_address(v4_address(5000, [192, 0, 2, 1]));
    let bytes = attribute.serialise().expect("a set value must encode");
    assert_eq!(bytes, vec![0, 1, 0x13, 0x88, 192, 0, 2, 1]);
}

#[test]
fn mapped_address_decode_round_trip_v6() {
    let octets: Vec<u8> = (1..=16).collect();
    let address =
        TransportAddress { family: AddressFamily::V6, port: 443, octets: octets.clone() };
    let bytes = MappedAddress::with_address(address).serialise().unwrap();
    assert_eq!(bytes.len(), 20);
    let header = test_header(MessageClass::Request, 0);
    let mut decoded = MappedAddress::new();
    decoded.deserialise(bytes.as_slice(), &header).expect("encoded address must decode");
    let got = decoded.address().unwrap();
    assert!(matches!(got.family, AddressFamily::V6));
    assert_eq!(got.port, 443);
    assert_eq!(got.octets, octets);
}

#[test]
fn mapped_address_rejects_family_length_mismatch() {
    let header = test_header(MessageClass::Request, 0);
    let mut attribute = MappedAddress::new();
    // family byte says v4 but 20 bytes follow the fixed head
    let mut body = vec![0u8, 1, 0, 80];
    body.extend_from_slice(&[7; 16]);
    assert!(attribute.deserialise(body.as_slice(), &header).is_err());
    // too short for any family
    assert!(attribute.deserialise(&[0, 1, 0], &header).is_err());
    // unknown family byte
    assert!(attribute.deserialise(&[0, 3, 0, 80, 1, 2, 3, 4], &header).is_err());
    assert!(attribute.address().is_none());
}

#[test]
fn xor_mapped_address_obfuscation_involutive_v4() {
    let address = v4_address(5000, [192, 0, 2, 1]);
    let key = vec![0x21, 0x12, 0xA4, 0x42];
    let attribute = XorMappedAddress::with_address(address, key).expect("matching key length");
    let bytes = attribute.serialise().unwrap();
    assert_eq!(
        bytes,
        vec![0, 1, 0x13 ^ 0x21, 0x88 ^ 0x12, 192 ^ 0x21, 0 ^ 0x12, 2 ^ 0xA4, 1 ^ 0x42]
    );
    let header = test_header(MessageClass::Request, 0);
    let mut decoded = XorMappedAddress::new();
    decoded.deserialise(bytes.as_slice(), &header).expect("encoded address must decode");
    let got = decoded.address().unwrap();
    assert!(matches!(got.family, AddressFamily::V4));
    assert_eq!(got.port, 5000);
    assert_eq!(got.octets, vec![192, 0, 2, 1]);
}

#[test]
fn xor_mapped_address_obfuscation_involutive_v6() {
    let octets: Vec<u8> = (100..116).collect();
    let address =
        TransportAddress { family: AddressFamily::V6, port: 32000, octets: octets.clone() };
    let header = test_header(MessageClass::Request, 0);
    let mut key = vec![0x21, 0x12, 0xA4, 0x42];
    key.extend_from_slice(header.id.as_slice());
    let attribute = XorMappedAddress::with_address(address, key.clone()).unwrap();
    let bytes = attribute.serialise().unwrap();
    // every address byte is XORed with the key byte at its position
    for i in 0..16 {
        assert_eq!(bytes[4 + i], octets[i] ^ key[i]);
    }
    let mut decoded = XorMappedAddress::new();
    decoded.deserialise(bytes.as_slice(), &header).expect("encoded address must decode");
    let got = decoded.address().unwrap();
    assert!(matches!(got.family, AddressFamily::V6));
    assert_eq!(got.port, 32000);
    assert_eq!(got.octets, octets);
    assert_eq!(decoded.key(), &key);
}

#[test]
fn xor_mapped_address_rejects_mismatched_key() {
    let address = v4_address(80, [10, 0, 0, 1]);
    assert!(XorMappedAddress::with_address(address, vec![0x21, 0x12]).is_err());
}

#[test]
fn username_decode_round_trip() {
    let header = test_header(MessageClass::Request, 0);
    let mut attribute = Username::new();
    attribute.deserialise(b"alice", &header).expect("short UTF-8 must decode");
    assert_eq!(attribute.value().unwrap(), "alice");
    assert_eq!(attribute.serialise().unwrap(), b"alice".to_vec());
}

#[test]
fn username_rejects_oversize_and_bad_utf8() {
    let header = test_header(MessageClass::Request, 0);
    let mut attribute = Username::new();
    assert!(attribute.deserialise(&[b'a'; 513], &header).is_err());
    assert!(attribute.deserialise(&[0xFF, 0xFE], &header).is_err());
    assert!(attribute.value().is_none());
    // 512 bytes is still accepted
    assert!(attribute.deserialise(&[b'a'; 512], &header).is_ok());
}

#[test]
fn realm_cap_is_128_bytes() {
    let header = test_header(MessageClass::Request, 0);
    let mut attribute = Realm::new();
    assert!(attribute.deserialise(&[b'r'; 129], &header).is_err());
    assert!(attribute.deserialise(&[b'r'; 128], &header).is_ok());
    assert_eq!(attribute.value().unwrap().len(), 128);
}

#[test]
fn nonce_cap_is_128_bytes() {
    let header = test_header(MessageClass::Request, 0);
    let mut attribute = Nonce::new();
    assert!(attribute.deserialise(&[b'n'; 129], &header).is_err());
    assert!(attribute.deserialise(b"abc123", &header).is_ok());
    assert_eq!(attribute.value().unwrap(), "abc123");
}

#[test]
fn error_code_known_codes_decode() {
    let header = test_header(MessageClass::Request, 0);
    let cases = [
        (300u16, ErrorCodeType::TryAlternate),
        (400, ErrorCodeType::BadRequest),
        (401, ErrorCodeType::Unauthorised),
        (420, ErrorCodeType::UnknownAttribute),
        (438, ErrorCodeType::StaleNonce),
        (500, ErrorCodeType::ServerError),
    ];
    for (code, expected) in cases {
        let mut body = vec![0u8, 0, (code / 100) as u8, (code % 100) as u8];
        body.extend_from_slice(b"reason");
        let mut attribute = ErrorCode::new();
        attribute.deserialise(body.as_slice(), &header).expect("known code must decode");
        assert_eq!(attribute.code(), Some(expected));
        assert_eq!(attribute.message().unwrap(), "reason");
    }
}

#[test]
fn error_code_rejects_unknown_code_and_short_body() {
    let header = test_header(MessageClass::Request, 0);
    let mut attribute = ErrorCode::new();
    assert!(attribute.deserialise(&[0, 0, 4, 4, b'x'], &header).is_err());
    assert!(attribute.deserialise(&[0, 0, 4], &header).is_err());
    assert!(attribute.deserialise(&[0, 0, 4, 1, 0xFF], &header).is_err());
}

#[test]
fn error_code_serialise_layout() {
    let attribute = ErrorCode::with_code(401, String::from("Unauthorised"));
    let bytes = attribute.serialise().unwrap();
    assert_eq!(&bytes[..4], &[0, 0, 4, 1]);
    assert_eq!(&bytes[4..], b"Unauthorised");
    // a code outside the closed set leaves the code unset: nothing encodes
    let unset = ErrorCode::with_code(404, String::from("nope"));
    assert!(unset.serialise().is_none());
}

#[test]
fn message_integrity_carries_20_bytes() {
    let header = test_header(MessageClass::Request, 0);
    let hash: Vec<u8> = (0..20).collect();
    let attribute = MessageIntegrity::with_hash(hash.clone());
    assert_eq!(attribute.serialise().unwrap(), hash);
    let mut decoded = MessageIntegrity::new();
    // longer bodies keep only the first 20 bytes
    let mut body = hash.clone();
    body.extend_from_slice(&[9, 9, 9]);
    decoded.deserialise(body.as_slice(), &header).expect("20 or more bytes must decode");
    assert_eq!(decoded.hash().unwrap(), &hash);
    assert!(decoded.deserialise(&[1; 19], &header).is_err());
}

#[test]
fn unknown_attributes_round_trip() {
    let header = test_header(MessageClass::Request, 0);
    let mut attribute = UnknownAttributes::new_empty();
    attribute.add(0x0102);
    attribute.add(0xA0B0);
    let bytes = attribute.serialise().unwrap();
    assert_eq!(bytes, vec![0x01, 0x02, 0xA0, 0xB0]);
    let mut decoded = UnknownAttributes::new();
    decoded.deserialise(bytes.as_slice(), &header).expect("even body must decode");
    assert_eq!(decoded.codes().unwrap(), &vec![0x0102, 0xA0B0]);
}

#[test]
fn unknown_attributes_rejects_odd_length() {
    let header = test_header(MessageClass::Request, 0);
    let mut attribute = UnknownAttributes::new();
    assert!(attribute.deserialise(&[1, 2, 3], &header).is_err());
    assert!(attribute.codes().is_none());
    // an empty body is a valid empty list
    assert!(attribute.deserialise(&[], &header).is_ok());
    assert_eq!(attribute.codes().unwrap(), &Vec::<u16>::new());
}
