//! The attribute layer: one codec per attribute type, and the TLV engine
//! that walks an attribute section, tolerating unknown and malformed
//! attributes without giving the whole message up.
//!
//! Each attribute travels as a TLV record: a 2-byte big-endian type code, a
//! 2-byte big-endian value length, then the value bytes, with no padding.

pub mod error_code;
pub mod mapped_address;
pub mod message_integrity;
pub mod nonce;
pub mod realm;
pub mod unknown_attributes;
pub mod username;
pub mod xor_mapped_address;

use vstd::prelude::*;
use vstd::slice::slice_subrange;
use vstd::utf8::decode_utf8;
use vstd::utf8::encode_utf8;
use vstd::utf8::valid_utf8;

use crate::address::AddressView;
use crate::header::MessageHeader;
use error_code::decode_error_code;
use error_code::encode_error_code;
use error_code::ErrorCode;
use error_code::ErrorCodeView;
use mapped_address::decode_mapped_address;
use mapped_address::encode_mapped_address;
use mapped_address::MappedAddress;
use message_integrity::decode_message_integrity;
use message_integrity::MessageIntegrity;
use nonce::decode_nonce;
use nonce::Nonce;
use realm::decode_realm;
use realm::Realm;
use unknown_attributes::decode_unknown_attributes;
use unknown_attributes::encode_unknown_attributes;
use unknown_attributes::UnknownAttributes;
use username::decode_username;
use username::Username;
use xor_mapped_address::decode_xor_mapped;
use xor_mapped_address::encode_xor_mapped;
use xor_mapped_address::XorAddressView;
use xor_mapped_address::XorMappedAddress;

verus! {

/// Relies on String::from_utf8: it succeeds exactly on valid UTF-8 input,
/// and the resulting string holds the characters that the bytes encode.
#[verifier::external_body]
pub(crate) fn string_from_utf8(bytes: Vec<u8>) -> (r: Option<String>)
    ensures
        r is Some <==> valid_utf8(bytes@),
        r matches Some(s) ==> s@ == decode_utf8(bytes@),
{
    String::from_utf8(bytes).ok()
}

/// The registered attribute types.
#[derive(Clone, Copy, PartialEq, Eq, Hash, Structural, Debug)]
pub enum MessageAttribute {
    MappedAddress,
    Username,
    MessageIntegrity,
    ErrorCode,
    UnknownAttributes,
    Realm,
    Nonce,
    XorMappedAddress,
}

/// A decoded attribute value, one variant per registered type.
pub enum AttributeBody {
    MappedAddress(MappedAddress),
    XorMappedAddress(XorMappedAddress),
    MessageIntegrity(MessageIntegrity),
    Username(Username),
    Realm(Realm),
    Nonce(Nonce),
    ErrorCode(ErrorCode),
    UnknownAttributes(UnknownAttributes),
}

/// Mathematical model of a decoded attribute value.
pub enum AttributeView {
    MappedAddress(Option<AddressView>),
    XorMappedAddress(XorAddressView),
    MessageIntegrity(Option<Seq<u8>>),
    Username(Option<Seq<char>>),
    Realm(Option<Seq<char>>),
    Nonce(Option<Seq<char>>),
    ErrorCode(ErrorCodeView),
    UnknownAttributes(Option<Seq<u16>>),
}

impl View for AttributeBody {
    type V = AttributeView;

    open spec fn view(&self) -> AttributeView {
        match self {
            AttributeBody::MappedAddress(a) => AttributeView::MappedAddress(a@),
            AttributeBody::XorMappedAddress(a) => AttributeView::XorMappedAddress(a@),
            AttributeBody::MessageIntegrity(a) => AttributeView::MessageIntegrity(a@),
            AttributeBody::Username(a) => AttributeView::Username(a@),
            AttributeBody::Realm(a) => AttributeView::Realm(a@),
            AttributeBody::Nonce(a) => AttributeView::Nonce(a@),
            AttributeBody::ErrorCode(a) => AttributeView::ErrorCode(a@),
            AttributeBody::UnknownAttributes(a) => AttributeView::UnknownAttributes(a@),
        }
    }
}

/// The registered type code of an attribute type.
pub open spec fn attribute_code(a: MessageAttribute) -> u16 {
    match a {
        MessageAttribute::MappedAddress => 1,
        MessageAttribute::Username => 6,
        MessageAttribute::MessageIntegrity => 8,
        MessageAttribute::ErrorCode => 9,
        MessageAttribute::UnknownAttributes => 10,
        MessageAttribute::Realm => 20,
        MessageAttribute::Nonce => 21,
        MessageAttribute::XorMappedAddress => 32,
    }
}

/// The attribute type registered under a type code, if any.
pub open spec fn attribute_of_code(code: u16) -> Option<MessageAttribute> {
    if code == 1 {
        Some(MessageAttribute::MappedAddress)
    } else if code == 6 {
        Some(MessageAttribute::Username)
    } else if code == 8 {
        Some(MessageAttribute::MessageIntegrity)
    } else if code == 9 {
        Some(MessageAttribute::ErrorCode)
    } else if code == 10 {
        Some(MessageAttribute::UnknownAttributes)
    } else if code == 20 {
        Some(MessageAttribute::Realm)
    } else if code == 21 {
        Some(MessageAttribute::Nonce)
    } else if code == 32 {
        Some(MessageAttribute::XorMappedAddress)
    } else {
        None
    }
}

impl AttributeView {
    /// The type code this value travels under.
    pub open spec fn code(&self) -> u16 {
        match *self {
            AttributeView::MappedAddress(_) => 1,
            AttributeView::Username(_) => 6,
            AttributeView::MessageIntegrity(_) => 8,
            AttributeView::ErrorCode(_) => 9,
            AttributeView::UnknownAttributes(_) => 10,
            AttributeView::Realm(_) => 20,
            AttributeView::Nonce(_) => 21,
            AttributeView::XorMappedAddress(_) => 32,
        }
    }

    /// Well-formedness of the value, where the type has any to keep.
    pub open spec fn wf(&self) -> bool {
        match *self {
            AttributeView::XorMappedAddress(x) => x.wf(),
            _ => true,
        }
    }
}

/// Decodes one attribute value: nothing for an unregistered code, and the
/// type's own decoding for a registered one.
pub open spec fn decode_attribute(code: u16, value: Seq<u8>, id: Seq<u8>) -> Option<
    AttributeView,
> {
    match attribute_of_code(code) {
        None => None,
        Some(MessageAttribute::MappedAddress) => match decode_mapped_address(value) {
            Some(a) => Some(AttributeView::MappedAddress(Some(a))),
            None => None,
        },
        Some(MessageAttribute::XorMappedAddress) => match decode_xor_mapped(value, id) {
            Some(x) => Some(AttributeView::XorMappedAddress(x)),
            None => None,
        },
        Some(MessageAttribute::MessageIntegrity) => match decode_message_integrity(value) {
            Some(h) => Some(AttributeView::MessageIntegrity(Some(h))),
            None => None,
        },
        Some(MessageAttribute::Username) => match decode_username(value) {
            Some(s) => Some(AttributeView::Username(Some(s))),
            None => None,
        },
        Some(MessageAttribute::Realm) => match decode_realm(value) {
            Some(s) => Some(AttributeView::Realm(Some(s))),
            None => None,
        },
        Some(MessageAttribute::Nonce) => match decode_nonce(value) {
            Some(s) => Some(AttributeView::Nonce(Some(s))),
            None => None,
        },
        Some(MessageAttribute::ErrorCode) => match decode_error_code(value) {
            Some(e) => Some(AttributeView::ErrorCode(e)),
            None => None,
        },
        Some(MessageAttribute::UnknownAttributes) => match decode_unknown_attributes(value) {
            Some(c) => Some(AttributeView::UnknownAttributes(Some(c))),
            None => None,
        },
    }
}

/// The value bytes an attribute encodes to, or nothing when its value is
/// unset and the attribute is to be omitted.
pub open spec fn encode_attribute_value(v: AttributeView) -> Option<Seq<u8>> {
    match v {
        AttributeView::MappedAddress(opt) => match opt {
            Some(a) => Some(encode_mapped_address(a)),
            None => None,
        },
        AttributeView::XorMappedAddress(x) => match x.address {
            Some(a) => Some(encode_xor_mapped(a, x.key)),
            None => None,
        },
        AttributeView::MessageIntegrity(opt) => opt,
        AttributeView::Username(opt) => match opt {
            Some(s) => Some(encode_utf8(s)),
            None => None,
        },
        AttributeView::Realm(opt) => match opt {
            Some(s) => Some(encode_utf8(s)),
            None => None,
        },
        AttributeView::Nonce(opt) => match opt {
            Some(s) => Some(encode_utf8(s)),
            None => None,
        },
        AttributeView::ErrorCode(e) => match (e.code, e.message) {
            (Some(t), Some(m)) => Some(encode_error_code(t, m)),
            _ => None,
        },
        AttributeView::UnknownAttributes(opt) => match opt {
            Some(c) => Some(encode_unknown_attributes(c)),
            None => None,
        },
    }
}

/// The value bytes an attribute puts on the wire: its encoding, or an empty
/// value when the encoding is omitted.
pub open spec fn attribute_wire_value(v: AttributeView) -> Seq<u8> {
    match encode_attribute_value(v) {
        Some(b) => b,
        None => Seq::empty(),
    }
}

/// One TLV record: the type code and the value length as big-endian pairs,
/// then the value bytes.
pub open spec fn tlv_bytes(code: u16, value: Seq<u8>) -> Seq<u8> {
    seq![
        (code / 256) as u8,
        (code % 256) as u8,
        ((value.len() / 256) as int) as u8,
        ((value.len() % 256) as int) as u8,
    ] + value
}

/// The full wire form of an attribute: its TLV record.
pub open spec fn serialised_attribute_bytes(v: AttributeView) -> Seq<u8> {
    tlv_bytes(v.code(), attribute_wire_value(v))
}

/// The type code declared by the TLV record at position `i`.
pub open spec fn spec_tlv_code(body: Seq<u8>, i: int) -> u16 {
    (256 * (body[i] as int) + (body[i + 1] as int)) as u16
}

/// The value length declared by the TLV record at position `i`.
pub open spec fn spec_tlv_length(body: Seq<u8>, i: int) -> nat {
    (256 * (body[i + 2] as int) + (body[i + 3] as int)) as nat
}

/// The attribute mapping scanned from an attribute section, starting at
/// position `i` with the mapping `acc` already gathered. The scan stops at
/// the declared section limit or at a truncated record; an unregistered code
/// or a failed decode skips that record alone; a successful decode inserts
/// the value, overwriting any earlier value of the same code.
pub open spec fn scan_attributes(
    body: Seq<u8>,
    id: Seq<u8>,
    i: nat,
    limit: nat,
    acc: Map<u16, AttributeView>,
) -> Map<u16, AttributeView>
    decreases (if i <= limit { limit - i } else { 0 }),
{
    if i >= limit || i + 4 > body.len() {
        acc
    } else {
        let len = spec_tlv_length(body, i as int);
        if i + 4 + len > body.len() {
            acc
        } else {
            let code = spec_tlv_code(body, i as int);
            let value = body.subrange(i as int + 4, i as int + 4 + len as int);
            let next = match decode_attribute(code, value, id) {
                Some(v) => acc.insert(code, v),
                None => acc,
            };
            scan_attributes(body, id, i + 4 + len, limit, next)
        }
    }
}

/// The mapping built from an attribute section: keys are attribute-type
/// codes, values the decoded attributes, each key holding the last
/// successfully decoded occurrence of its type.
pub struct AttributeMapping {
    mapped_address: Option<AttributeBody>,
    username: Option<AttributeBody>,
    message_integrity: Option<AttributeBody>,
    error_code: Option<AttributeBody>,
    unknown_attributes: Option<AttributeBody>,
    realm: Option<AttributeBody>,
    nonce: Option<AttributeBody>,
    xor_mapped_address: Option<AttributeBody>,
}

impl AttributeMapping {
    /// The value stored under a type code, if any.
    closed spec fn slot_view(&self, code: u16) -> Option<AttributeView> {
        let slot = if code == 1 {
            self.mapped_address
        } else if code == 6 {
            self.username
        } else if code == 8 {
            self.message_integrity
        } else if code == 9 {
            self.error_code
        } else if code == 10 {
            self.unknown_attributes
        } else if code == 20 {
            self.realm
        } else if code == 21 {
            self.nonce
        } else if code == 32 {
            self.xor_mapped_address
        } else {
            None
        };
        match slot {
            Some(b) => Some(b@),
            None => None,
        }
    }
}

impl View for AttributeMapping {
    type V = Map<u16, AttributeView>;

    closed spec fn view(&self) -> Map<u16, AttributeView> {
        Map::new(|code: u16| self.slot_view(code) is Some, |code: u16| self.slot_view(code)->Some_0)
    }
}

impl AttributeMapping {
    /// An empty mapping.
    pub fn new() -> (r: AttributeMapping)
        ensures
            r@ == Map::<u16, AttributeView>::empty(),
    {
        let r = AttributeMapping {
            mapped_address: None,
            username: None,
            message_integrity: None,
            error_code: None,
            unknown_attributes: None,
            realm: None,
            nonce: None,
            xor_mapped_address: None,
        };
        proof {
            assert(r@ =~= Map::<u16, AttributeView>::empty());
        }
        r
    }

    /// Stores an attribute under its own type code, overwriting any earlier
    /// value of that code.
    pub fn insert(&mut self, attribute: AttributeBody)
        ensures
            final(self)@ == old(self)@.insert(attribute@.code(), attribute@),
    {
        let ghost expected = old(self)@.insert(attribute@.code(), attribute@);
        match &attribute {
            AttributeBody::MappedAddress(_) => self.mapped_address = Some(attribute),
            AttributeBody::Username(_) => self.username = Some(attribute),
            AttributeBody::MessageIntegrity(_) => self.message_integrity = Some(attribute),
            AttributeBody::ErrorCode(_) => self.error_code = Some(attribute),
            AttributeBody::UnknownAttributes(_) => self.unknown_attributes = Some(attribute),
            AttributeBody::Realm(_) => self.realm = Some(attribute),
            AttributeBody::Nonce(_) => self.nonce = Some(attribute),
            AttributeBody::XorMappedAddress(_) => self.xor_mapped_address = Some(attribute),
        }
        proof {
            assert(self@ =~= expected);
        }
    }

    /// The attribute stored under the given type, if one was decoded.
    pub fn get(&self, attribute: MessageAttribute) -> (r: Option<&AttributeBody>)
        ensures
            match r {
                Some(b) => self@.contains_key(attribute_code(attribute))
                    && b@ == self@.index(attribute_code(attribute)),
                None => !self@.contains_key(attribute_code(attribute)),
            },
    {
        let slot = match attribute {
            MessageAttribute::MappedAddress => &self.mapped_address,
            MessageAttribute::Username => &self.username,
            MessageAttribute::MessageIntegrity => &self.message_integrity,
            MessageAttribute::ErrorCode => &self.error_code,
            MessageAttribute::UnknownAttributes => &self.unknown_attributes,
            MessageAttribute::Realm => &self.realm,
            MessageAttribute::Nonce => &self.nonce,
            MessageAttribute::XorMappedAddress => &self.xor_mapped_address,
        };
        slot.as_ref()
    }
}

/// Failure of reading one TLV record.
enum AttributeError {
    /// Fewer bytes remain than the record head or its declared value needs:
    /// the scan stops here.
    TooShort,
    /// The record is whole but its type is unregistered or its value failed
    /// to decode: the scan skips the declared length and goes on.
    ParsingError(usize),
}

/// Reads the TLV record at `index`: its attribute type, its decoded value
/// and its declared value length.
fn get_attribute(body: &[u8], header: &MessageHeader, index: usize) -> (r: Result<
    (MessageAttribute, AttributeBody, usize),
    AttributeError,
>)
    requires
        header@.wf(),
        index <= u16::MAX,
    ensures
        match r {
            Ok((attribute, ab, length)) => {
                &&& index + 4 <= body@.len()
                &&& length == spec_tlv_length(body@, index as int)
                &&& index + 4 + length <= body@.len()
                &&& attribute_of_code(spec_tlv_code(body@, index as int)) == Some(attribute)
                &&& decode_attribute(
                    spec_tlv_code(body@, index as int),
                    body@.subrange(index as int + 4, index as int + 4 + length as int),
                    header.id@,
                ) == Some(ab@)
                &&& ab@.code() == spec_tlv_code(body@, index as int)
                &&& ab@.wf()
            },
            Err(AttributeError::TooShort) => index + 4 > body@.len() || index + 4
                + spec_tlv_length(body@, index as int) > body@.len(),
            Err(AttributeError::ParsingError(length)) => {
                &&& index + 4 <= body@.len()
                &&& length == spec_tlv_length(body@, index as int)
                &&& index + 4 + length <= body@.len()
                &&& decode_attribute(
                    spec_tlv_code(body@, index as int),
                    body@.subrange(index as int + 4, index as int + 4 + length as int),
                    header.id@,
                ) is None
            },
        },
{
    if body.len() < index + 4 {
        return Err(AttributeError::TooShort);
    }
    let attribute_type: u16 = 256 * (body[index] as u16) + (body[index + 1] as u16);
    let attribute_length: usize = (256 * (body[index + 2] as u16) + (body[index + 3]
        as u16)) as usize;
    if body.len() < index + 4 + attribute_length {
        return Err(AttributeError::TooShort);
    }
    let value = slice_subrange(body, index + 4, index + 4 + attribute_length);
    match attribute_type {
        1 => {
            let mut attribute = MappedAddress::new();
            match attribute.deserialise(value, header) {
                Ok(_) => Ok(
                    (
                        MessageAttribute::MappedAddress,
                        AttributeBody::MappedAddress(attribute),
                        attribute_length,
                    ),
                ),
                Err(_) => Err(AttributeError::ParsingError(attribute_length)),
            }
        },
        32 => {
            let mut attribute = XorMappedAddress::new();
            match attribute.deserialise(value, header) {
                Ok(_) => Ok(
                    (
                        MessageAttribute::XorMappedAddress,
                        AttributeBody::XorMappedAddress(attribute),
                        attribute_length,
                    ),
                ),
                Err(_) => Err(AttributeError::ParsingError(attribute_length)),
            }
        },
        8 => {
            let mut attribute = MessageIntegrity::new();
            match attribute.deserialise(value, header) {
                Ok(_) => Ok(
                    (
                        MessageAttribute::MessageIntegrity,
                        AttributeBody::MessageIntegrity(attribute),
                        attribute_length,
                    ),
                ),
                Err(_) => Err(AttributeError::ParsingError(attribute_length)),
            }
        },
        6 => {
            let mut attribute = Username::new();
            match attribute.deserialise(value, header) {
                Ok(_) => Ok(
                    (
                        MessageAttribute::Username,
                        AttributeBody::Username(attribute),
                        attribute_length,
                    ),
                ),
                Err(_) => Err(AttributeError::ParsingError(attribute_length)),
            }
        },
        20 => {
            let mut attribute = Realm::new();
            match attribute.deserialise(value, header) {
                Ok(_) => Ok(
                    (MessageAttribute::Realm, AttributeBody::Realm(attribute), attribute_length),
                ),
                Err(_) => Err(AttributeError::ParsingError(attribute_length)),
            }
        },
        21 => {
            let mut attribute = Nonce::new();
            match attribute.deserialise(value, header) {
                Ok(_) => Ok(
                    (MessageAttribute::Nonce, AttributeBody::Nonce(attribute), attribute_length),
                ),
                Err(_) => Err(AttributeError::ParsingError(attribute_length)),
            }
        },
        9 => {
            let mut attribute = ErrorCode::new();
            match attribute.deserialise(value, header) {
                Ok(_) => Ok(
                    (
                        MessageAttribute::ErrorCode,
                        AttributeBody::ErrorCode(attribute),
                        attribute_length,
                    ),
                ),
                Err(_) => Err(AttributeError::ParsingError(attribute_length)),
            }
        },
        10 => {
            let mut attribute = UnknownAttributes::new();
            match attribute.deserialise(value, header) {
                Ok(_) => Ok(
                    (
                        MessageAttribute::UnknownAttributes,
                        AttributeBody::UnknownAttributes(attribute),
                        attribute_length,
                    ),
                ),
                Err(_) => Err(AttributeError::ParsingError(attribute_length)),
            }
        },
        _ => Err(AttributeError::ParsingError(attribute_length)),
    }
}

/// Walks the attribute section up to the length the header declares and
/// gathers every attribute that decodes, the last occurrence of each type
/// winning. A truncated record stops the scan; an unregistered or malformed
/// record is skipped whole.
pub fn get_attributes(body: &[u8], header: &MessageHeader) -> (r: AttributeMapping)
    requires
        header@.wf(),
    ensures
        r@ == scan_attributes(
            body@,
            header.id@,
            0,
            header.length as nat,
            Map::<u16, AttributeView>::empty(),
        ),
{
    let mut attributes = AttributeMapping::new();
    let limit: usize = header.length as usize;
    let mut i: usize = 0;
    while i < limit
        invariant
            header@.wf(),
            limit <= u16::MAX,
            scan_attributes(body@, header.id@, i as nat, limit as nat, attributes@)
                == scan_attributes(
                body@,
                header.id@,
                0,
                limit as nat,
                Map::<u16, AttributeView>::empty(),
            ),
        ensures
            attributes@ == scan_attributes(
                body@,
                header.id@,
                0,
                limit as nat,
                Map::<u16, AttributeView>::empty(),
            ),
        decreases (if i <= limit { (limit - i) as int } else { 0 }),
    {
        match get_attribute(body, header, i) {
            Ok((_attribute, attribute_body, length)) => {
                proof {
                    assert(scan_attributes(body@, header.id@, i as nat, limit as nat, attributes@)
                        == scan_attributes(
                        body@,
                        header.id@,
                        (i + 4 + length) as nat,
                        limit as nat,
                        attributes@.insert(attribute_body@.code(), attribute_body@),
                    ));
                }
                attributes.insert(attribute_body);
                i += 4 + length;
            },
            Err(AttributeError::TooShort) => {
                proof {
                    assert(scan_attributes(body@, header.id@, i as nat, limit as nat, attributes@)
                        == attributes@);
                }
                break ;
            },
            Err(AttributeError::ParsingError(length)) => {
                proof {
                    assert(scan_attributes(body@, header.id@, i as nat, limit as nat, attributes@)
                        == scan_attributes(
                        body@,
                        header.id@,
                        (i + 4 + length) as nat,
                        limit as nat,
                        attributes@,
                    ));
                }
                i += 4 + length;
            },
        }
    }
    attributes
}

/// Serializes one attribute as a TLV record: its type code, the length of
/// its encoded value, then the value bytes; an unset value encodes as a
/// zero-length record.
pub fn serialise_attribute(attribute: &AttributeBody) -> (r: Vec<u8>)
    requires
        attribute@.wf(),
        attribute_wire_value(attribute@).len() <= u16::MAX,
    ensures
        r@ == serialised_attribute_bytes(attribute@),
{
    let (attribute_type, attribute_body): (u16, Option<Vec<u8>>) = match attribute {
        AttributeBody::MappedAddress(a) => (1, a.serialise()),
        AttributeBody::Username(a) => (6, a.serialise()),
        AttributeBody::MessageIntegrity(a) => (8, a.serialise()),
        AttributeBody::ErrorCode(a) => (9, a.serialise()),
        AttributeBody::UnknownAttributes(a) => (10, a.serialise()),
        AttributeBody::Realm(a) => (20, a.serialise()),
        AttributeBody::Nonce(a) => (21, a.serialise()),
        AttributeBody::XorMappedAddress(a) => (32, a.serialise()),
    };
    let mut attribute_body: Vec<u8> = match attribute_body {
        Some(b) => b,
        None => Vec::new(),
    };
    let length: u16 = attribute_body.len() as u16;
    let mut serialised: Vec<u8> = Vec::new();
    serialised.push((attribute_type / 256) as u8);
    serialised.push((attribute_type % 256) as u8);
    serialised.push((length / 256) as u8);
    serialised.push((length % 256) as u8);
    serialised.append(&mut attribute_body);
    assert(serialised@ =~= serialised_attribute_bytes(attribute@));
    serialised
}

/// Layout facts about a section of exactly two TLV records.
proof fn lemma_two_tlv_section(body: Seq<u8>, t1: u16, v1: Seq<u8>, t2: u16, v2: Seq<u8>)
    requires
        v1.len() <= u16::MAX,
        v2.len() <= u16::MAX,
        body == tlv_bytes(t1, v1) + tlv_bytes(t2, v2),
    ensures
        body.len() == 8 + v1.len() + v2.len(),
        spec_tlv_code(body, 0) == t1,
        spec_tlv_length(body, 0) == v1.len(),
        body.subrange(4, 4 + v1.len() as int) == v1,
        spec_tlv_code(body, 4 + v1.len() as int) == t2,
        spec_tlv_length(body, 4 + v1.len() as int) == v2.len(),
        body.subrange(8 + v1.len() as int, body.len() as int) == v2,
{
    let n1 = v1.len() as int;
    vstd::arithmetic::div_mod::lemma_fundamental_div_mod(t1 as int, 256);
    vstd::arithmetic::div_mod::lemma_fundamental_div_mod(t2 as int, 256);
    vstd::arithmetic::div_mod::lemma_fundamental_div_mod(v1.len() as int, 256);
    vstd::arithmetic::div_mod::lemma_fundamental_div_mod(v2.len() as int, 256);
    assert(body[0] == (t1 / 256) as u8);
    assert(body[1] == (t1 % 256) as u8);
    assert(body[2] == ((v1.len() / 256) as int) as u8);
    assert(body[3] == ((v1.len() % 256) as int) as u8);
    assert(body[4 + n1] == (t2 / 256) as u8);
    assert(body[5 + n1] == (t2 % 256) as u8);
    assert(body[6 + n1] == ((v2.len() / 256) as int) as u8);
    assert(body[7 + n1] == ((v2.len() % 256) as int) as u8);
    assert(body.subrange(4, 4 + n1) =~= v1);
    assert(body.subrange(8 + n1, body.len() as int) =~= v2);
}

/// An unregistered attribute type never poisons the rest of the scan: in a
/// section holding one unknown record followed by one known, well-formed
/// record, the known attribute still reaches the final mapping, which holds
/// it alone.
pub proof fn lemma_unknown_attribute_not_poisonous(
    body: Seq<u8>,
    id: Seq<u8>,
    unknown_code: u16,
    unknown_value: Seq<u8>,
    known_code: u16,
    known_value: Seq<u8>,
)
    requires
        unknown_value.len() <= u16::MAX,
        known_value.len() <= u16::MAX,
        body == tlv_bytes(unknown_code, unknown_value) + tlv_bytes(known_code, known_value),
        attribute_of_code(unknown_code) is None,
        decode_attribute(known_code, known_value, id) is Some,
    ensures
        scan_attributes(body, id, 0, body.len(), Map::<u16, AttributeView>::empty())
            == Map::<u16, AttributeView>::empty().insert(
            known_code,
            decode_attribute(known_code, known_value, id)->Some_0,
        ),
{
    lemma_two_tlv_section(body, unknown_code, unknown_value, known_code, known_value);
    let empty = Map::<u16, AttributeView>::empty();
    let j = 4 + unknown_value.len();
    let known = decode_attribute(known_code, known_value, id)->Some_0;
    assert(scan_attributes(body, id, 0, body.len(), empty) == scan_attributes(
        body,
        id,
        j,
        body.len(),
        empty,
    ));
    assert(scan_attributes(body, id, j, body.len(), empty) == scan_attributes(
        body,
        id,
        body.len(),
        body.len(),
        empty.insert(known_code, known),
    ));
}

/// Two occurrences of the same attribute type in one section: the final
/// mapping holds only the value of the later occurrence.
pub proof fn lemma_duplicate_attribute_last_wins(
    body: Seq<u8>,
    id: Seq<u8>,
    code: u16,
    first_value: Seq<u8>,
    second_value: Seq<u8>,
)
    requires
        first_value.len() <= u16::MAX,
        second_value.len() <= u16::MAX,
        body == tlv_bytes(code, first_value) + tlv_bytes(code, second_value),
        decode_attribute(code, first_value, id) is Some,
        decode_attribute(code, second_value, id) is Some,
    ensures
        scan_attributes(body, id, 0, body.len(), Map::<u16, AttributeView>::empty()).contains_key(
            code,
        ),
        scan_attributes(body, id, 0, body.len(), Map::<u16, AttributeView>::empty()).index(code)
            == decode_attribute(code, second_value, id)->Some_0,
{
    lemma_two_tlv_section(body, code, first_value, code, second_value);
    let empty = Map::<u16, AttributeView>::empty();
    let j = 4 + first_value.len();
    let first = decode_attribute(code, first_value, id)->Some_0;
    let second = decode_attribute(code, second_value, id)->Some_0;
    assert(scan_attributes(body, id, 0, body.len(), empty) == scan_attributes(
        body,
        id,
        j,
        body.len(),
        empty.insert(code, first),
    ));
    assert(scan_attributes(body, id, j, body.len(), empty.insert(code, first))
        == scan_attributes(
        body,
        id,
        body.len(),
        body.len(),
        empty.insert(code, first).insert(code, second),
    ));
}

} // verus!
