//! Fixed 20-byte message header: strict parsing and serialization.
//!
//! Wire layout (big-endian):
//! bytes 0-1: method and class bits, bytes 2-3: attribute-section length,
//! bytes 4-7: the magic cookie, bytes 8-19: the 12-byte transaction id.

use vstd::prelude::*;

use crate::magic_cookie;
use crate::MAGIC_COOKIE_0;
use crate::MAGIC_COOKIE_1;
use crate::MAGIC_COOKIE_2;
use crate::MAGIC_COOKIE_3;

verus! {

/// The semantic operation a message requests. Only binding discovery exists.
#[derive(Clone, Copy, PartialEq, Eq, Structural, Debug)]
pub enum MessageType {
    Binding,
}

/// The class of a message, deciding whether and how a reply is produced.
#[derive(Clone, Copy, PartialEq, Eq, Structural, Debug)]
pub enum MessageClass {
    Request,
    Indication,
    Success,
    Error,
}

/// The parsed 20-byte header of a message.
pub struct MessageHeader {
    pub mtype: MessageType,
    pub mclass: MessageClass,
    /// Byte count of the attribute section that follows the header.
    pub length: u16,
    /// The 12 opaque transaction-id bytes, echoed verbatim into any reply.
    pub id: Vec<u8>,
}

/// Mathematical model of a header.
#[verifier::ext_equal]
pub struct HeaderView {
    pub mtype: MessageType,
    pub mclass: MessageClass,
    pub length: u16,
    pub id: Seq<u8>,
}

impl View for MessageHeader {
    type V = HeaderView;

    open spec fn view(&self) -> HeaderView {
        HeaderView { mtype: self.mtype, mclass: self.mclass, length: self.length, id: self.id@ }
    }
}

impl HeaderView {
    /// A header is well formed when its transaction id holds exactly 12 bytes.
    pub open spec fn wf(&self) -> bool {
        self.id.len() == 12
    }
}

impl MessageHeader {
    /// A header is well formed when its transaction id holds exactly 12 bytes.
    pub open spec fn wf(&self) -> bool {
        self@.wf()
    }
}

/// High byte of the 16-bit method-and-class word.
pub open spec fn type_byte_high(mtype: MessageType, mclass: MessageClass) -> u8 {
    match mtype {
        MessageType::Binding => match mclass {
            MessageClass::Request => 0x00,
            MessageClass::Indication => 0x00,
            MessageClass::Success => 0x01,
            MessageClass::Error => 0x01,
        },
    }
}

/// Low byte of the 16-bit method-and-class word.
pub open spec fn type_byte_low(mtype: MessageType, mclass: MessageClass) -> u8 {
    match mtype {
        MessageType::Binding => match mclass {
            MessageClass::Request => 0x01,
            MessageClass::Indication => 0x11,
            MessageClass::Success => 0x01,
            MessageClass::Error => 0x11,
        },
    }
}

/// The 20 bytes that a header occupies on the wire.
pub open spec fn header_bytes(h: HeaderView) -> Seq<u8> {
    seq![
        type_byte_high(h.mtype, h.mclass),
        type_byte_low(h.mtype, h.mclass),
        (h.length / 256) as u8,
        (h.length % 256) as u8,
    ] + magic_cookie() + h.id
}

/// Class decoded from bit 0 of byte 0 (high class bit) and bit 4 of byte 1
/// (low class bit).
pub open spec fn spec_message_class(b0: u8, b1: u8) -> MessageClass {
    if b0 & 1 == 0 && b1 & 16 == 0 {
        MessageClass::Request
    } else if b0 & 1 == 0 {
        MessageClass::Indication
    } else if b1 & 16 == 0 {
        MessageClass::Success
    } else {
        MessageClass::Error
    }
}

/// Method recognized from the first two bytes: the four bit patterns of a
/// binding message are the only valid ones.
pub open spec fn spec_message_type(b0: u8, b1: u8) -> Option<MessageType> {
    if (b0 == 0 || b0 == 1) && (b1 == 1 || b1 == 17) {
        Some(MessageType::Binding)
    } else {
        None
    }
}

/// Result of validating a 20-byte header buffer: the header when the buffer
/// is exactly 20 bytes with clear top bits, the magic cookie in place and a
/// recognized method, and nothing otherwise.
pub open spec fn parse_header(bytes: Seq<u8>) -> Option<HeaderView> {
    if bytes.len() != 20 {
        None
    } else if bytes[0] >> 6 != 0 {
        None
    } else if !(bytes[4] == MAGIC_COOKIE_0 && bytes[5] == MAGIC_COOKIE_1 && bytes[6]
        == MAGIC_COOKIE_2 && bytes[7] == MAGIC_COOKIE_3) {
        None
    } else {
        match spec_message_type(bytes[0], bytes[1]) {
            None => None,
            Some(mtype) => Some(
                HeaderView {
                    mtype,
                    mclass: spec_message_class(bytes[0], bytes[1]),
                    length: (256 * (bytes[2] as int) + (bytes[3] as int)) as u16,
                    id: bytes.subrange(8, 20),
                },
            ),
        }
    }
}

impl MessageHeader {
    /// Serializes the header into its 20 wire bytes. Never fails.
    pub fn serialise(&self) -> (r: Vec<u8>)
        ensures
            r@ == header_bytes(self@),
    {
        let b0: u8 = match (self.mtype, self.mclass) {
            (MessageType::Binding, MessageClass::Request) => 0x00,
            (MessageType::Binding, MessageClass::Indication) => 0x00,
            (MessageType::Binding, MessageClass::Success) => 0x01,
            (MessageType::Binding, MessageClass::Error) => 0x01,
        };
        let b1: u8 = match (self.mtype, self.mclass) {
            (MessageType::Binding, MessageClass::Request) => 0x01,
            (MessageType::Binding, MessageClass::Indication) => 0x11,
            (MessageType::Binding, MessageClass::Success) => 0x01,
            (MessageType::Binding, MessageClass::Error) => 0x11,
        };
        let mut serialised_header: Vec<u8> = Vec::new();
        serialised_header.push(b0);
        serialised_header.push(b1);
        serialised_header.push((self.length / 256) as u8);
        serialised_header.push((self.length % 256) as u8);
        serialised_header.push(MAGIC_COOKIE_0);
        serialised_header.push(MAGIC_COOKIE_1);
        serialised_header.push(MAGIC_COOKIE_2);
        serialised_header.push(MAGIC_COOKIE_3);
        let mut i: usize = 0;
        while i < self.id.len()
            invariant
                i <= self.id@.len(),
                serialised_header@ == header_bytes(self@).take(8) + self.id@.take(i as int),
            decreases self.id@.len() - i,
        {
            serialised_header.push(self.id[i]);
            i += 1;
        }
        assert(serialised_header@ =~= header_bytes(self@));
        serialised_header
    }
}

/// Validates a header buffer and parses it. Any malformed buffer is refused
/// whole: the error carries no diagnostic beyond a fixed code.
pub fn verify_header(header: &[u8]) -> (r: Result<MessageHeader, u32>)
    ensures
        match r {
            Ok(h) => parse_header(header@) == Some(h@) && h@.wf(),
            Err(e) => parse_header(header@) is None && e == 1,
        },
{
    // Check header length is 20 bytes
    if header.len() != 20 {
        return Err(1);
    }
    // Verify first two bits are 0
    if header[0] >> 6 != 0 {
        return Err(1);
    }
    // Check magic cookie
    if !(header[4] == MAGIC_COOKIE_0 && header[5] == MAGIC_COOKIE_1 && header[6] == MAGIC_COOKIE_2
        && header[7] == MAGIC_COOKIE_3) {
        return Err(1);
    }
    // Parse header
    let mclass = get_message_class(header[0], header[1]);
    let mtype = match get_message_type(header[0], header[1]) {
        Some(mtype) => mtype,
        None => return Err(1),
    };
    let length: u16 = 256 * (header[2] as u16) + (header[3] as u16);
    let mut id: Vec<u8> = Vec::new();
    let mut i: usize = 8;
    while i < 20
        invariant
            8 <= i <= 20,
            header@.len() == 20,
            id@ == header@.subrange(8, i as int),
        decreases 20 - i,
    {
        id.push(header[i]);
        i += 1;
        assert(id@ =~= header@.subrange(8, i as int));
    }
    let parsed = MessageHeader { mtype, mclass, length, id };
    assert(parse_header(header@) == Some(parsed@));
    Ok(parsed)
}

/// Decodes the message class from the two class bits.
pub fn get_message_class(b0: u8, b1: u8) -> (r: MessageClass)
    ensures
        r == spec_message_class(b0, b1),
{
    let cb1 = (b0 & 1) != 0;
    let cb2 = (b1 & 16) != 0;
    match (cb1, cb2) {
        (false, false) => MessageClass::Request,
        (false, true) => MessageClass::Indication,
        (true, false) => MessageClass::Success,
        (true, true) => MessageClass::Error,
    }
}

/// Recognizes the method from the first two header bytes.
pub fn get_message_type(b0: u8, b1: u8) -> (r: Option<MessageType>)
    ensures
        r == spec_message_type(b0, b1),
{
    // Check for Binding
    let p1 = b0 == 1 || b0 == 0;
    let p2 = b1 == 17 || b1 == 1;
    if p1 && p2 {
        Some(MessageType::Binding)
    } else {
        None
    }
}

/// Parsing inverts serialization: every well-formed header survives a trip
/// through its wire bytes unchanged.
pub proof fn lemma_parse_serialise_round_trip(h: HeaderView)
    requires
        h.wf(),
    ensures
        parse_header(header_bytes(h)) == Some(h),
{
    let bytes = header_bytes(h);
    assert(bytes.len() == 20);
    assert(0u8 >> 6 == 0) by (bit_vector);
    assert(1u8 >> 6 == 0) by (bit_vector);
    assert(0u8 & 1 == 0) by (bit_vector);
    assert(1u8 & 1 == 1) by (bit_vector);
    assert(1u8 & 16 == 0) by (bit_vector);
    assert(17u8 & 16 == 16) by (bit_vector);
    assert(bytes[0] == type_byte_high(h.mtype, h.mclass));
    assert(bytes[1] == type_byte_low(h.mtype, h.mclass));
    assert(spec_message_class(bytes[0], bytes[1]) == h.mclass);
    assert(spec_message_type(bytes[0], bytes[1]) == Some(h.mtype));
    vstd::arithmetic::div_mod::lemma_fundamental_div_mod(h.length as int, 256);
    assert(256 * ((h.length / 256) as u8 as int) + ((h.length % 256) as u8 as int)
        == h.length as int);
    assert(bytes.subrange(8, 20) =~= h.id);
    assert(parse_header(bytes) matches Some(p) && p =~= h);
}

/// Serializing what was parsed from serialized bytes gives those bytes back:
/// the byte-level round trip on the image of serialization.
pub proof fn lemma_serialise_parse_round_trip(bytes: Seq<u8>, h: HeaderView)
    requires
        h.wf(),
        bytes == header_bytes(h),
    ensures
        parse_header(bytes) matches Some(p) && header_bytes(p) == bytes,
{
    lemma_parse_serialise_round_trip(h);
}

} // verus!
