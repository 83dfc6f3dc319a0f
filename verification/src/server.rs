//! The whole per-message transform: raw bytes and the peer's address in,
//! optional reply bytes out. Header validation failure drops the message
//! silently; the attribute section is scanned with its fault-tolerant
//! engine; the dispatcher decides whether a reply leaves.

use vstd::prelude::*;
use vstd::slice::slice_subrange;

use crate::address::AddressView;
use crate::address::TransportAddress;
use crate::attributes::get_attributes;
use crate::handlers;
use crate::handlers::response_spec;
use crate::header::header_bytes;
use crate::header::parse_header;
use crate::header::verify_header;
use crate::header::MessageClass;

verus! {

/// What one inbound message yields: nothing unless the first 20 bytes parse
/// as a valid header, and otherwise whatever the dispatcher answers for that
/// header and the peer's address. The attribute section never decides
/// whether a binding reply leaves.
pub open spec fn process_spec(message: Seq<u8>, origin: AddressView) -> Option<Seq<u8>> {
    if message.len() < 20 {
        None
    } else {
        match parse_header(message.take(20)) {
            None => None,
            Some(h) => response_spec(h, origin),
        }
    }
}

/// Processes one inbound message from the given origin: validates the
/// header, scans up to the declared attribute-section length of the bytes
/// that follow, routes the result, and returns the reply bytes, if any.
pub fn process_message(message: &[u8], origin: &TransportAddress) -> (r: Option<Vec<u8>>)
    requires
        origin@.wf(),
    ensures
        match r {
            Some(v) => process_spec(message@, origin@) == Some(v@),
            None => process_spec(message@, origin@) is None,
        },
{
    if message.len() < 20 {
        return None;
    }
    let header = match verify_header(slice_subrange(message, 0, 20)) {
        Ok(header) => header,
        Err(_) => {
            return None;
        },
    };
    assert(message@.subrange(0, 20) =~= message@.take(20));
    let body_end: usize = if message.len() - 20 < header.length as usize {
        message.len()
    } else {
        20 + header.length as usize
    };
    let body = slice_subrange(message, 20, body_end);
    let attributes = get_attributes(body, &header);
    handlers::process_message(&header, &attributes, origin)
}

/// Any reply's transaction id equals the triggering message's transaction
/// id, byte for byte.
pub proof fn lemma_response_echoes_transaction_id(message: Seq<u8>, origin: AddressView)
    requires
        process_spec(message, origin) is Some,
    ensures
        process_spec(message, origin)->Some_0.subrange(8, 20) == message.subrange(8, 20),
{
    let h = parse_header(message.take(20))->Some_0;
    let response = process_spec(message, origin)->Some_0;
    assert(h.id =~= message.take(20).subrange(8, 20));
    assert(message.take(20).subrange(8, 20) =~= message.subrange(8, 20));
    assert(response.subrange(8, 20) =~= h.id);
}

/// A message too short to hold a header, or one whose magic-cookie bytes
/// are wrong, draws no reply, whatever its attribute content.
pub proof fn lemma_invalid_header_no_response(message: Seq<u8>, origin: AddressView)
    requires
        message.len() < 20 || !(message[4] == crate::MAGIC_COOKIE_0 && message[5]
            == crate::MAGIC_COOKIE_1 && message[6] == crate::MAGIC_COOKIE_2 && message[7]
            == crate::MAGIC_COOKIE_3),
    ensures
        process_spec(message, origin) is None,
{
    if message.len() >= 20 {
        let head = message.take(20);
        assert(head[4] == message[4]);
        assert(head[5] == message[5]);
        assert(head[6] == message[6]);
        assert(head[7] == message[7]);
    }
}

/// An indication-class message never draws any output bytes, whatever its
/// attribute content.
pub proof fn lemma_indication_no_response(message: Seq<u8>, origin: AddressView)
    requires
        parse_header(message.take(20)) matches Some(h) && h.mclass == MessageClass::Indication,
    ensures
        process_spec(message, origin) is None,
{
}

} // verus!
