//! The message classifier and dispatcher: routes a validated request to its
//! handler and assembles the reply around the handler's payload.

pub mod binding;

use vstd::prelude::*;
use vstd::slice::slice_to_vec;

use crate::address::AddressView;
use crate::address::TransportAddress;
use crate::attributes::AttributeMapping;
use crate::header::header_bytes;
use crate::header::HeaderView;
use crate::header::MessageClass;
use crate::header::MessageHeader;
use crate::header::MessageType;
use binding::binding_response_body;
use binding::Binding;

verus! {

/// The two operations a method's handler offers: answering a request with
/// an optional attribute payload (or declining), and observing an
/// indication for side effects alone. New methods implement this interface;
/// the dispatcher itself stays untouched.
pub trait MessageHandler {
    /// Observes an indication. Whatever happens here, no reply is produced.
    fn indication(header: &MessageHeader, body: &AttributeMapping, origin: &TransportAddress)
        requires
            header@.wf(),
            origin@.wf(),
    ;

    /// Answers a request with the attribute payload to echo back, nothing
    /// to signal a deliberate silence, or a decline.
    fn request(header: &MessageHeader, body: &AttributeMapping, origin: &TransportAddress) -> Result<
        Option<Vec<u8>>,
        (),
    >
        requires
            header@.wf(),
            origin@.wf(),
    ;
}

impl MessageHandler for Binding {
    fn indication(header: &MessageHeader, body: &AttributeMapping, origin: &TransportAddress) {
        Binding::indication(header, body, origin)
    }

    fn request(header: &MessageHeader, body: &AttributeMapping, origin: &TransportAddress) -> Result<
        Option<Vec<u8>>,
        (),
    > {
        Binding::request(header, body, origin)
    }
}

/// What the dispatcher answers: a binding request draws a success message
/// whose header reuses the request's method and transaction id and whose
/// body is the handler's payload; every other class is dropped without a
/// reply. Indications are never acknowledged, and success or error classes
/// arriving here belong to no transaction this server ever opened.
pub open spec fn response_spec(h: HeaderView, origin: AddressView) -> Option<Seq<u8>> {
    if h.mtype == MessageType::Binding && h.mclass == MessageClass::Request {
        let body = binding_response_body(h.id, origin);
        Some(
            header_bytes(
                HeaderView {
                    mtype: h.mtype,
                    mclass: MessageClass::Success,
                    length: body.len() as u16,
                    id: h.id,
                },
            ) + body,
        )
    } else {
        None
    }
}

/// Routes a parsed message to its handler and assembles the reply: the new
/// header carries the same method, the success class, the body's byte count
/// and the same transaction id, followed by the body bytes.
pub fn process_message(
    header: &MessageHeader,
    body: &AttributeMapping,
    origin: &TransportAddress,
) -> (r: Option<Vec<u8>>)
    requires
        header@.wf(),
        origin@.wf(),
    ensures
        match r {
            Some(v) => response_spec(header@, origin@) == Some(v@),
            None => response_spec(header@, origin@) is None,
        },
{
    let response_body: Option<Vec<u8>> = match header.mtype {
        MessageType::Binding => match header.mclass {
            MessageClass::Request => match Binding::request(header, body, origin) {
                Ok(res) => res,
                Err(_) => None,
            },
            MessageClass::Indication => {
                Binding::indication(header, body, origin);
                None
            },
            _ => None,
        },
    };
    match response_body {
        Some(mut response_body) => {
            let response_header = MessageHeader {
                mtype: header.mtype,
                mclass: MessageClass::Success,
                length: response_body.len() as u16,
                id: slice_to_vec(header.id.as_slice()),
            };
            let mut response = response_header.serialise();
            response.append(&mut response_body);
            assert(response@ =~= response_spec(header@, origin@)->Some_0);
            Some(response)
        },
        None => None,
    }
}

} // verus!
