//! The binding handler: answers a binding request with one XOR-obfuscated
//! address attribute carrying the peer's apparent transport address.

use vstd::prelude::*;
use vstd::slice::slice_to_vec;

use crate::address::build_xor_key;
use crate::address::xor_key;
use crate::address::AddressView;
use crate::address::TransportAddress;
use crate::attributes::serialise_attribute;
use crate::attributes::serialised_attribute_bytes;
use crate::attributes::AttributeBody;
use crate::attributes::AttributeMapping;
use crate::attributes::AttributeView;
use crate::attributes::xor_mapped_address::XorAddressView;
use crate::attributes::xor_mapped_address::XorMappedAddress;
use crate::header::MessageHeader;

verus! {

/// The handler for the binding method.
pub struct Binding {}

/// The attribute payload of a successful binding response: one TLV record
/// holding the origin address obfuscated under the key that the transaction
/// id and the address family give.
pub open spec fn binding_response_body(id: Seq<u8>, origin: AddressView) -> Seq<u8> {
    serialised_attribute_bytes(
        AttributeView::XorMappedAddress(
            XorAddressView { address: Some(origin), key: xor_key(origin.family, id) },
        ),
    )
}

impl Binding {
    /// Observes an indication. Indications are never acknowledged, so there
    /// is nothing to produce.
    pub fn indication(_header: &MessageHeader, _body: &AttributeMapping, _origin: &TransportAddress) {
    }

    /// Answers a request: builds the obfuscated address attribute for the
    /// observed origin, keyed by the request's transaction id, and returns
    /// its serialized bytes. For a well-formed origin address the key length
    /// always matches, so an answer is always produced.
    pub fn request(header: &MessageHeader, _body: &AttributeMapping, origin: &TransportAddress)
        -> (r: Result<Option<Vec<u8>>, ()>)
        requires
            header@.wf(),
            origin@.wf(),
        ensures
            r matches Ok(opt) && opt matches Some(v) && v@ == binding_response_body(
                header.id@,
                origin@,
            ),
    {
        let origin_copy = TransportAddress {
            family: origin.family,
            port: origin.port,
            octets: slice_to_vec(origin.octets.as_slice()),
        };
        assert(origin_copy@ =~= origin@);
        let key = build_xor_key(origin.family, &header.id);
        let xor_mapped_address = match XorMappedAddress::with_address(origin_copy, key) {
            Ok(xor_mapped_address) => xor_mapped_address,
            Err(_) => {
                return Err(());
            },
        };
        let body = serialise_attribute(&AttributeBody::XorMappedAddress(xor_mapped_address));
        Ok(Some(body))
    }
}

} // verus!
