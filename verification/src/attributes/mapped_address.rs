//! The plain transport-address attribute: 1 reserved byte, 1 family byte,
//! a 2-byte big-endian port, then 4 (v4) or 16 (v6) address bytes.

use vstd::prelude::*;
use vstd::slice::slice_subrange;
use vstd::slice::slice_to_vec;

use crate::address::AddressFamily;
use crate::address::AddressView;
use crate::address::TransportAddress;
use crate::header::MessageHeader;

verus! {

/// A transport address carried in the clear.
pub struct MappedAddress {
    address: Option<TransportAddress>,
}

impl View for MappedAddress {
    type V = Option<AddressView>;

    closed spec fn view(&self) -> Option<AddressView> {
        match self.address {
            Some(a) => Some(a@),
            None => None,
        }
    }
}

/// Wire bytes of an address value: reserved byte, family byte, big-endian
/// port, then the address bytes in the clear.
pub open spec fn encode_mapped_address(a: AddressView) -> Seq<u8> {
    seq![0u8, a.family_byte(), (a.port / 256) as u8, (a.port % 256) as u8] + a.octets
}

/// Decoded address value: the body must be exactly 8 bytes with family byte
/// 1, or exactly 20 bytes with family byte 2; anything else is refused.
pub open spec fn decode_mapped_address(body: Seq<u8>) -> Option<AddressView> {
    if body.len() == 8 && body[1] == 1 {
        Some(
            AddressView {
                family: AddressFamily::V4,
                port: (256 * (body[2] as int) + (body[3] as int)) as u16,
                octets: body.subrange(4, 8),
            },
        )
    } else if body.len() == 20 && body[1] == 2 {
        Some(
            AddressView {
                family: AddressFamily::V6,
                port: (256 * (body[2] as int) + (body[3] as int)) as u16,
                octets: body.subrange(4, 20),
            },
        )
    } else {
        None
    }
}

impl MappedAddress {
    /// An attribute holding the given address.
    pub fn with_address(address: TransportAddress) -> (r: MappedAddress)
        ensures
            r@ == Some(address@),
    {
        MappedAddress { address: Some(address) }
    }

    /// An attribute with no value yet; encoding omits it.
    pub fn new() -> (r: MappedAddress)
        ensures
            r@ is None,
    {
        MappedAddress { address: None }
    }

    /// Encodes the held address, or nothing when the value is unset.
    pub fn serialise(&self) -> (r: Option<Vec<u8>>)
        ensures
            match self@ {
                Some(a) => r matches Some(v) && v@ == encode_mapped_address(a),
                None => r is None,
            },
    {
        let address = match &self.address {
            Some(address) => address,
            None => {
                return None;
            },
        };
        let family: u8 = match address.family {
            AddressFamily::V4 => 1,
            AddressFamily::V6 => 2,
        };
        let p1: u8 = (address.port / 256) as u8;
        let p2: u8 = (address.port % 256) as u8;
        let mut buf: Vec<u8> = Vec::new();
        buf.push(0);
        buf.push(family);
        buf.push(p1);
        buf.push(p2);
        let mut i: usize = 0;
        while i < address.octets.len()
            invariant
                i <= address.octets@.len(),
                buf@ == encode_mapped_address(address@).take(4) + address.octets@.take(i as int),
            decreases address.octets@.len() - i,
        {
            buf.push(address.octets[i]);
            i += 1;
        }
        assert(buf@ =~= encode_mapped_address(address@));
        Some(buf)
    }

    /// The held address, if set.
    pub fn address(&self) -> (r: Option<&TransportAddress>)
        ensures
            match r {
                Some(a) => self@ == Some(a@),
                None => self@ is None,
            },
    {
        self.address.as_ref()
    }

    /// Decodes an address body. On failure the attribute is left unchanged.
    pub fn deserialise(&mut self, body: &[u8], _header: &MessageHeader) -> (r: Result<(), ()>)
        ensures
            r is Ok <==> decode_mapped_address(body@) is Some,
            r is Ok ==> final(self)@ == decode_mapped_address(body@),
            r is Err ==> *final(self) == *old(self),
    {
        if body.len() < 4 {
            return Err(());
        }
        let port: u16 = 256 * (body[2] as u16) + (body[3] as u16);
        if body[1] == 1 && body.len() == 8 {
            let octets = slice_to_vec(slice_subrange(body, 4, 8));
            self.address = Some(TransportAddress { family: AddressFamily::V4, port, octets });
            Ok(())
        } else if body[1] == 2 && body.len() == 20 {
            let octets = slice_to_vec(slice_subrange(body, 4, 20));
            self.address = Some(TransportAddress { family: AddressFamily::V6, port, octets });
            Ok(())
        } else {
            Err(())
        }
    }
}

} // verus!
