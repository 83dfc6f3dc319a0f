//! The XOR-obfuscated transport-address attribute. Same layout as the plain
//! address attribute, but the port bytes are XORed with the first two magic
//! cookie bytes and the address bytes with the obfuscation key: the magic
//! cookie for v4, the magic cookie extended with the transaction id for v6.
//! The transform is self-inverse: encoding and decoding apply the same XOR.

use vstd::prelude::*;
use vstd::slice::slice_subrange;

use crate::address::apply_xor;
use crate::address::build_xor_key;
use crate::address::lemma_xor_involutive;
use crate::address::xor_bytes;
use crate::address::xor_key;
use crate::address::AddressFamily;
use crate::address::AddressView;
use crate::address::TransportAddress;
use crate::header::MessageHeader;
use crate::MAGIC_COOKIE_0;
use crate::MAGIC_COOKIE_1;

verus! {

/// A transport address carried obfuscated, together with the key it is
/// obfuscated under.
pub struct XorMappedAddress {
    address: Option<TransportAddress>,
    address_key: Vec<u8>,
}

/// Mathematical model of an obfuscated address attribute.
#[verifier::ext_equal]
pub struct XorAddressView {
    pub address: Option<AddressView>,
    pub key: Seq<u8>,
}

impl View for XorMappedAddress {
    type V = XorAddressView;

    closed spec fn view(&self) -> XorAddressView {
        XorAddressView {
            address: match self.address {
                Some(a) => Some(a@),
                None => None,
            },
            key: self.address_key@,
        }
    }
}

impl XorAddressView {
    /// Well-formed when the held address matches its family and the key
    /// covers the address bytes exactly.
    pub open spec fn wf(&self) -> bool {
        match self.address {
            Some(a) => a.wf() && self.key.len() == a.octets.len(),
            None => true,
        }
    }
}

/// Wire bytes of an obfuscated address: reserved byte, family byte, the two
/// port bytes XORed with the magic-cookie prefix, then the address bytes
/// XORed with the key.
pub open spec fn encode_xor_mapped(a: AddressView, key: Seq<u8>) -> Seq<u8> {
    seq![
        0u8,
        a.family_byte(),
        ((a.port / 256) as u8) ^ MAGIC_COOKIE_0,
        ((a.port % 256) as u8) ^ MAGIC_COOKIE_1,
    ] + xor_bytes(a.octets, key)
}

/// Decoded obfuscated address: the body must be exactly 8 bytes with family
/// byte 1, or exactly 20 bytes with family byte 2. The key is recomputed
/// from the family and the transaction id of the surrounding message.
pub open spec fn decode_xor_mapped(body: Seq<u8>, id: Seq<u8>) -> Option<XorAddressView> {
    if body.len() == 8 && body[1] == 1 {
        Some(
            XorAddressView {
                address: Some(
                    AddressView {
                        family: AddressFamily::V4,
                        port: (256 * ((body[2] ^ MAGIC_COOKIE_0) as int) + ((body[3]
                            ^ MAGIC_COOKIE_1) as int)) as u16,
                        octets: xor_bytes(
                            body.subrange(4, 8),
                            xor_key(AddressFamily::V4, id),
                        ),
                    },
                ),
                key: xor_key(AddressFamily::V4, id),
            },
        )
    } else if body.len() == 20 && body[1] == 2 {
        Some(
            XorAddressView {
                address: Some(
                    AddressView {
                        family: AddressFamily::V6,
                        port: (256 * ((body[2] ^ MAGIC_COOKIE_0) as int) + ((body[3]
                            ^ MAGIC_COOKIE_1) as int)) as u16,
                        octets: xor_bytes(
                            body.subrange(4, 20),
                            xor_key(AddressFamily::V6, id),
                        ),
                    },
                ),
                key: xor_key(AddressFamily::V6, id),
            },
        )
    } else {
        None
    }
}

impl XorMappedAddress {
    /// An attribute holding the given address under the given key. Refused
    /// when the key length does not match the address family: 4 bytes for
    /// v4, 16 for v6.
    pub fn with_address(address: TransportAddress, key: Vec<u8>) -> (r: Result<
        XorMappedAddress,
        (),
    >)
        requires
            address@.wf(),
        ensures
            r is Ok <==> key@.len() == (match address@.family {
                AddressFamily::V4 => 4int,
                AddressFamily::V6 => 16int,
            }),
            r matches Ok(x) ==> x@ == (XorAddressView { address: Some(address@), key: key@ })
                && x@.wf(),
    {
        let key_ok = match address.family {
            AddressFamily::V4 => key.len() == 4,
            AddressFamily::V6 => key.len() == 16,
        };
        if !key_ok {
            Err(())
        } else {
            Ok(XorMappedAddress { address: Some(address), address_key: key })
        }
    }

    /// An attribute with no value yet; encoding omits it.
    pub fn new() -> (r: XorMappedAddress)
        ensures
            r@ == (XorAddressView { address: None, key: Seq::<u8>::empty() }),
    {
        XorMappedAddress { address: None, address_key: Vec::new() }
    }

    /// The held address, if set.
    pub fn address(&self) -> (r: Option<&TransportAddress>)
        ensures
            match r {
                Some(a) => self@.address == Some(a@),
                None => self@.address is None,
            },
    {
        self.address.as_ref()
    }

    /// The held obfuscation key.
    pub fn key(&self) -> (r: &Vec<u8>)
        ensures
            r@ == self@.key,
    {
        &self.address_key
    }

    /// Encodes the held address under the held key, or nothing when the
    /// value is unset.
    pub fn serialise(&self) -> (r: Option<Vec<u8>>)
        requires
            self@.wf(),
        ensures
            match self@.address {
                Some(a) => r matches Some(v) && v@ == encode_xor_mapped(a, self@.key),
                None => r is None,
            },
    {
        let address = match &self.address {
            Some(address) => address,
            None => {
                return None;
            },
        };
        let family: u8 = match address.family {
            AddressFamily::V4 => 1,
            AddressFamily::V6 => 2,
        };
        let p1: u8 = ((address.port / 256) as u8) ^ MAGIC_COOKIE_0;
        let p2: u8 = ((address.port % 256) as u8) ^ MAGIC_COOKIE_1;
        let obfuscated = apply_xor(address.octets.as_slice(), self.address_key.as_slice());
        let mut buf: Vec<u8> = Vec::new();
        buf.push(0);
        buf.push(family);
        buf.push(p1);
        buf.push(p2);
        let mut i: usize = 0;
        while i < obfuscated.len()
            invariant
                i <= obfuscated@.len(),
                buf@ == encode_xor_mapped(address@, self@.key).take(4) + obfuscated@.take(i as int),
                obfuscated@ == xor_bytes(address@.octets, self@.key),
            decreases obfuscated@.len() - i,
        {
            buf.push(obfuscated[i]);
            i += 1;
        }
        assert(buf@ =~= encode_xor_mapped(address@, self@.key));
        Some(buf)
    }

    /// Decodes an obfuscated address body, keyed by the transaction id of
    /// the surrounding message. On failure the attribute is left unchanged.
    pub fn deserialise(&mut self, body: &[u8], header: &MessageHeader) -> (r: Result<(), ()>)
        requires
            old(self)@.wf(),
            header@.wf(),
        ensures
            r is Ok <==> decode_xor_mapped(body@, header.id@) is Some,
            r is Ok ==> decode_xor_mapped(body@, header.id@) == Some(final(self)@),
            r is Ok ==> final(self)@.wf(),
            r is Err ==> *final(self) == *old(self),
    {
        if body.len() == 8 && body[1] == 1 {
            let key = build_xor_key(AddressFamily::V4, &header.id);
            let port: u16 = 256 * ((body[2] ^ MAGIC_COOKIE_0) as u16) + ((body[3]
                ^ MAGIC_COOKIE_1) as u16);
            let octets = apply_xor(slice_subrange(body, 4, 8), key.as_slice());
            self.address = Some(TransportAddress { family: AddressFamily::V4, port, octets });
            self.address_key = key;
            Ok(())
        } else if body.len() == 20 && body[1] == 2 {
            let key = build_xor_key(AddressFamily::V6, &header.id);
            let port: u16 = 256 * ((body[2] ^ MAGIC_COOKIE_0) as u16) + ((body[3]
                ^ MAGIC_COOKIE_1) as u16);
            let octets = apply_xor(slice_subrange(body, 4, 20), key.as_slice());
            self.address = Some(TransportAddress { family: AddressFamily::V6, port, octets });
            self.address_key = key;
            Ok(())
        } else {
            Err(())
        }
    }
}

/// The obfuscation is involutive at the codec level: decoding what was
/// encoded under the matching key gives the original address back, for any
/// well-formed address and any 12-byte transaction id.
pub proof fn lemma_xor_codec_round_trip(a: AddressView, id: Seq<u8>)
    requires
        a.wf(),
        id.len() == 12,
    ensures
        decode_xor_mapped(encode_xor_mapped(a, xor_key(a.family, id)), id) matches Some(x)
            && x.address == Some(a) && x.key == xor_key(a.family, id),
{
    let key = xor_key(a.family, id);
    let body = encode_xor_mapped(a, key);
    assert(xor_bytes(a.octets, key).len() == a.octets.len());
    let ph = (a.port / 256) as u8;
    let pl = (a.port % 256) as u8;
    assert((ph ^ MAGIC_COOKIE_0) ^ MAGIC_COOKIE_0 == ph) by (bit_vector);
    assert((pl ^ MAGIC_COOKIE_1) ^ MAGIC_COOKIE_1 == pl) by (bit_vector);
    vstd::arithmetic::div_mod::lemma_fundamental_div_mod(a.port as int, 256);
    assert(256 * (ph as int) + (pl as int) == a.port as int);
    lemma_xor_involutive(a.octets, key);
    match a.family {
        AddressFamily::V4 => {
            assert(body.len() == 8);
            assert(body[1] == 1);
            assert(body.subrange(4, 8) =~= xor_bytes(a.octets, key));
            let x = decode_xor_mapped(body, id)->Some_0;
            assert(x.address matches Some(d) && d =~= a);
        },
        AddressFamily::V6 => {
            assert(body.len() == 20);
            assert(body[1] == 2);
            assert(body.subrange(4, 20) =~= xor_bytes(a.octets, key));
            let x = decode_xor_mapped(body, id)->Some_0;
            assert(x.address matches Some(d) && d =~= a);
        },
    }
}

} // verus!
