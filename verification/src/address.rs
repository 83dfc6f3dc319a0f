//! Transport addresses as the codec sees them: an IP family, a 16-bit port
//! and the raw address bytes, together with the XOR obfuscation transform
//! that keys those bytes against the magic cookie and the transaction id.

use vstd::prelude::*;

use crate::magic_cookie;
use crate::MAGIC_COOKIE_0;
use crate::MAGIC_COOKIE_1;
use crate::MAGIC_COOKIE_2;
use crate::MAGIC_COOKIE_3;

verus! {

/// IP address family: family byte 1 on the wire is v4, family byte 2 is v6.
#[derive(Clone, Copy, PartialEq, Eq, Structural, Debug)]
pub enum AddressFamily {
    V4,
    V6,
}

/// A transport address: family, port, and 4 (v4) or 16 (v6) address bytes.
pub struct TransportAddress {
    pub family: AddressFamily,
    pub port: u16,
    pub octets: Vec<u8>,
}

/// Mathematical model of a transport address.
#[verifier::ext_equal]
pub struct AddressView {
    pub family: AddressFamily,
    pub port: u16,
    pub octets: Seq<u8>,
}

impl View for TransportAddress {
    type V = AddressView;

    open spec fn view(&self) -> AddressView {
        AddressView { family: self.family, port: self.port, octets: self.octets@ }
    }
}

impl AddressView {
    /// An address is well formed when its byte count matches its family.
    pub open spec fn wf(&self) -> bool {
        match self.family {
            AddressFamily::V4 => self.octets.len() == 4,
            AddressFamily::V6 => self.octets.len() == 16,
        }
    }

    /// The family byte that stands for this address's family on the wire.
    pub open spec fn family_byte(&self) -> u8 {
        match self.family {
            AddressFamily::V4 => 1,
            AddressFamily::V6 => 2,
        }
    }
}

impl TransportAddress {
    /// An address is well formed when its byte count matches its family.
    pub open spec fn wf(&self) -> bool {
        self@.wf()
    }
}

/// Byte-wise XOR of `data` against the prefix of `key` of the same length.
pub open spec fn xor_bytes(data: Seq<u8>, key: Seq<u8>) -> Seq<u8> {
    Seq::new(data.len(), |i: int| data[i] ^ key[i])
}

/// The obfuscation key for an address family and transaction id: the magic
/// cookie alone for v4, the magic cookie extended with the 12 id bytes for v6.
pub open spec fn xor_key(family: AddressFamily, id: Seq<u8>) -> Seq<u8> {
    match family {
        AddressFamily::V4 => magic_cookie(),
        AddressFamily::V6 => magic_cookie() + id,
    }
}

/// The obfuscation transform is involutive: XORing twice against the same
/// key gives the original bytes back, for any data and any key that covers it.
pub proof fn lemma_xor_involutive(data: Seq<u8>, key: Seq<u8>)
    requires
        data.len() <= key.len(),
    ensures
        xor_bytes(xor_bytes(data, key), key) == data,
{
    let once = xor_bytes(data, key);
    let twice = xor_bytes(once, key);
    assert forall|i: int| 0 <= i < data.len() implies twice[i] == data[i] by {
        let d = data[i];
        let k = key[i];
        assert((d ^ k) ^ k == d) by (bit_vector);
    }
    assert(twice =~= data);
}

/// Builds the obfuscation key for a family: the magic cookie, extended with
/// the transaction id for v6.
pub fn build_xor_key(family: AddressFamily, id: &Vec<u8>) -> (r: Vec<u8>)
    ensures
        r@ == xor_key(family, id@),
{
    let mut key: Vec<u8> = Vec::new();
    key.push(MAGIC_COOKIE_0);
    key.push(MAGIC_COOKIE_1);
    key.push(MAGIC_COOKIE_2);
    key.push(MAGIC_COOKIE_3);
    assert(key@ =~= magic_cookie());
    match family {
        AddressFamily::V4 => key,
        AddressFamily::V6 => {
            let mut i: usize = 0;
            while i < id.len()
                invariant
                    i <= id@.len(),
                    key@ == magic_cookie() + id@.take(i as int),
                decreases id@.len() - i,
            {
                key.push(id[i]);
                i += 1;
            }
            assert(key@ =~= xor_key(AddressFamily::V6, id@));
            key
        },
    }
}

/// XORs `data` byte-wise against `key`, which must be at least as long.
pub fn apply_xor(data: &[u8], key: &[u8]) -> (r: Vec<u8>)
    requires
        data@.len() <= key@.len(),
    ensures
        r@ == xor_bytes(data@, key@),
{
    let mut out: Vec<u8> = Vec::new();
    let mut i: usize = 0;
    while i < data.len()
        invariant
            i <= data@.len() <= key@.len(),
            out@ == xor_bytes(data@, key@).take(i as int),
        decreases data@.len() - i,
    {
        out.push(data[i] ^ key[i]);
        assert(out@ =~= xor_bytes(data@, key@).take(i + 1));
        i += 1;
    }
    assert(out@ =~= xor_bytes(data@, key@));
    out
}

} // verus!
