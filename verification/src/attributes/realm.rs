//! The realm attribute: raw UTF-8 bytes, at most 128 of them.

use vstd::prelude::*;
use vstd::slice::slice_to_vec;
use vstd::string::StrSliceExecFns;
use vstd::utf8::decode_utf8;
use vstd::utf8::encode_utf8;
use vstd::utf8::valid_utf8;

use crate::attributes::string_from_utf8;
use crate::header::MessageHeader;

verus! {

/// A realm carried as raw UTF-8 bytes.
pub struct Realm {
    realm: Option<String>,
}

impl View for Realm {
    type V = Option<Seq<char>>;

    closed spec fn view(&self) -> Option<Seq<char>> {
        match self.realm {
            Some(u) => Some(u@),
            None => None,
        }
    }
}

/// Decoded realm: the body must be at most 128 bytes of valid UTF-8.
pub open spec fn decode_realm(body: Seq<u8>) -> Option<Seq<char>> {
    if body.len() <= 128 && valid_utf8(body) {
        Some(decode_utf8(body))
    } else {
        None
    }
}

impl Realm {
    /// An attribute holding the given realm.
    pub fn with_value(realm: String) -> (r: Realm)
        ensures
            r@ == Some(realm@),
    {
        Realm { realm: Some(realm) }
    }

    /// An attribute with no value yet; encoding omits it.
    pub fn new() -> (r: Realm)
        ensures
            r@ is None,
    {
        Realm { realm: None }
    }

    /// Encodes the held realm as its UTF-8 bytes, or nothing when the
    /// value is unset.
    pub fn serialise(&self) -> (r: Option<Vec<u8>>)
        ensures
            match self@ {
                Some(u) => r matches Some(v) && v@ == encode_utf8(u),
                None => r is None,
            },
    {
        match &self.realm {
            Some(realm) => Some(slice_to_vec(realm.as_str().as_bytes())),
            None => None,
        }
    }

    /// The held realm, if set.
    pub fn value(&self) -> (r: Option<&String>)
        ensures
            match r {
                Some(v) => self@ == Some(v@),
                None => self@ is None,
            },
    {
        self.realm.as_ref()
    }

    /// Decodes a realm body. On failure the attribute is left unchanged.
    pub fn deserialise(&mut self, body: &[u8], _header: &MessageHeader) -> (r: Result<(), ()>)
        ensures
            r is Ok <==> decode_realm(body@) is Some,
            r is Ok ==> final(self)@ == decode_realm(body@),
            r is Err ==> *final(self) == *old(self),
    {
        if body.len() > 128 {
            return Err(());
        }
        match string_from_utf8(slice_to_vec(body)) {
            Some(realm) => {
                self.realm = Some(realm);
                Ok(())
            },
            None => Err(()),
        }
    }
}

} // verus!
