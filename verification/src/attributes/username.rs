//! The username attribute: raw UTF-8 bytes, at most 512 of them.

use vstd::prelude::*;
use vstd::slice::slice_to_vec;
use vstd::string::StrSliceExecFns;
use vstd::utf8::decode_utf8;
use vstd::utf8::encode_utf8;
use vstd::utf8::valid_utf8;

use crate::attributes::string_from_utf8;
use crate::header::MessageHeader;

verus! {

/// A username carried as raw UTF-8 bytes.
pub struct Username {
    username: Option<String>,
}

impl View for Username {
    type V = Option<Seq<char>>;

    closed spec fn view(&self) -> Option<Seq<char>> {
        match self.username {
            Some(u) => Some(u@),
            None => None,
        }
    }
}

/// Decoded username: the body must be at most 512 bytes of valid UTF-8.
pub open spec fn decode_username(body: Seq<u8>) -> Option<Seq<char>> {
    if body.len() <= 512 && valid_utf8(body) {
        Some(decode_utf8(body))
    } else {
        None
    }
}

impl Username {
    /// An attribute holding the given username.
    pub fn with_value(username: String) -> (r: Username)
        ensures
            r@ == Some(username@),
    {
        Username { username: Some(username) }
    }

    /// An attribute with no value yet; encoding omits it.
    pub fn new() -> (r: Username)
        ensures
            r@ is None,
    {
        Username { username: None }
    }

    /// Encodes the held username as its UTF-8 bytes, or nothing when the
    /// value is unset.
    pub fn serialise(&self) -> (r: Option<Vec<u8>>)
        ensures
            match self@ {
                Some(u) => r matches Some(v) && v@ == encode_utf8(u),
                None => r is None,
            },
    {
        match &self.username {
            Some(username) => Some(slice_to_vec(username.as_str().as_bytes())),
            None => None,
        }
    }

    /// The held username, if set.
    pub fn value(&self) -> (r: Option<&String>)
        ensures
            match r {
                Some(v) => self@ == Some(v@),
                None => self@ is None,
            },
    {
        self.username.as_ref()
    }

    /// Decodes a username body. On failure the attribute is left unchanged.
    pub fn deserialise(&mut self, body: &[u8], _header: &MessageHeader) -> (r: Result<(), ()>)
        ensures
            r is Ok <==> decode_username(body@) is Some,
            r is Ok ==> final(self)@ == decode_username(body@),
            r is Err ==> *final(self) == *old(self),
    {
        if body.len() > 512 {
            return Err(());
        }
        match string_from_utf8(slice_to_vec(body)) {
            Some(username) => {
                self.username = Some(username);
                Ok(())
            },
            None => Err(()),
        }
    }
}

} // verus!
