//! The message-integrity attribute: 20 opaque hash bytes. The bytes are
//! carried verbatim; this layer neither computes nor checks the hash.

use vstd::prelude::*;
use vstd::slice::slice_subrange;
use vstd::slice::slice_to_vec;

use crate::header::MessageHeader;

verus! {

/// A 20-byte opaque hash.
pub struct MessageIntegrity {
    hash: Option<Vec<u8>>,
}

impl View for MessageIntegrity {
    type V = Option<Seq<u8>>;

    closed spec fn view(&self) -> Option<Seq<u8>> {
        match self.hash {
            Some(h) => Some(h@),
            None => None,
        }
    }
}

/// Decoded hash: the first 20 bytes of a body of at least 20 bytes.
pub open spec fn decode_message_integrity(body: Seq<u8>) -> Option<Seq<u8>> {
    if body.len() >= 20 {
        Some(body.take(20))
    } else {
        None
    }
}

impl MessageIntegrity {
    /// An attribute holding the given 20-byte hash.
    pub fn with_hash(hash: Vec<u8>) -> (r: MessageIntegrity)
        requires
            hash@.len() == 20,
        ensures
            r@ == Some(hash@),
    {
        MessageIntegrity { hash: Some(hash) }
    }

    /// An attribute with no value yet; encoding omits it.
    pub fn new() -> (r: MessageIntegrity)
        ensures
            r@ is None,
    {
        MessageIntegrity { hash: None }
    }

    /// Encodes the held hash bytes, or nothing when the value is unset.
    pub fn serialise(&self) -> (r: Option<Vec<u8>>)
        ensures
            match self@ {
                Some(h) => r matches Some(v) && v@ == h,
                None => r is None,
            },
    {
        match &self.hash {
            Some(hash) => Some(slice_to_vec(hash.as_slice())),
            None => None,
        }
    }

    /// The held hash bytes, if set.
    pub fn hash(&self) -> (r: Option<&Vec<u8>>)
        ensures
            match r {
                Some(h) => self@ == Some(h@),
                None => self@ is None,
            },
    {
        self.hash.as_ref()
    }

    /// Decodes a hash body. On failure the attribute is left unchanged.
    pub fn deserialise(&mut self, body: &[u8], _header: &MessageHeader) -> (r: Result<(), ()>)
        ensures
            r is Ok <==> decode_message_integrity(body@) is Some,
            r is Ok ==> final(self)@ == decode_message_integrity(body@),
            r is Err ==> *final(self) == *old(self),
    {
        if body.len() < 20 {
            return Err(());
        }
        let buf = slice_to_vec(slice_subrange(body, 0, 20));
        assert(buf@ =~= body@.take(20));
        self.hash = Some(buf);
        Ok(())
    }
}

} // verus!
