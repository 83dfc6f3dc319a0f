//! The unknown-attributes attribute: a sequence of 2-byte big-endian
//! attribute-type codes. The body must have even length.

use vstd::prelude::*;

use crate::header::MessageHeader;

verus! {

/// A list of attribute-type codes.
pub struct UnknownAttributes {
    attributes: Option<Vec<u16>>,
}

impl View for UnknownAttributes {
    type V = Option<Seq<u16>>;

    closed spec fn view(&self) -> Option<Seq<u16>> {
        match self.attributes {
            Some(a) => Some(a@),
            None => None,
        }
    }
}

/// Wire bytes of a code list: each code as two big-endian bytes, in order.
pub open spec fn encode_unknown_attributes(codes: Seq<u16>) -> Seq<u8> {
    Seq::new(
        2 * codes.len(),
        |i: int|
            if i % 2 == 0 {
                (codes[i / 2] / 256) as u8
            } else {
                (codes[i / 2] % 256) as u8
            },
    )
}

/// Decoded code list: the body length must be even.
pub open spec fn decode_unknown_attributes(body: Seq<u8>) -> Option<Seq<u16>> {
    if body.len() % 2 == 0 {
        Some(
            Seq::new(
                body.len() / 2,
                |i: int| (256 * (body[2 * i] as int) + (body[2 * i + 1] as int)) as u16,
            ),
        )
    } else {
        None
    }
}

impl UnknownAttributes {
    /// An attribute holding an empty code list, ready to be added to.
    pub fn new_empty() -> (r: UnknownAttributes)
        ensures
            r@ == Some(Seq::<u16>::empty()),
    {
        UnknownAttributes { attributes: Some(Vec::new()) }
    }

    /// Appends a code to the held list; without a list this does nothing.
    pub fn add(&mut self, attribute: u16)
        ensures
            match old(self)@ {
                Some(codes) => final(self)@ == Some(codes.push(attribute)),
                None => *final(self) == *old(self),
            },
    {
        if let Some(attributes) = &mut self.attributes {
            attributes.push(attribute);
        }
    }

    /// An attribute with no value yet; encoding omits it.
    pub fn new() -> (r: UnknownAttributes)
        ensures
            r@ is None,
    {
        UnknownAttributes { attributes: None }
    }

    /// Encodes the held code list, or nothing when the value is unset.
    pub fn serialise(&self) -> (r: Option<Vec<u8>>)
        ensures
            match self@ {
                Some(codes) => r matches Some(v) && v@ == encode_unknown_attributes(codes),
                None => r is None,
            },
    {
        let attributes = match &self.attributes {
            Some(attributes) => attributes,
            None => {
                return None;
            },
        };
        let mut buf: Vec<u8> = Vec::new();
        let mut i: usize = 0;
        while i < attributes.len()
            invariant
                i <= attributes@.len(),
                buf@ == encode_unknown_attributes(attributes@).take(2 * i as int),
            decreases attributes@.len() - i,
        {
            buf.push((attributes[i] / 256) as u8);
            assert(buf@ =~= encode_unknown_attributes(attributes@).take(2 * i as int + 1));
            buf.push((attributes[i] % 256) as u8);
            assert(buf@ =~= encode_unknown_attributes(attributes@).take(2 * i as int + 2));
            i += 1;
        }
        assert(buf@ =~= encode_unknown_attributes(attributes@));
        Some(buf)
    }

    /// The held code list, if set.
    pub fn codes(&self) -> (r: Option<&Vec<u16>>)
        ensures
            match r {
                Some(c) => self@ == Some(c@),
                None => self@ is None,
            },
    {
        self.attributes.as_ref()
    }

    /// Decodes a code-list body. On failure the attribute is unchanged.
    pub fn deserialise(&mut self, body: &[u8], _header: &MessageHeader) -> (r: Result<(), ()>)
        ensures
            r is Ok <==> decode_unknown_attributes(body@) is Some,
            r is Ok ==> final(self)@ == decode_unknown_attributes(body@),
            r is Err ==> *final(self) == *old(self),
    {
        if body.len() % 2 != 0 {
            return Err(());
        }
        let ghost codes = decode_unknown_attributes(body@)->Some_0;
        let n: usize = body.len() / 2;
        let mut attributes: Vec<u16> = Vec::new();
        let mut i: usize = 0;
        while i < n
            invariant
                i <= n,
                n == body@.len() / 2,
                2 * n <= body@.len() <= usize::MAX,
                body@.len() % 2 == 0,
                codes == decode_unknown_attributes(body@)->Some_0,
                attributes@ == codes.take(i as int),
            decreases n - i,
        {
            let attribute: u16 = 256 * (body[2 * i] as u16) + (body[2 * i + 1] as u16);
            attributes.push(attribute);
            assert(attributes@ =~= codes.take(i as int + 1));
            i += 1;
        }
        assert(attributes@ =~= codes);
        self.attributes = Some(attributes);
        Ok(())
    }
}

} // verus!
