//! Records.
//!
//! An [`Element`] is the immutable unit of a chain: a signed header paired
//! with its optional content payload. Elements are constructed once and only
//! read afterwards; validation borrows them and returns a result.

use vstd::prelude::*;

use crate::entry::Entry;
use crate::hash::{blake2b_32, blake2b_of, HashRepr, HoloHash};
use crate::header::{serialize_header, spec_serialize_header, Header};

verus! {

/// A digest of the serialized header, signed by the author's private key.
#[derive(Clone, Debug)]
pub struct Signature(pub Vec<u8>);

impl View for Signature {
    type V = Seq<u8>;

    open spec fn view(&self) -> Seq<u8> {
        self.0@
    }
}

/// The address a header hashes to.
pub open spec fn spec_header_address(h: Header) -> HashRepr {
    HashRepr::Header(blake2b_of(32, spec_serialize_header(h)))
}

/// A signed header paired with its optional content payload.
#[derive(Clone, Debug)]
pub struct Element {
    /// The author's signature over the serialized header.
    pub signature: Signature,
    /// The record's metadata.
    pub header: Header,
    /// The content the record carries, if any.
    pub entry: Option<Entry>,
}

impl Element {
    /// Pair a signed header with its optional content payload.
    pub fn new(signature: Signature, header: Header, entry: Option<Entry>) -> (r: Element)
        ensures
            r == (Element { signature, header, entry }),
    {
        Element { signature, header, entry }
    }

    /// Recompute the address of this record's header.
    pub fn header_address(&self) -> (r: HoloHash)
        ensures
            r@ == spec_header_address(self.header),
            r.wf(),
    {
        let bytes = serialize_header(&self.header);
        HoloHash::Header(blake2b_32(bytes.as_slice()))
    }
}

} // verus!
