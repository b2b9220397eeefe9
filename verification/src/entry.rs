//! Chain content.
//!
//! An [`Entry`] is the tagged payload a record may commit to. Headers that
//! declare new content name the payload's kind with an [`EntryType`] tag and
//! commit to its content address; the checks in
//! [`sys_validate`](crate::sys_validate) hold the two together.

use vstd::prelude::*;

use crate::hash::{blake2b_32, blake2b_of, HashRepr, HoloHash};

verus! {

/// The kind of content a header declares.
#[derive(Clone, Copy, Debug, PartialEq, Eq, Structural)]
pub enum EntryType {
    /// An identity-binding payload: an agent's public key.
    Agent,
    /// An application-defined payload.
    App,
    /// A capability claim.
    CapClaim,
    /// A capability grant.
    CapGrant,
}

/// A tagged content payload.
#[derive(Clone, Debug)]
pub enum Entry {
    /// The identity-binding payload: the agent key it binds.
    Agent(HoloHash),
    /// An application-defined payload, opaque to this engine.
    App(Vec<u8>),
    /// A capability claim, opaque to this engine.
    CapClaim(Vec<u8>),
    /// A capability grant, opaque to this engine.
    CapGrant(Vec<u8>),
}

/// The [`EntryType`] tag that matches an entry's runtime variant.
pub open spec fn spec_entry_type(e: Entry) -> EntryType {
    match e {
        Entry::Agent(_) => EntryType::Agent,
        Entry::App(_) => EntryType::App,
        Entry::CapClaim(_) => EntryType::CapClaim,
        Entry::CapGrant(_) => EntryType::CapGrant,
    }
}

/// The deterministic serialization of an entry: one variant byte, then the
/// payload bytes.
pub open spec fn spec_entry_bytes(e: Entry) -> Seq<u8> {
    match e {
        Entry::Agent(k) => seq![0u8] + crate::hash::spec_hash_bytes(k@),
        Entry::App(b) => seq![1u8] + b@,
        Entry::CapClaim(b) => seq![2u8] + b@,
        Entry::CapGrant(b) => seq![3u8] + b@,
    }
}

/// The size of an entry's payload in bytes.
pub open spec fn spec_entry_size(e: Entry) -> int {
    match e {
        Entry::Agent(k) => crate::hash::spec_raw_bytes(k@).len() as int,
        Entry::App(b) => b@.len() as int,
        Entry::CapClaim(b) => b@.len() as int,
        Entry::CapGrant(b) => b@.len() as int,
    }
}

/// The content address an entry hashes to.
pub open spec fn spec_entry_hash(e: Entry) -> HashRepr {
    HashRepr::Entry(blake2b_of(32, spec_entry_bytes(e)))
}

impl Entry {
    /// The tag that matches this entry's runtime variant.
    pub fn entry_type(&self) -> (r: EntryType)
        ensures
            r == spec_entry_type(*self),
    {
        match self {
            Entry::Agent(_) => EntryType::Agent,
            Entry::App(_) => EntryType::App,
            Entry::CapClaim(_) => EntryType::CapClaim,
            Entry::CapGrant(_) => EntryType::CapGrant,
        }
    }

    /// Serialize the entry deterministically.
    pub fn to_bytes(&self) -> (r: Vec<u8>)
        ensures
            r@ == spec_entry_bytes(*self),
    {
        let mut out: Vec<u8> = Vec::new();
        match self {
            Entry::Agent(k) => {
                out.push(0u8);
                let mut kb = k.to_bytes();
                out.append(&mut kb);
            },
            Entry::App(b) => {
                out.push(1u8);
                out.extend_from_slice(b.as_slice());
            },
            Entry::CapClaim(b) => {
                out.push(2u8);
                out.extend_from_slice(b.as_slice());
            },
            Entry::CapGrant(b) => {
                out.push(3u8);
                out.extend_from_slice(b.as_slice());
            },
        }
        proof {
            assert(out@ =~= spec_entry_bytes(*self));
        }
        out
    }

    /// The size of this entry's payload in bytes.
    pub fn size(&self) -> (r: usize)
        ensures
            r == spec_entry_size(*self),
    {
        match self {
            Entry::Agent(k) => k.raw_bytes().len(),
            Entry::App(b) => b.len(),
            Entry::CapClaim(b) => b.len(),
            Entry::CapGrant(b) => b.len(),
        }
    }
}

/// Recompute the content address of an entry.
pub fn hash_entry(e: &Entry) -> (r: HoloHash)
    ensures
        r@ == spec_entry_hash(*e),
        r.wf(),
{
    let bytes = e.to_bytes();
    HoloHash::Entry(blake2b_32(bytes.as_slice()))
}

} // verus!
