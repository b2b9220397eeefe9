//! Record metadata.
//!
//! A [`Header`] is one record's metadata: its author, its chain time, its
//! chain position, the address of its predecessor (absent only on the chain
//! root) and, for the variants that declare new content, the entry-type tag
//! and the content address the record commits to.
//!
//! The variant set is closed and every reader matches exhaustively, so a new
//! variant forces a review of every rule that depends on it.

use vstd::prelude::*;

use crate::codec::{i64_to_sm_bytes, spec_i64_sm, spec_u32_be, u32_to_be_bytes};
use crate::entry::EntryType;
use crate::hash::{spec_hash_bytes, HoloHash};
use crate::time::Timestamp;

verus! {

/// One record's metadata. Every variant carries the author and the
/// timestamp; every variant but the chain root carries the chain position
/// and the predecessor's address.
#[derive(Clone, Debug)]
pub enum Header {
    /// The first record of a chain. It carries no backward link; its chain
    /// position is 0 by definition.
    ChainRoot {
        /// The agent this chain belongs to.
        author: HoloHash,
        /// The record's chain time.
        timestamp: Timestamp,
    },
    /// A record committing new content to the chain.
    NewEntry {
        /// The agent this chain belongs to.
        author: HoloHash,
        /// The record's chain time.
        timestamp: Timestamp,
        /// The record's chain position.
        header_seq: u32,
        /// The address of the predecessor header.
        prev_header: HoloHash,
        /// The declared kind of the committed content.
        entry_type: EntryType,
        /// The content address the record commits to.
        entry_hash: HoloHash,
    },
    /// A record replacing earlier content with new content.
    UpdateEntry {
        /// The agent this chain belongs to.
        author: HoloHash,
        /// The record's chain time.
        timestamp: Timestamp,
        /// The record's chain position.
        header_seq: u32,
        /// The address of the predecessor header.
        prev_header: HoloHash,
        /// The address of the header whose content is replaced.
        replaces_address: HoloHash,
        /// The declared kind of the committed content.
        entry_type: EntryType,
        /// The content address the record commits to.
        entry_hash: HoloHash,
    },
    /// A record marking earlier content as removed. It carries no new
    /// content itself.
    RemoveEntry {
        /// The agent this chain belongs to.
        author: HoloHash,
        /// The record's chain time.
        timestamp: Timestamp,
        /// The record's chain position.
        header_seq: u32,
        /// The address of the predecessor header.
        prev_header: HoloHash,
        /// The address of the header whose content is removed.
        removes_address: HoloHash,
    },
    /// A record adding a link between two addresses.
    LinkAdd {
        /// The agent this chain belongs to.
        author: HoloHash,
        /// The record's chain time.
        timestamp: Timestamp,
        /// The record's chain position.
        header_seq: u32,
        /// The address of the predecessor header.
        prev_header: HoloHash,
        /// The address the link points from.
        base_address: HoloHash,
        /// The address the link points to.
        target_address: HoloHash,
    },
    /// A record retracting an earlier link.
    LinkRemove {
        /// The agent this chain belongs to.
        author: HoloHash,
        /// The record's chain time.
        timestamp: Timestamp,
        /// The record's chain position.
        header_seq: u32,
        /// The address of the predecessor header.
        prev_header: HoloHash,
        /// The address of the link-adding header being retracted.
        link_add_address: HoloHash,
    },
    /// A record marking a system life-cycle event; it carries no content.
    SystemEvent {
        /// The agent this chain belongs to.
        author: HoloHash,
        /// The record's chain time.
        timestamp: Timestamp,
        /// The record's chain position.
        header_seq: u32,
        /// The address of the predecessor header.
        prev_header: HoloHash,
    },
}

impl Header {
    /// Whether this is the chain's root record.
    pub open spec fn spec_is_root(self) -> bool {
        self is ChainRoot
    }

    /// The author common to every variant.
    pub open spec fn spec_author(self) -> HoloHash {
        match self {
            Header::ChainRoot { author, .. } => author,
            Header::NewEntry { author, .. } => author,
            Header::UpdateEntry { author, .. } => author,
            Header::RemoveEntry { author, .. } => author,
            Header::LinkAdd { author, .. } => author,
            Header::LinkRemove { author, .. } => author,
            Header::SystemEvent { author, .. } => author,
        }
    }

    /// The chain time common to every variant.
    pub open spec fn spec_timestamp(self) -> Timestamp {
        match self {
            Header::ChainRoot { timestamp, .. } => timestamp,
            Header::NewEntry { timestamp, .. } => timestamp,
            Header::UpdateEntry { timestamp, .. } => timestamp,
            Header::RemoveEntry { timestamp, .. } => timestamp,
            Header::LinkAdd { timestamp, .. } => timestamp,
            Header::LinkRemove { timestamp, .. } => timestamp,
            Header::SystemEvent { timestamp, .. } => timestamp,
        }
    }

    /// The chain position: 0 for the root by definition, otherwise the
    /// variant's own field.
    pub open spec fn spec_header_seq(self) -> u32 {
        match self {
            Header::ChainRoot { .. } => 0,
            Header::NewEntry { header_seq, .. } => header_seq,
            Header::UpdateEntry { header_seq, .. } => header_seq,
            Header::RemoveEntry { header_seq, .. } => header_seq,
            Header::LinkAdd { header_seq, .. } => header_seq,
            Header::LinkRemove { header_seq, .. } => header_seq,
            Header::SystemEvent { header_seq, .. } => header_seq,
        }
    }

    /// The entry data a header declares: the content address it commits to
    /// and the declared entry-type tag. Only records that commit new content
    /// have any.
    pub open spec fn spec_entry_data(self) -> Option<(HoloHash, EntryType)> {
        match self {
            Header::NewEntry { entry_hash, entry_type, .. } => Some((entry_hash, entry_type)),
            Header::UpdateEntry { entry_hash, entry_type, .. } => Some((entry_hash, entry_type)),
            _ => None,
        }
    }

    /// Whether this is the chain's root record.
    pub fn is_root(&self) -> (r: bool)
        ensures
            r == self.spec_is_root(),
    {
        matches!(self, Header::ChainRoot { .. })
    }

    /// Borrow the author.
    pub fn author(&self) -> (r: &HoloHash)
        ensures
            *r == self.spec_author(),
    {
        match self {
            Header::ChainRoot { author, .. } => author,
            Header::NewEntry { author, .. } => author,
            Header::UpdateEntry { author, .. } => author,
            Header::RemoveEntry { author, .. } => author,
            Header::LinkAdd { author, .. } => author,
            Header::LinkRemove { author, .. } => author,
            Header::SystemEvent { author, .. } => author,
        }
    }

    /// The record's chain time.
    pub fn timestamp(&self) -> (r: Timestamp)
        ensures
            r == self.spec_timestamp(),
    {
        match self {
            Header::ChainRoot { timestamp, .. } => *timestamp,
            Header::NewEntry { timestamp, .. } => *timestamp,
            Header::UpdateEntry { timestamp, .. } => *timestamp,
            Header::RemoveEntry { timestamp, .. } => *timestamp,
            Header::LinkAdd { timestamp, .. } => *timestamp,
            Header::LinkRemove { timestamp, .. } => *timestamp,
            Header::SystemEvent { timestamp, .. } => *timestamp,
        }
    }

    /// The record's chain position.
    pub fn header_seq(&self) -> (r: u32)
        ensures
            r == self.spec_header_seq(),
    {
        match self {
            Header::ChainRoot { .. } => 0,
            Header::NewEntry { header_seq, .. } => *header_seq,
            Header::UpdateEntry { header_seq, .. } => *header_seq,
            Header::RemoveEntry { header_seq, .. } => *header_seq,
            Header::LinkAdd { header_seq, .. } => *header_seq,
            Header::LinkRemove { header_seq, .. } => *header_seq,
            Header::SystemEvent { header_seq, .. } => *header_seq,
        }
    }

    /// The entry data this header declares, if its variant commits new
    /// content.
    pub fn entry_data(&self) -> (r: Option<(&HoloHash, EntryType)>)
        ensures
            r is Some <==> self.spec_entry_data() is Some,
            r matches Some((h, t)) ==> self.spec_entry_data() matches Some(d) && *h == d.0 && t
                == d.1,
    {
        match self {
            Header::NewEntry { entry_hash, entry_type, .. } => Some((entry_hash, *entry_type)),
            Header::UpdateEntry { entry_hash, entry_type, .. } => Some((entry_hash, *entry_type)),
            _ => None,
        }
    }
}

/// The serialized form of a timestamp: the seconds, then the nanoseconds.
pub open spec fn spec_timestamp_bytes(t: Timestamp) -> Seq<u8> {
    spec_i64_sm(t.secs) + spec_u32_be(t.nanos)
}

/// The serialized form of an entry-type tag.
pub open spec fn spec_entry_type_byte(t: EntryType) -> u8 {
    match t {
        EntryType::Agent => 0u8,
        EntryType::App => 1u8,
        EntryType::CapClaim => 2u8,
        EntryType::CapGrant => 3u8,
    }
}

/// The deterministic serialization of a header: one variant byte, the common
/// fields, then the variant's own fields in declaration order.
pub open spec fn spec_serialize_header(h: Header) -> Seq<u8> {
    match h {
        Header::ChainRoot { author, timestamp } => seq![0u8] + spec_hash_bytes(author@)
            + spec_timestamp_bytes(timestamp),
        Header::NewEntry { author, timestamp, header_seq, prev_header, entry_type, entry_hash } =>seq![1u8]
            + spec_hash_bytes(author@) + spec_timestamp_bytes(timestamp) + spec_u32_be(header_seq)
            + spec_hash_bytes(prev_header@) + seq![spec_entry_type_byte(entry_type)]
            + spec_hash_bytes(entry_hash@),
        Header::UpdateEntry {
            author,
            timestamp,
            header_seq,
            prev_header,
            replaces_address,
            entry_type,
            entry_hash,
        } => seq![2u8] + spec_hash_bytes(author@) + spec_timestamp_bytes(timestamp) + spec_u32_be(
            header_seq,
        ) + spec_hash_bytes(prev_header@) + spec_hash_bytes(replaces_address@)
            + seq![spec_entry_type_byte(entry_type)] + spec_hash_bytes(entry_hash@),
        Header::RemoveEntry { author, timestamp, header_seq, prev_header, removes_address } => seq![3u8]
            + spec_hash_bytes(author@) + spec_timestamp_bytes(timestamp) + spec_u32_be(header_seq)
            + spec_hash_bytes(prev_header@) + spec_hash_bytes(removes_address@),
        Header::LinkAdd {
            author,
            timestamp,
            header_seq,
            prev_header,
            base_address,
            target_address,
        } => seq![4u8] + spec_hash_bytes(author@) + spec_timestamp_bytes(timestamp) + spec_u32_be(
            header_seq,
        ) + spec_hash_bytes(prev_header@) + spec_hash_bytes(base_address@) + spec_hash_bytes(
            target_address@,
        ),
        Header::LinkRemove { author, timestamp, header_seq, prev_header, link_add_address } => seq![5u8]
            + spec_hash_bytes(author@) + spec_timestamp_bytes(timestamp) + spec_u32_be(header_seq)
            + spec_hash_bytes(prev_header@) + spec_hash_bytes(link_add_address@),
        Header::SystemEvent { author, timestamp, header_seq, prev_header } => seq![6u8]
            + spec_hash_bytes(author@) + spec_timestamp_bytes(timestamp) + spec_u32_be(header_seq)
            + spec_hash_bytes(prev_header@),
    }
}

/// Append a hash's serialized form to `out`.
fn push_hash(out: &mut Vec<u8>, h: &HoloHash)
    ensures
        final(out)@ == old(out)@ + spec_hash_bytes(h@),
{
    let mut b = h.to_bytes();
    out.append(&mut b);
}

/// Append a timestamp's serialized form to `out`.
fn push_timestamp(out: &mut Vec<u8>, t: &Timestamp)
    ensures
        final(out)@ == old(out)@ + spec_timestamp_bytes(*t),
{
    let mut s = i64_to_sm_bytes(t.secs);
    out.append(&mut s);
    let mut n = u32_to_be_bytes(t.nanos);
    out.append(&mut n);
    proof {
        assert(out@ =~= old(out)@ + spec_timestamp_bytes(*t));
    }
}

/// Append a `u32`'s big-endian form to `out`.
fn push_u32(out: &mut Vec<u8>, x: u32)
    ensures
        final(out)@ == old(out)@ + spec_u32_be(x),
{
    let mut s = u32_to_be_bytes(x);
    out.append(&mut s);
}

/// Serialize a header deterministically, for signing and for addressing.
pub fn serialize_header(h: &Header) -> (r: Vec<u8>)
    ensures
        r@ == spec_serialize_header(*h),
{
    let mut out: Vec<u8> = Vec::new();
    match h {
        Header::ChainRoot { author, timestamp } => {
            out.push(0u8);
            push_hash(&mut out, author);
            push_timestamp(&mut out, timestamp);
        },
        Header::NewEntry { author, timestamp, header_seq, prev_header, entry_type, entry_hash } => {
            out.push(1u8);
            push_hash(&mut out, author);
            push_timestamp(&mut out, timestamp);
            push_u32(&mut out, *header_seq);
            push_hash(&mut out, prev_header);
            out.push(entry_type_byte(entry_type));
            push_hash(&mut out, entry_hash);
        },
        Header::UpdateEntry {
            author,
            timestamp,
            header_seq,
            prev_header,
            replaces_address,
            entry_type,
            entry_hash,
        } => {
            out.push(2u8);
            push_hash(&mut out, author);
            push_timestamp(&mut out, timestamp);
            push_u32(&mut out, *header_seq);
            push_hash(&mut out, prev_header);
            push_hash(&mut out, replaces_address);
            out.push(entry_type_byte(entry_type));
            push_hash(&mut out, entry_hash);
        },
        Header::RemoveEntry { author, timestamp, header_seq, prev_header, removes_address } => {
            out.push(3u8);
            push_hash(&mut out, author);
            push_timestamp(&mut out, timestamp);
            push_u32(&mut out, *header_seq);
            push_hash(&mut out, prev_header);
            push_hash(&mut out, removes_address);
        },
        Header::LinkAdd {
            author,
            timestamp,
            header_seq,
            prev_header,
            base_address,
            target_address,
        } => {
            out.push(4u8);
            push_hash(&mut out, author);
            push_timestamp(&mut out, timestamp);
            push_u32(&mut out, *header_seq);
            push_hash(&mut out, prev_header);
            push_hash(&mut out, base_address);
            push_hash(&mut out, target_address);
        },
        Header::LinkRemove { author, timestamp, header_seq, prev_header, link_add_address } => {
            out.push(5u8);
            push_hash(&mut out, author);
            push_timestamp(&mut out, timestamp);
            push_u32(&mut out, *header_seq);
            push_hash(&mut out, prev_header);
            push_hash(&mut out, link_add_address);
        },
        Header::SystemEvent { author, timestamp, header_seq, prev_header } => {
            out.push(6u8);
            push_hash(&mut out, author);
            push_timestamp(&mut out, timestamp);
            push_u32(&mut out, *header_seq);
            push_hash(&mut out, prev_header);
        },
    }
    proof {
        assert(out@ =~= spec_serialize_header(*h));
    }
    out
}

/// The serialized form of an entry-type tag.
fn entry_type_byte(t: &EntryType) -> (r: u8)
    ensures
        r == spec_entry_type_byte(*t),
{
    match t {
        EntryType::Agent => 0u8,
        EntryType::App => 1u8,
        EntryType::CapClaim => 2u8,
        EntryType::CapGrant => 3u8,
    }
}

} // verus!
