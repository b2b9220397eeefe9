//! The engine's laws: what the checks guarantee, proved once and for all.

use vstd::prelude::*;

use crate::element::Element;
use crate::entry::{spec_entry_hash, spec_entry_size, spec_entry_type, Entry, EntryType};
use crate::error::{PrevHeaderError, SysValidationError};
use crate::hash::{HashRepr, HoloHash};
use crate::header::{spec_serialize_header, Header};
use crate::keystore::Keystore;
use crate::sys_validate::{
    spec_check_entry_hash, spec_check_entry_type, spec_check_prev_header,
    spec_check_prev_seq, spec_check_prev_timestamp, spec_sys_validate, MAX_ENTRY_SIZE,
};

verus! {

/// A non-root header claiming chain position 0 is rejected as `InvalidRoot`;
/// the root itself, and any non-root header above position 0, passes the
/// linkage check.
pub proof fn lemma_invalid_root(h: Header)
    ensures
        !h.spec_is_root() && h.spec_header_seq() == 0 ==> spec_check_prev_header(h) == Err::<
            (),
            SysValidationError,
        >(SysValidationError::PrevHeaderError(PrevHeaderError::InvalidRoot)),
        h.spec_is_root() || h.spec_header_seq() > 0 ==> spec_check_prev_header(h) == Ok::<
            (),
            SysValidationError,
        >(()),
{
}

/// Whenever the candidate's sequence number is not exactly its
/// predecessor's plus one, the sequence check rejects with
/// `InvalidSeq(expected, actual)` carrying both values; the exact successor
/// passes. (A predecessor already at the top of `u32` has no admissible
/// successor, and the reported expected value saturates there.)
pub proof fn lemma_invalid_seq(h: Header, p: Header)
    requires
        p.spec_header_seq() < u32::MAX,
    ensures
        h.spec_header_seq() != p.spec_header_seq() + 1 ==> spec_check_prev_seq(h, p) == Err::<
            (),
            SysValidationError,
        >(
            SysValidationError::PrevHeaderError(
                PrevHeaderError::InvalidSeq(
                    (p.spec_header_seq() + 1) as u32,
                    h.spec_header_seq(),
                ),
            ),
        ),
        h.spec_header_seq() == p.spec_header_seq() + 1 ==> spec_check_prev_seq(h, p) == Ok::<
            (),
            SysValidationError,
        >(()),
{
}

/// A candidate stamped strictly earlier than its predecessor is rejected
/// with the `Timestamp` error; equal or later stamps pass.
pub proof fn lemma_timestamp_order(h: Header, p: Header)
    ensures
        !p.spec_timestamp().spec_le(h.spec_timestamp()) ==> spec_check_prev_timestamp(h, p)
            == Err::<(), SysValidationError>(
            SysValidationError::PrevHeaderError(PrevHeaderError::Timestamp),
        ),
        h.spec_timestamp() == p.spec_timestamp() ==> spec_check_prev_timestamp(h, p) == Ok::<
            (),
            SysValidationError,
        >(()),
{
}

/// A header committing to exactly the entry's recomputed content address
/// passes the hash check; a commitment to any other address is rejected as
/// `EntryHash`.
pub proof fn lemma_entry_hash_commitment(h: HoloHash, e: Entry)
    ensures
        h@ == spec_entry_hash(e) ==> spec_check_entry_hash(h, e) == Ok::<
            (),
            SysValidationError,
        >(()),
        h@ != spec_entry_hash(e) ==> spec_check_entry_hash(h, e) == Err::<
            (),
            SysValidationError,
        >(SysValidationError::EntryHash),
{
}

/// Content whose runtime variant matches the declared entry-type tag passes
/// the type check; any other pairing is rejected as `EntryType`.
pub proof fn lemma_entry_type_match(et: EntryType, e: Entry)
    ensures
        spec_entry_type(e) == et ==> spec_check_entry_type(et, e) == Ok::<
            (),
            SysValidationError,
        >(()),
        spec_entry_type(e) != et ==> spec_check_entry_type(et, e) == Err::<
            (),
            SysValidationError,
        >(SysValidationError::EntryType),
{
}

/// The whole pipeline reports `VerifySignature` exactly when the keystore
/// rejects the record's signature: a failed verification is always a hard
/// rejection, and no other check can raise that error in its place.
pub proof fn lemma_signature_gate(sig_ok: bool, el: Element, prev: Option<Element>)
    ensures
        spec_sys_validate(sig_ok, el, prev) == Err::<(), SysValidationError>(
            SysValidationError::VerifySignature,
        ) <==> !sig_ok,
{
}

/// The record carries no entry, or its header declares entry data whose tag
/// matches the entry's variant, whose address is the entry's recomputed
/// content address, and whose payload is under the size bound.
pub open spec fn spec_entry_consistent(el: Element) -> bool {
    match el.entry {
        None => true,
        Some(e) => match el.header.spec_entry_data() {
            Some(d) => d.1 == spec_entry_type(e) && d.0@ == spec_entry_hash(e) && spec_entry_size(
                e,
            ) < MAX_ENTRY_SIZE,
            None => false,
        },
    }
}

/// `cur` sits exactly one chain position after `prev` and is not stamped
/// earlier than it.
pub open spec fn spec_chain_link(cur: Element, prev: Element) -> bool {
    &&& cur.header.spec_header_seq() == prev.header.spec_header_seq() + 1
    &&& prev.header.spec_timestamp().spec_le(cur.header.spec_timestamp())
}

/// One well-formed append is admitted: a record whose signature the
/// keystore accepts, which extends its predecessor by exactly one position
/// without going back in time, and whose content (if any) is consistent
/// with its header, validates.
pub proof fn lemma_valid_append_validates(sig_ok: bool, cur: Element, prev: Element)
    requires
        sig_ok,
        spec_chain_link(cur, prev),
        spec_entry_consistent(cur),
    ensures
        spec_sys_validate(sig_ok, cur, Some(prev)) == Ok::<(), SysValidationError>(()),
{
}

/// A chain built by sequential append validates throughout: when every
/// record's signature is accepted by the keystore, every record sits one
/// position after its predecessor without going back in time, and every
/// record's content is consistent with its header, then `validate` succeeds
/// for every non-root element against its predecessor.
pub proof fn lemma_sequential_chain_validates<K: Keystore>(
    ks: K,
    author: HashRepr,
    chain: Seq<Element>,
)
    requires
        forall|i: int|
            0 <= i < chain.len() ==> #[trigger] ks.spec_verify(
                chain[i].signature@,
                spec_serialize_header(chain[i].header),
                author,
            ),
        forall|i: int| 1 <= i < chain.len() ==> #[trigger] spec_chain_link(chain[i], chain[i - 1]),
        forall|i: int| 0 <= i < chain.len() ==> #[trigger] spec_entry_consistent(chain[i]),
    ensures
        forall|i: int|
            1 <= i < chain.len() ==> #[trigger] spec_sys_validate(
                ks.spec_verify(
                    chain[i].signature@,
                    spec_serialize_header(chain[i].header),
                    author,
                ),
                chain[i],
                Some(chain[i - 1]),
            ) == Ok::<(), SysValidationError>(()),
{
    assert forall|i: int| 1 <= i < chain.len() implies #[trigger] spec_sys_validate(
        ks.spec_verify(chain[i].signature@, spec_serialize_header(chain[i].header), author),
        chain[i],
        Some(chain[i - 1]),
    ) == Ok::<(), SysValidationError>(()) by {
        lemma_valid_append_validates(
            ks.spec_verify(chain[i].signature@, spec_serialize_header(chain[i].header), author),
            chain[i],
            chain[i - 1],
        );
    }
}

} // verus!
