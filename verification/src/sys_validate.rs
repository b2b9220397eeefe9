//! The validation engine.
//!
//! A candidate record is checked before admission: its signature always;
//! its linkage, sequence and timestamp against the caller-supplied
//! predecessor when one is given; and, when it carries content, the
//! entry-type tag, the content-hash commitment and the size bound. The
//! pipeline is pure and fail-fast: the first violated invariant is the
//! result, and identical inputs always give identical results.

use vstd::prelude::*;

use crate::element::Element;
use crate::element::Signature;
use crate::entry::{hash_entry, spec_entry_hash, spec_entry_size, spec_entry_type, Entry, EntryType};
use crate::error::{PrevHeaderError, SysValidationError};
use crate::hash::{hash_eq, HoloHash};
use crate::header::{serialize_header, spec_serialize_header, Header};
use crate::keystore::Keystore;

verus! {

/// Entry payloads must stay strictly below this many bytes.
pub const MAX_ENTRY_SIZE: usize = 16_000_000;

/// Root/non-root linkage: the root always passes; any other header must sit
/// at a chain position above 0.
pub open spec fn spec_check_prev_header(h: Header) -> Result<(), SysValidationError> {
    if h.spec_is_root() || h.spec_header_seq() > 0 {
        Ok(())
    } else {
        Err(SysValidationError::PrevHeaderError(PrevHeaderError::InvalidRoot))
    }
}

/// The chain position a successor of a record at `s` is expected to claim,
/// saturated at the top of `u32`.
pub open spec fn spec_next_seq(s: u32) -> u32 {
    if s == 0xffff_ffffu32 {
        s
    } else {
        (s + 1) as u32
    }
}

/// Sequence continuity: the candidate must sit exactly one position after
/// its predecessor.
pub open spec fn spec_check_prev_seq(h: Header, p: Header) -> Result<(), SysValidationError> {
    if h.spec_header_seq() == p.spec_header_seq() + 1 {
        Ok(())
    } else {
        Err(
            SysValidationError::PrevHeaderError(
                PrevHeaderError::InvalidSeq(spec_next_seq(p.spec_header_seq()), h.spec_header_seq()),
            ),
        )
    }
}

/// Chain time: the candidate must not be stamped strictly earlier than its
/// predecessor; equal stamps pass.
pub open spec fn spec_check_prev_timestamp(h: Header, p: Header) -> Result<
    (),
    SysValidationError,
> {
    if p.spec_timestamp().spec_le(h.spec_timestamp()) {
        Ok(())
    } else {
        Err(SysValidationError::PrevHeaderError(PrevHeaderError::Timestamp))
    }
}

/// Applicability: only a header whose variant commits new content may pair
/// with an entry.
pub open spec fn spec_check_new_entry_header(h: Header) -> Result<(), SysValidationError> {
    if h.spec_entry_data() is Some {
        Ok(())
    } else {
        Err(SysValidationError::NotNewEntry)
    }
}

/// Type-tag match: the entry's runtime variant must be the one the header
/// declares.
pub open spec fn spec_check_entry_type(et: EntryType, e: Entry) -> Result<(), SysValidationError> {
    if spec_entry_type(e) == et {
        Ok(())
    } else {
        Err(SysValidationError::EntryType)
    }
}

/// Hash commitment: the recorded content address must equal the entry's
/// recomputed one, kind and bytes alike.
pub open spec fn spec_check_entry_hash(h: HoloHash, e: Entry) -> Result<(), SysValidationError> {
    if h@ == spec_entry_hash(e) {
        Ok(())
    } else {
        Err(SysValidationError::EntryHash)
    }
}

/// Size bound: the payload must stay strictly below [`MAX_ENTRY_SIZE`].
pub open spec fn spec_check_entry_size(e: Entry) -> Result<(), SysValidationError> {
    if spec_entry_size(e) < MAX_ENTRY_SIZE {
        Ok(())
    } else {
        Err(SysValidationError::EntryTooLarge(spec_entry_size(e) as usize, MAX_ENTRY_SIZE))
    }
}

/// The predecessor phase: linkage, then sequence, then timestamp; the first
/// failure is the result.
pub open spec fn spec_validate_prev(h: Header, p: Header) -> Result<(), SysValidationError> {
    match spec_check_prev_header(h) {
        Err(e) => Err(e),
        Ok(()) => match spec_check_prev_seq(h, p) {
            Err(e) => Err(e),
            Ok(()) => spec_check_prev_timestamp(h, p),
        },
    }
}

/// The content phase: applicability, then type tag, then hash commitment,
/// then size; the first failure is the result.
pub open spec fn spec_validate_entry(h: Header, e: Entry) -> Result<(), SysValidationError> {
    match h.spec_entry_data() {
        None => Err(SysValidationError::NotNewEntry),
        Some(d) => match spec_check_entry_type(d.1, e) {
            Err(err) => Err(err),
            Ok(()) => match spec_check_entry_hash(d.0, e) {
                Err(err) => Err(err),
                Ok(()) => spec_check_entry_size(e),
            },
        },
    }
}

/// Mapping a keystore verdict to the signature check's result.
pub open spec fn spec_verify_result(sig_ok: bool) -> Result<(), SysValidationError> {
    if sig_ok {
        Ok(())
    } else {
        Err(SysValidationError::VerifySignature)
    }
}

/// The whole pipeline: the signature always; the predecessor phase when a
/// predecessor is supplied; the content phase when the record carries an
/// entry. `sig_ok` is the keystore's verdict on the record's signature.
pub open spec fn spec_sys_validate(sig_ok: bool, el: Element, prev: Option<Element>) -> Result<
    (),
    SysValidationError,
> {
    if !sig_ok {
        Err(SysValidationError::VerifySignature)
    } else {
        match (prev, el.entry) {
            (Some(p), _) => match spec_validate_prev(el.header, p.header) {
                Err(e) => Err(e),
                Ok(()) => match el.entry {
                    Some(e) => spec_validate_entry(el.header, e),
                    None => Ok(()),
                },
            },
            (None, Some(e)) => spec_validate_entry(el.header, e),
            (None, None) => Ok(()),
        }
    }
}

/// The value of an `Option<&Element>` argument.
pub open spec fn spec_prev_of(p: Option<&Element>) -> Option<Element> {
    match p {
        Some(e) => Some(*e),
        None => None,
    }
}

/// Validate root/non-root linkage of a candidate header.
pub fn check_prev_header(header: &Header) -> (r: Result<(), SysValidationError>)
    ensures
        r == spec_check_prev_header(*header),
{
    if header.is_root() || header.header_seq() > 0 {
        Ok(())
    } else {
        Err(SysValidationError::PrevHeaderError(PrevHeaderError::InvalidRoot))
    }
}

/// Validate sequence continuity of a candidate header against the real,
/// already-admitted predecessor.
pub fn check_prev_seq(header: &Header, prev_header: &Header) -> (r: Result<
    (),
    SysValidationError,
>)
    ensures
        r == spec_check_prev_seq(*header, *prev_header),
{
    let seq = header.header_seq();
    let prev_seq = prev_header.header_seq();
    if prev_seq < u32::MAX && seq == prev_seq + 1 {
        Ok(())
    } else {
        let expected = if prev_seq == u32::MAX {
            u32::MAX
        } else {
            prev_seq + 1
        };
        Err(SysValidationError::PrevHeaderError(PrevHeaderError::InvalidSeq(expected, seq)))
    }
}

/// Validate non-decreasing chain time of a candidate header against its
/// predecessor.
pub fn check_prev_timestamp(header: &Header, prev_header: &Header) -> (r: Result<
    (),
    SysValidationError,
>)
    ensures
        r == spec_check_prev_timestamp(*header, *prev_header),
{
    let ts = header.timestamp();
    let prev_ts = prev_header.timestamp();
    if prev_ts.le(&ts) {
        Ok(())
    } else {
        Err(SysValidationError::PrevHeaderError(PrevHeaderError::Timestamp))
    }
}

/// Check that a header's variant is one permitted to carry new content.
pub fn check_new_entry_header(header: &Header) -> (r: Result<(), SysValidationError>)
    ensures
        r == spec_check_new_entry_header(*header),
{
    match header.entry_data() {
        Some(_) => Ok(()),
        None => Err(SysValidationError::NotNewEntry),
    }
}

/// Check that an entry's runtime variant matches the declared entry-type
/// tag.
pub fn check_entry_type(entry_type: &EntryType, entry: &Entry) -> (r: Result<
    (),
    SysValidationError,
>)
    ensures
        r == spec_check_entry_type(*entry_type, *entry),
{
    if entry.entry_type() == *entry_type {
        Ok(())
    } else {
        Err(SysValidationError::EntryType)
    }
}

/// Recompute an entry's content address and compare it, kind and bytes
/// alike, against the address the header commits to.
pub fn check_entry_hash(hash: &HoloHash, entry: &Entry) -> (r: Result<(), SysValidationError>)
    ensures
        r == spec_check_entry_hash(*hash, *entry),
{
    let computed = hash_entry(entry);
    if hash_eq(hash, &computed) {
        Ok(())
    } else {
        Err(SysValidationError::EntryHash)
    }
}

/// Check an entry's payload size against the fixed bound.
pub fn check_entry_size(entry: &Entry) -> (r: Result<(), SysValidationError>)
    ensures
        r == spec_check_entry_size(*entry),
{
    let size = entry.size();
    if size < MAX_ENTRY_SIZE {
        Ok(())
    } else {
        Err(SysValidationError::EntryTooLarge(size, MAX_ENTRY_SIZE))
    }
}

/// Verify a signature over a header's deterministic serialization against
/// the author the header claims, delegating the verdict to the keystore.
pub fn verify_header_signature<K: Keystore>(signature: &Signature, header: &Header, keystore: &K) -> (r:
    Result<(), SysValidationError>)
    ensures
        r == spec_verify_result(
            keystore.spec_verify(
                signature@,
                spec_serialize_header(*header),
                header.spec_author()@,
            ),
        ),
{
    let bytes = serialize_header(header);
    if keystore.verify(signature, bytes.as_slice(), header.author()) {
        Ok(())
    } else {
        Err(SysValidationError::VerifySignature)
    }
}

/// Validate one candidate record against its author and its caller-supplied
/// predecessor, if any: the one entry point of the engine.
///
/// The record's signature is verified against `author` over the header's
/// deterministic serialization; the keystore supplies the verdict. The
/// result is exactly [`spec_sys_validate`] on that verdict.
pub fn sys_validate_element<K: Keystore>(
    author: &HoloHash,
    element: &Element,
    prev_element: Option<&Element>,
    keystore: &K,
) -> (r: Result<(), SysValidationError>)
    ensures
        r == spec_sys_validate(
            keystore.spec_verify(
                element.signature@,
                spec_serialize_header(element.header),
                (*author)@,
            ),
            *element,
            spec_prev_of(prev_element),
        ),
{
    let bytes = serialize_header(&element.header);
    if !keystore.verify(&element.signature, bytes.as_slice(), author) {
        return Err(SysValidationError::VerifySignature);
    }
    match prev_element {
        Some(prev) => {
            match check_prev_header(&element.header) {
                Err(e) => {
                    return Err(e);
                },
                Ok(()) => {},
            }
            match check_prev_seq(&element.header, &prev.header) {
                Err(e) => {
                    return Err(e);
                },
                Ok(()) => {},
            }
            match check_prev_timestamp(&element.header, &prev.header) {
                Err(e) => {
                    return Err(e);
                },
                Ok(()) => {},
            }
        },
        None => {},
    }
    match &element.entry {
        Some(entry) => {
            match element.header.entry_data() {
                Some((entry_hash, entry_type)) => {
                    match check_entry_type(&entry_type, entry) {
                        Err(e) => {
                            return Err(e);
                        },
                        Ok(()) => {},
                    }
                    match check_entry_hash(entry_hash, entry) {
                        Err(e) => {
                            return Err(e);
                        },
                        Ok(()) => {},
                    }
                    match check_entry_size(entry) {
                        Err(e) => {
                            return Err(e);
                        },
                        Ok(()) => {},
                    }
                },
                None => {
                    return Err(SysValidationError::NotNewEntry);
                },
            }
        },
        None => {},
    }
    Ok(())
}

} // verus!
