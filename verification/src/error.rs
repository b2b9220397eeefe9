//! The flat error taxonomy of the validation engine.
//!
//! Errors carry the expected and actual values where diagnosis needs them;
//! none is ever retried at this layer.

use vstd::prelude::*;

verus! {

/// Why a candidate header's relation to the chain's previous record is
/// rejected.
#[derive(Clone, Copy, Debug, PartialEq, Eq, Structural)]
pub enum PrevHeaderError {
    /// A non-root header claimed chain position 0.
    InvalidRoot,
    /// The candidate's timestamp is strictly earlier than its predecessor's.
    Timestamp,
    /// The candidate's sequence number is not predecessor + 1;
    /// carries (expected, actual).
    InvalidSeq(u32, u32),
}

/// The first invariant a candidate record violates, or the reason it can
/// never satisfy one.
#[derive(Clone, Copy, Debug, PartialEq, Eq, Structural)]
pub enum SysValidationError {
    /// The signature does not verify against the claimed author.
    VerifySignature,
    /// The record's link to its predecessor is broken.
    PrevHeaderError(PrevHeaderError),
    /// The entry's runtime variant does not match the entry-type tag the
    /// header declares.
    EntryType,
    /// The recomputed content hash differs from the hash the header commits
    /// to.
    EntryHash,
    /// The record carries content although its header variant cannot declare
    /// any.
    NotNewEntry,
    /// The entry payload exceeds the size bound; carries (actual, maximum).
    EntryTooLarge(usize, usize),
}

} // verus!
