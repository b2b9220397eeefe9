//! Content addresses.
//!
//! Every address this engine handles is a 32-byte BLAKE2b digest, tagged with
//! the kind of value it addresses. The kinds live in one sum type so that a
//! hash of one kind can never be taken for a hash of another.
//!
//! The digest itself is computed by the external hash codec; the engine only
//! recomputes and compares.

use vstd::prelude::*;

verus! {

/// Number of bytes in every digest this engine handles.
pub const HASH_SIZE: usize = 32;

/// The BLAKE2b digest of `data` with an output of `len` bytes.
///
/// The digest is named, not written out: the engine relies only on it being
/// a function of `len` and `data`.
pub uninterp spec fn blake2b_of(len: usize, data: Seq<u8>) -> Seq<u8>;

/// Relies on `blake2b_simd::Params` / `State`: the finalized digest is a
/// function of the configured output length and the input bytes alone, and
/// `as_bytes` returns exactly `hash_length` bytes. `hash_length` accepts
/// lengths from 1 to 64.
#[verifier::external_body]
pub(crate) fn blake2b_digest(len: usize, data: &[u8]) -> (r: Vec<u8>)
    requires
        1 <= len <= 64,
    ensures
        r@ == blake2b_of(len, data@),
        r@.len() == len,
{
    blake2b_simd::Params::new().hash_length(len).to_state().update(data).finalize().as_bytes().to_vec()
}

/// The 32-byte BLAKE2b digest of `data`.
pub fn blake2b_32(data: &[u8]) -> (r: Vec<u8>)
    ensures
        r@ == blake2b_of(32, data@),
        r@.len() == 32,
{
    blake2b_digest(32, data)
}

/// A typed content address: the raw digest bytes, tagged with what they
/// address.
#[derive(Clone, Debug)]
pub enum HoloHash {
    /// An agent's public key, used as the agent's identity address.
    Agent(Vec<u8>),
    /// The content address of an entry.
    Entry(Vec<u8>),
    /// The address of a header.
    Header(Vec<u8>),
}

/// The mathematical value of a [`HoloHash`]: the kind tag with the digest
/// bytes.
pub enum HashRepr {
    /// See [`HoloHash::Agent`].
    Agent(Seq<u8>),
    /// See [`HoloHash::Entry`].
    Entry(Seq<u8>),
    /// See [`HoloHash::Header`].
    Header(Seq<u8>),
}

impl View for HoloHash {
    type V = HashRepr;

    open spec fn view(&self) -> HashRepr {
        match self {
            HoloHash::Agent(b) => HashRepr::Agent(b@),
            HoloHash::Entry(b) => HashRepr::Entry(b@),
            HoloHash::Header(b) => HashRepr::Header(b@),
        }
    }
}

/// The raw digest bytes under a [`HashRepr`], kind stripped.
pub open spec fn spec_raw_bytes(h: HashRepr) -> Seq<u8> {
    match h {
        HashRepr::Agent(b) => b,
        HashRepr::Entry(b) => b,
        HashRepr::Header(b) => b,
    }
}

/// The serialized form of a hash: one kind byte, then the digest bytes.
pub open spec fn spec_hash_bytes(h: HashRepr) -> Seq<u8> {
    match h {
        HashRepr::Agent(b) => seq![0u8] + b,
        HashRepr::Entry(b) => seq![1u8] + b,
        HashRepr::Header(b) => seq![2u8] + b,
    }
}

impl HoloHash {
    /// A well-formed address carries a full-size digest.
    pub open spec fn wf(self) -> bool {
        spec_raw_bytes(self@).len() == HASH_SIZE
    }

    /// Borrow the raw digest bytes, kind stripped.
    pub fn raw_bytes(&self) -> (r: &Vec<u8>)
        ensures
            r@ == spec_raw_bytes(self@),
    {
        match self {
            HoloHash::Agent(b) => b,
            HoloHash::Entry(b) => b,
            HoloHash::Header(b) => b,
        }
    }

    /// Serialize the address: one kind byte, then the digest bytes.
    pub fn to_bytes(&self) -> (r: Vec<u8>)
        ensures
            r@ == spec_hash_bytes(self@),
    {
        let mut out: Vec<u8> = Vec::new();
        match self {
            HoloHash::Agent(b) => {
                out.push(0u8);
                out.extend_from_slice(b.as_slice());
            },
            HoloHash::Entry(b) => {
                out.push(1u8);
                out.extend_from_slice(b.as_slice());
            },
            HoloHash::Header(b) => {
                out.push(2u8);
                out.extend_from_slice(b.as_slice());
            },
        }
        proof {
            assert(out@ =~= spec_hash_bytes(self@));
        }
        out
    }
}

/// Compare two byte strings for equality.
pub fn bytes_eq(a: &[u8], b: &[u8]) -> (r: bool)
    ensures
        r == (a@ == b@),
{
    if a.len() != b.len() {
        return false;
    }
    let n = a.len();
    let mut i: usize = 0;
    while i < n
        invariant
            n == a@.len(),
            a@.len() == b@.len(),
            i <= n,
            forall|j: int| 0 <= j < i ==> a@[j] == b@[j],
        decreases n - i,
    {
        if a[i] != b[i] {
            return false;
        }
        i = i + 1;
    }
    proof {
        assert(a@ =~= b@);
    }
    true
}

/// Compare two addresses: equal when both the kind and the digest bytes
/// agree.
pub fn hash_eq(a: &HoloHash, b: &HoloHash) -> (r: bool)
    ensures
        r == (a@ == b@),
{
    match (a, b) {
        (HoloHash::Agent(x), HoloHash::Agent(y)) => bytes_eq(x.as_slice(), y.as_slice()),
        (HoloHash::Entry(x), HoloHash::Entry(y)) => bytes_eq(x.as_slice(), y.as_slice()),
        (HoloHash::Header(x), HoloHash::Header(y)) => bytes_eq(x.as_slice(), y.as_slice()),
        _ => false,
    }
}

} // verus!
