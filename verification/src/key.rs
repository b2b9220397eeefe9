//! Keys for the store collaborators.
//!
//! The persistence layer is external to the engine, but the key types it is
//! handed are plain values with exact byte encodings, so they are defined
//! and verified here: a key round-trips through its byte form.

use vstd::prelude::*;

use crate::codec::{lemma_u32_be_roundtrip, spec_u32_be, spec_u32_from_be, u32_from_be_bytes, u32_to_be_bytes};
use vstd::std_specs::convert::FromSpec;

verus! {

broadcast use vstd::array::group_array_axioms;

/// Any key type of a store: a value with an exact byte form it can be
/// written out to and read back from.
pub trait BufKey: Sized {
    /// The bytes this key is stored under.
    spec fn spec_key_bytes(self) -> Seq<u8>;

    /// The byte strings that are the stored form of some key.
    spec fn spec_key_bytes_ok(bytes: Seq<u8>) -> bool;

    /// Convert to the key bytes.
    fn to_key_bytes(self) -> (r: Vec<u8>)
        ensures
            r@ == self.spec_key_bytes(),
            Self::spec_key_bytes_ok(r@),
    ;

    /// The inverse of `to_key_bytes`. Only byte strings produced by
    /// `to_key_bytes` may be handed back.
    fn from_key_bytes_fallible(v: Vec<u8>) -> (r: Self)
        requires
            Self::spec_key_bytes_ok(v@),
        ensures
            r.spec_key_bytes() == v@,
    ;
}

/// A key for integer-keyed stores: four big-endian bytes of a `u32`.
#[derive(Clone, Copy, Debug, PartialEq, Eq, PartialOrd, Ord, Hash)]
pub struct IntKey(pub [u8; 4]);

impl BufKey for IntKey {
    open spec fn spec_key_bytes(self) -> Seq<u8> {
        self.0@
    }

    open spec fn spec_key_bytes_ok(bytes: Seq<u8>) -> bool {
        bytes.len() == 4
    }

    fn to_key_bytes(self) -> (r: Vec<u8>) {
        let mut v: Vec<u8> = Vec::new();
        v.push(self.0[0]);
        v.push(self.0[1]);
        v.push(self.0[2]);
        v.push(self.0[3]);
        proof {
            assert(v@ =~= self.0@);
        }
        v
    }

    fn from_key_bytes_fallible(v: Vec<u8>) -> (r: Self) {
        let a: [u8; 4] = [v[0], v[1], v[2], v[3]];
        proof {
            assert(a@ =~= v@);
        }
        IntKey(a)
    }
}

impl IntKey {
    /// The `u32` this key stands for.
    pub open spec fn spec_value(self) -> u32 {
        spec_u32_from_be(self.0@)
    }

    /// A `u32` key's bytes decode back to the value it was built from.
    pub proof fn lemma_from_u32_roundtrip(u: u32)
        ensures
            Self::from_spec(u).spec_value() == u,
    {
        lemma_u32_be_roundtrip(u);
        assert(Self::from_spec(u).0@ =~= spec_u32_be(u));
    }
}

impl core::convert::From<u32> for IntKey {
    /// Build the key whose bytes are the big-endian form of `u`.
    fn from(u: u32) -> (r: IntKey) {
        let bytes = u32_to_be_bytes(u);
        let a: [u8; 4] = [bytes[0], bytes[1], bytes[2], bytes[3]];
        proof {
            assert(a@ =~= spec_u32_be(u));
            assert(a =~= [
                ((u >> 24) & 0xff) as u8,
                ((u >> 16) & 0xff) as u8,
                ((u >> 8) & 0xff) as u8,
                (u & 0xff) as u8,
            ]);
        }
        IntKey(a)
    }
}

impl vstd::std_specs::convert::FromSpecImpl<u32> for IntKey {
    open spec fn obeys_from_spec() -> bool {
        true
    }

    open spec fn from_spec(u: u32) -> IntKey {
        IntKey(
            [
                ((u >> 24) & 0xff) as u8,
                ((u >> 16) & 0xff) as u8,
                ((u >> 8) & 0xff) as u8,
                (u & 0xff) as u8,
            ],
        )
    }
}

impl core::convert::From<IntKey> for u32 {
    /// Read the big-endian value the key's bytes spell.
    fn from(k: IntKey) -> (r: u32) {
        let bytes = k.to_key_bytes();
        u32_from_be_bytes(bytes.as_slice())
    }
}

impl vstd::std_specs::convert::FromSpecImpl<IntKey> for u32 {
    open spec fn obeys_from_spec() -> bool {
        true
    }

    open spec fn from_spec(k: IntKey) -> u32 {
        k.spec_value()
    }
}

/// The key type for stores that hold exactly one value: every `UnitDbKey`
/// is stored under the same single byte.
#[derive(Clone, Copy, Debug, PartialEq, Eq, PartialOrd, Ord, Hash)]
pub struct UnitDbKey;

impl BufKey for UnitDbKey {
    open spec fn spec_key_bytes(self) -> Seq<u8> {
        seq![0u8]
    }

    open spec fn spec_key_bytes_ok(bytes: Seq<u8>) -> bool {
        bytes == seq![0u8]
    }

    fn to_key_bytes(self) -> (r: Vec<u8>) {
        let mut v: Vec<u8> = Vec::new();
        v.push(0u8);
        proof {
            assert(v@ =~= seq![0u8]);
        }
        v
    }

    fn from_key_bytes_fallible(v: Vec<u8>) -> (r: Self) {
        UnitDbKey
    }
}

impl core::convert::From<()> for UnitDbKey {
    /// The one key there is.
    fn from(u: ()) -> (r: UnitDbKey) {
        UnitDbKey
    }
}

impl vstd::std_specs::convert::FromSpecImpl<()> for UnitDbKey {
    open spec fn obeys_from_spec() -> bool {
        true
    }

    open spec fn from_spec(u: ()) -> UnitDbKey {
        UnitDbKey
    }
}

} // verus!
