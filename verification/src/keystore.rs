//! The keystore collaborator.
//!
//! Signing and verification belong to an external keystore; the engine only
//! asks it whether a signature verifies. The keystore is passed into the
//! validation entry points explicitly — never consulted as ambient state —
//! so each implementation says through [`Keystore::spec_verify`] what its
//! verdict means, and every contract downstream is stated over that meaning.

use vstd::prelude::*;

use crate::element::Signature;
use crate::hash::{blake2b_digest, blake2b_of, bytes_eq, HashRepr, HoloHash};

verus! {

/// A verifier of signatures against an author's public key.
pub trait Keystore {
    /// What this keystore's verdict means: whether `sig` is a valid
    /// signature by `author` over `data`.
    spec fn spec_verify(&self, sig: Seq<u8>, data: Seq<u8>, author: HashRepr) -> bool;

    /// Ask whether `signature` verifies against `author` over `data`.
    fn verify(&self, signature: &Signature, data: &[u8], author: &HoloHash) -> (r: bool)
        ensures
            r == self.spec_verify(signature@, data@, (*author)@),
    ;
}

/// The signature the test keystore expects: a 64-byte keyed digest of the
/// author's serialized key followed by the message.
pub open spec fn spec_test_signature(author: HashRepr, data: Seq<u8>) -> Seq<u8> {
    blake2b_of(64, crate::hash::spec_hash_bytes(author) + data)
}

/// A deterministic stand-in keystore for tests and demonstrations.
///
/// It "signs" by hashing the author's key together with the message into a
/// 64-byte digest, so signatures have the shape of real ones and
/// verification is reproducible without key material.
#[derive(Clone, Copy, Debug)]
pub struct TestKeystore;

impl TestKeystore {
    /// Produce the deterministic 64-byte signature for `author` over `data`.
    pub fn sign(&self, author: &HoloHash, data: &[u8]) -> (r: Signature)
        ensures
            r@ == spec_test_signature((*author)@, data@),
            r@.len() == 64,
    {
        let mut buf = author.to_bytes();
        buf.extend_from_slice(data);
        proof {
            assert(buf@ =~= crate::hash::spec_hash_bytes((*author)@) + data@);
        }
        Signature(blake2b_digest(64, buf.as_slice()))
    }
}

impl Keystore for TestKeystore {
    open spec fn spec_verify(&self, sig: Seq<u8>, data: Seq<u8>, author: HashRepr) -> bool {
        sig == spec_test_signature(author, data)
    }

    fn verify(&self, signature: &Signature, data: &[u8], author: &HoloHash) -> (r: bool) {
        let expected = self.sign(author, data);
        bytes_eq(signature.0.as_slice(), expected.0.as_slice())
    }
}

} // verus!
