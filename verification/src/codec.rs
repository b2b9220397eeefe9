//! Fixed-width integer byte codecs.
//!
//! Big-endian encodings of `u32` and `u64`, and a sign-and-magnitude encoding
//! of `i64`. These are the primitives under the deterministic record
//! serialization and under the integer database keys.

use vstd::prelude::*;

verus! {

/// The four bytes of `x`, most significant first.
pub open spec fn spec_u32_be(x: u32) -> Seq<u8> {
    seq![
        ((x >> 24) & 0xff) as u8,
        ((x >> 16) & 0xff) as u8,
        ((x >> 8) & 0xff) as u8,
        (x & 0xff) as u8,
    ]
}

/// The value whose big-endian bytes are the four bytes of `s`.
pub open spec fn spec_u32_from_be(s: Seq<u8>) -> u32
    recommends
        s.len() == 4,
{
    (((s[0] as u32) << 24) | ((s[1] as u32) << 16) | ((s[2] as u32) << 8) | (s[3] as u32)) as u32
}

/// The eight bytes of `x`, most significant first.
pub open spec fn spec_u64_be(x: u64) -> Seq<u8> {
    seq![
        ((x >> 56) & 0xff) as u8,
        ((x >> 48) & 0xff) as u8,
        ((x >> 40) & 0xff) as u8,
        ((x >> 32) & 0xff) as u8,
        ((x >> 24) & 0xff) as u8,
        ((x >> 16) & 0xff) as u8,
        ((x >> 8) & 0xff) as u8,
        (x & 0xff) as u8,
    ]
}

/// A sign byte (0 for non-negative, 1 for negative) followed by the
/// big-endian magnitude.
pub open spec fn spec_i64_sm(x: i64) -> Seq<u8> {
    if x >= 0 {
        seq![0u8] + spec_u64_be(x as u64)
    } else {
        seq![1u8] + spec_u64_be(((-(x as int)) as u64))
    }
}

/// Decoding the big-endian bytes of a `u32` gives the value back.
pub proof fn lemma_u32_be_roundtrip(x: u32)
    ensures
        spec_u32_from_be(spec_u32_be(x)) == x,
{
    let s = spec_u32_be(x);
    assert(s[0] == ((x >> 24) & 0xff) as u8);
    assert(s[1] == ((x >> 16) & 0xff) as u8);
    assert(s[2] == ((x >> 8) & 0xff) as u8);
    assert(s[3] == (x & 0xff) as u8);
    assert((((((x >> 24) & 0xff) as u8 as u32) << 24) | ((((x >> 16) & 0xff) as u8 as u32) << 16)
        | ((((x >> 8) & 0xff) as u8 as u32) << 8) | ((x & 0xff) as u8 as u32)) as u32 == x)
        by (bit_vector);
}

/// Encode `x` as four big-endian bytes.
pub fn u32_to_be_bytes(x: u32) -> (r: Vec<u8>)
    ensures
        r@ == spec_u32_be(x),
{
    let mut v: Vec<u8> = Vec::new();
    v.push(((x >> 24) & 0xff) as u8);
    v.push(((x >> 16) & 0xff) as u8);
    v.push(((x >> 8) & 0xff) as u8);
    v.push((x & 0xff) as u8);
    proof {
        assert(v@ =~= spec_u32_be(x));
    }
    v
}

/// Read the value whose big-endian bytes are the four bytes of `s`.
pub fn u32_from_be_bytes(s: &[u8]) -> (r: u32)
    requires
        s@.len() == 4,
    ensures
        r == spec_u32_from_be(s@),
{
    ((s[0] as u32) << 24) | ((s[1] as u32) << 16) | ((s[2] as u32) << 8) | (s[3] as u32)
}

/// Encode `x` as eight big-endian bytes.
pub fn u64_to_be_bytes(x: u64) -> (r: Vec<u8>)
    ensures
        r@ == spec_u64_be(x),
{
    let mut v: Vec<u8> = Vec::new();
    v.push(((x >> 56) & 0xff) as u8);
    v.push(((x >> 48) & 0xff) as u8);
    v.push(((x >> 40) & 0xff) as u8);
    v.push(((x >> 32) & 0xff) as u8);
    v.push(((x >> 24) & 0xff) as u8);
    v.push(((x >> 16) & 0xff) as u8);
    v.push(((x >> 8) & 0xff) as u8);
    v.push((x & 0xff) as u8);
    proof {
        assert(v@ =~= spec_u64_be(x));
    }
    v
}

/// Encode `x` as a sign byte followed by its big-endian magnitude.
pub fn i64_to_sm_bytes(x: i64) -> (r: Vec<u8>)
    ensures
        r@ == spec_i64_sm(x),
{
    if x >= 0 {
        let mut v: Vec<u8> = Vec::new();
        v.push(0u8);
        let mut mag = u64_to_be_bytes(x as u64);
        v.append(&mut mag);
        proof {
            assert(v@ =~= spec_i64_sm(x));
        }
        v
    } else {
        let mut v: Vec<u8> = Vec::new();
        v.push(1u8);
        let m: u64 = ((-(x + 1)) as u64) + 1;
        assert(m == (-(x as int)) as u64);
        let mut mag = u64_to_be_bytes(m);
        v.append(&mut mag);
        proof {
            assert(v@ =~= spec_i64_sm(x));
        }
        v
    }
}

} // verus!
