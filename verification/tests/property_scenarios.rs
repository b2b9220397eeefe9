//! Concrete scenarios for the engine's stated guarantees: sequential
//! chains validate, each check rejects exactly as documented, and the
//! digests the engine relies on are the real ones.

use sys_validate::element::{Element, Signature};
use sys_validate::entry::{hash_entry, Entry, EntryType};
use sys_validate::error::{PrevHeaderError, SysValidationError};
use sys_validate::hash::{blake2b_32, HoloHash};
use sys_validate::header::{serialize_header, Header};
use sys_validate::keystore::{Keystore, TestKeystore};
use sys_validate::sys_validate::{check_entry_hash, sys_validate_element, MAX_ENTRY_SIZE};
use sys_validate::time::Timestamp;

fn author() -> HoloHash {
    HoloHash::Agent(vec![0x01; 32])
}

fn signed_element(header: Header, entry: Option<Entry>) -> Element {
    let bytes = serialize_header(&header);
    let signature = TestKeystore.sign(&author(), bytes.as_slice());
    Element::new(signature, header, entry)
}

/// A chain appended record by record — sequence incremented, time never
/// going back, every signature real — validates at every non-root element.
#[test]
fn sequential_append_chain_validates() {
    let root = signed_element(
        Header::ChainRoot {
            author: author(),
            timestamp: Timestamp::new(1588705000, 0),
        },
        None,
    );

    let entry = Entry::App(vec![7, 8, 9]);
    let second = signed_element(
        Header::NewEntry {
            author: author(),
            timestamp: Timestamp::new(1588705000, 500),
            header_seq: 1,
            prev_header: root.header_address(),
            entry_type: EntryType::App,
            entry_hash: hash_entry(&entry),
        },
        Some(entry),
    );

    let third = signed_element(
        Header::SystemEvent {
            author: author(),
            timestamp: Timestamp::new(1588705001, 0),
            header_seq: 2,
            prev_header: second.header_address(),
        },
        None,
    );

    let fourth = signed_element(
        Header::RemoveEntry {
            author: author(),
            timestamp: Timestamp::new(1588705001, 0),
            header_seq: 3,
            prev_header: third.header_address(),
            removes_address: second.header_address(),
        },
        None,
    );

    let ks = TestKeystore;
    assert!(sys_validate_element(&author(), &second, Some(&root), &ks).is_ok());
    assert!(sys_validate_element(&author(), &third, Some(&second), &ks).is_ok());
    assert!(sys_validate_element(&author(), &fourth, Some(&third), &ks).is_ok());
    // The root itself is still signed and verifies without a predecessor.
    assert!(sys_validate_element(&author(), &root, None, &ks).is_ok());
}

/// Header A at sequence 12, timestamp T; B at 13, T+100ms, linking to A:
/// admitted. B stamped 100ms before T: the `Timestamp` error. B at 14:
/// `InvalidSeq(13, 14)`, carrying both values.
#[test]
fn concrete_pair_scenario() {
    let t = Timestamp::new(1588705000, 266_431_045);
    let t_plus = Timestamp::new(1588705000, 366_431_045);
    let t_minus = Timestamp::new(1588705000, 166_431_045);

    let a = signed_element(
        Header::SystemEvent {
            author: author(),
            timestamp: t,
            header_seq: 12,
            prev_header: HoloHash::Header(vec![1; 32]),
        },
        None,
    );
    let b = |seq: u32, ts: Timestamp| {
        signed_element(
            Header::SystemEvent {
                author: author(),
                timestamp: ts,
                header_seq: seq,
                prev_header: a.header_address(),
            },
            None,
        )
    };

    let ks = TestKeystore;
    assert!(sys_validate_element(&author(), &b(13, t_plus), Some(&a), &ks).is_ok());
    assert_eq!(
        sys_validate_element(&author(), &b(13, t_minus), Some(&a), &ks),
        Err(SysValidationError::PrevHeaderError(
            PrevHeaderError::Timestamp
        ))
    );
    assert_eq!(
        sys_validate_element(&author(), &b(14, t_plus), Some(&a), &ks),
        Err(SysValidationError::PrevHeaderError(
            PrevHeaderError::InvalidSeq(13, 14)
        ))
    );
    // Equal timestamps are permitted.
    assert!(sys_validate_element(&author(), &b(13, t), Some(&a), &ks).is_ok());
}

/// A non-root header at position 0 is rejected as `InvalidRoot` even when
/// everything else about it is right.
#[test]
fn non_root_at_position_zero_rejected() {
    let a = signed_element(
        Header::ChainRoot {
            author: author(),
            timestamp: Timestamp::new(1588705000, 0),
        },
        None,
    );
    let bad = signed_element(
        Header::SystemEvent {
            author: author(),
            timestamp: Timestamp::new(1588705001, 0),
            header_seq: 0,
            prev_header: a.header_address(),
        },
        None,
    );
    assert_eq!(
        sys_validate_element(&author(), &bad, Some(&a), &TestKeystore),
        Err(SysValidationError::PrevHeaderError(
            PrevHeaderError::InvalidRoot
        ))
    );
}

/// A header committing to hash(E) passes the hash check; mutating a single
/// byte of E afterwards makes it fail.
#[test]
fn entry_mutation_breaks_commitment() {
    let entry = Entry::App(vec![10, 20, 30, 40]);
    let committed = hash_entry(&entry);
    assert!(matches!(check_entry_hash(&committed, &entry), Ok(())));

    let mutated = Entry::App(vec![10, 20, 31, 40]);
    assert!(matches!(
        check_entry_hash(&committed, &mutated),
        Err(SysValidationError::EntryHash)
    ));
}

/// An entry of 16,000,000 bytes fails the size bound with both values
/// reported; a 1-byte entry passes through the whole pipeline.
#[test]
fn entry_size_bound_end_to_end() {
    let big_payload = vec![0u8; 16_000_000];
    let big = Entry::App(big_payload);
    let header = Header::NewEntry {
        author: author(),
        timestamp: Timestamp::new(1588705000, 0),
        header_seq: 1,
        prev_header: HoloHash::Header(vec![2; 32]),
        entry_type: EntryType::App,
        entry_hash: hash_entry(&big),
    };
    let el = signed_element(header, Some(big));
    assert_eq!(
        sys_validate_element(&author(), &el, None, &TestKeystore),
        Err(SysValidationError::EntryTooLarge(16_000_000, MAX_ENTRY_SIZE))
    );

    let small = Entry::App(vec![0u8; 1]);
    let header = Header::NewEntry {
        author: author(),
        timestamp: Timestamp::new(1588705000, 0),
        header_seq: 1,
        prev_header: HoloHash::Header(vec![2; 32]),
        entry_type: EntryType::App,
        entry_hash: hash_entry(&small),
    };
    let el = signed_element(header, Some(small));
    assert!(sys_validate_element(&author(), &el, None, &TestKeystore).is_ok());
}

/// Replacing a valid signature with arbitrary same-length bytes is a hard
/// `VerifySignature` rejection; the original signature is accepted.
#[test]
fn forged_signature_rejected() {
    let header = Header::SystemEvent {
        author: author(),
        timestamp: Timestamp::new(1588705000, 0),
        header_seq: 9,
        prev_header: HoloHash::Header(vec![5; 32]),
    };
    let good = signed_element(header.clone(), None);
    assert_eq!(good.signature.0.len(), 64);

    let mut forged = good.clone();
    forged.signature = Signature(vec![0x42; 64]);

    let ks = TestKeystore;
    assert!(sys_validate_element(&author(), &good, None, &ks).is_ok());
    assert_eq!(
        sys_validate_element(&author(), &forged, None, &ks),
        Err(SysValidationError::VerifySignature)
    );
}

/// Content of one type under a header declaring another fails as
/// `EntryType`; the matching pair, altered in nothing else, passes.
#[test]
fn mismatched_type_tag_rejected() {
    let entry = Entry::CapClaim(vec![1, 2]);
    let make = |tag: EntryType| {
        let e = entry.clone();
        let header = Header::NewEntry {
            author: author(),
            timestamp: Timestamp::new(1588705000, 0),
            header_seq: 1,
            prev_header: HoloHash::Header(vec![2; 32]),
            entry_type: tag,
            entry_hash: hash_entry(&e),
        };
        signed_element(header, Some(e))
    };

    let ks = TestKeystore;
    assert!(sys_validate_element(&author(), &make(EntryType::CapClaim), None, &ks).is_ok());
    assert_eq!(
        sys_validate_element(&author(), &make(EntryType::App), None, &ks),
        Err(SysValidationError::EntryType)
    );
}

/// A record that carries content under a header that cannot declare any is
/// rejected as `NotNewEntry`.
#[test]
fn content_under_contentless_header_rejected() {
    let entry = Entry::App(vec![1]);
    let header = Header::SystemEvent {
        author: author(),
        timestamp: Timestamp::new(1588705000, 0),
        header_seq: 3,
        prev_header: HoloHash::Header(vec![2; 32]),
    };
    let el = signed_element(header, Some(entry));
    assert_eq!(
        sys_validate_element(&author(), &el, None, &TestKeystore),
        Err(SysValidationError::NotNewEntry)
    );
}

/// The engine's digests are the real BLAKE2b: the wrapper agrees with a
/// direct computation and with the published digest of the empty input.
#[test]
fn digests_are_real_blake2b() {
    let data = b"chain record bytes";
    let ours = blake2b_32(data);
    let direct = blake2b_simd::Params::new()
        .hash_length(32)
        .to_state()
        .update(data)
        .finalize()
        .as_bytes()
        .to_vec();
    assert_eq!(ours, direct);
    assert_ne!(ours, data.to_vec());

    // BLAKE2b-256 of the empty input, first bytes of the published vector.
    let empty = blake2b_32(b"");
    assert_eq!(empty[0], 0x0e);
    assert_eq!(empty[1], 0x57);
    assert_eq!(empty[2], 0x51);
    assert_eq!(empty[3], 0xc0);
    assert_eq!(empty.len(), 32);
}

/// The test keystore's signatures are the keyed 64-byte digest they are
/// documented to be, not the message handed back.
#[test]
fn test_keystore_signature_shape() {
    let ks = TestKeystore;
    let a = author();
    let data = b"some header bytes";
    let sig = ks.sign(&a, data);
    assert_eq!(sig.0.len(), 64);
    assert_ne!(sig.0.as_slice(), data.as_slice());

    let mut keyed = vec![0u8];
    keyed.extend_from_slice(&[0x01; 32]);
    keyed.extend_from_slice(data);
    let direct = blake2b_simd::Params::new()
        .hash_length(64)
        .to_state()
        .update(&keyed)
        .finalize()
        .as_bytes()
        .to_vec();
    assert_eq!(sig.0, direct);

    assert!(ks.verify(&sig, data, &a));
    assert!(!ks.verify(&sig, b"other bytes", &a));
}
