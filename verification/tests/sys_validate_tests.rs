//! The validation engine exercised end to end: chains that should be
//! admitted, and every way a record can be rejected.

use sys_validate::element::{Element, Signature};
use sys_validate::entry::{hash_entry, Entry, EntryType};
use sys_validate::error::{PrevHeaderError, SysValidationError};
use sys_validate::hash::HoloHash;
use sys_validate::header::{serialize_header, Header};
use sys_validate::keystore::TestKeystore;
use sys_validate::sys_validate::{
    check_entry_hash, check_entry_size, check_entry_type, check_new_entry_header,
    check_prev_header, check_prev_seq, check_prev_timestamp, sys_validate_element,
    verify_header_signature,
};
use sys_validate::time::Timestamp;

fn fake_agent_pubkey_1() -> HoloHash {
    HoloHash::Agent(vec![0x01; 32])
}

fn fake_header_hash(i: u8) -> HoloHash {
    HoloHash::Header(vec![i; 32])
}

fn parse_ts(s: &str) -> Timestamp {
    let dt = chrono::DateTime::parse_from_rfc3339(s).unwrap();
    Timestamp::new(dt.timestamp(), dt.timestamp_subsec_nanos())
}

fn test_gen(ts: Timestamp, seq: u32, prev: HoloHash) -> Element {
    let keystore = TestKeystore;
    let author = fake_agent_pubkey_1();
    let header = Header::SystemEvent {
        author: author.clone(),
        timestamp: ts,
        header_seq: seq,
        prev_header: prev,
    };
    let bytes = serialize_header(&header);
    let signature = keystore.sign(&author, bytes.as_slice());
    Element::new(signature, header, None)
}

#[test]
fn valid_headers_validate() {
    let first = test_gen(
        parse_ts("2020-05-05T19:16:04.266431045Z"),
        12,
        fake_header_hash(1),
    );
    let second = test_gen(
        parse_ts("2020-05-05T19:16:04.366431045Z"),
        13,
        first.header_address(),
    );

    sys_validate_element(&fake_agent_pubkey_1(), &second, Some(&first), &TestKeystore).unwrap();
}

#[test]
fn invalid_timestamp_headers_dont_validate() {
    let first = test_gen(
        parse_ts("2020-05-05T19:16:04.266431045Z"),
        12,
        fake_header_hash(1),
    );
    let second = test_gen(
        parse_ts("2020-05-05T19:16:04.166431045Z"),
        13,
        first.header_address(),
    );

    assert!(matches!(
        sys_validate_element(&fake_agent_pubkey_1(), &second, Some(&first), &TestKeystore),
        Err(SysValidationError::PrevHeaderError(_))
    ));
}

#[test]
fn invalid_seq_headers_dont_validate() {
    let first = test_gen(
        parse_ts("2020-05-05T19:16:04.266431045Z"),
        12,
        fake_header_hash(1),
    );
    let second = test_gen(
        parse_ts("2020-05-05T19:16:04.366431045Z"),
        14,
        first.header_address(),
    );

    assert!(matches!(
        sys_validate_element(&fake_agent_pubkey_1(), &second, Some(&first), &TestKeystore),
        Err(SysValidationError::PrevHeaderError(_))
    ));
}

#[test]
fn verify_header_signature_test() {
    let keystore = TestKeystore;
    let author = fake_agent_pubkey_1();
    let header = Header::LinkAdd {
        author: author.clone(),
        timestamp: Timestamp::new(1588705000, 0),
        header_seq: 5,
        prev_header: fake_header_hash(7),
        base_address: HoloHash::Entry(vec![0x11; 32]),
        target_address: HoloHash::Entry(vec![0x22; 32]),
    };
    let bytes = serialize_header(&header);
    let real_signature = keystore.sign(&author, bytes.as_slice());
    let wrong_signature = Signature(vec![1; 64]);

    assert!(matches!(
        verify_header_signature(&wrong_signature, &header, &keystore),
        Err(SysValidationError::VerifySignature)
    ));

    assert!(matches!(
        verify_header_signature(&real_signature, &header, &keystore),
        Ok(())
    ));
}

fn link_add_at(seq: u32, ts: Timestamp) -> Header {
    Header::LinkAdd {
        author: fake_agent_pubkey_1(),
        timestamp: ts,
        header_seq: seq,
        prev_header: fake_header_hash(3),
        base_address: HoloHash::Entry(vec![0x11; 32]),
        target_address: HoloHash::Entry(vec![0x22; 32]),
    }
}

#[test]
fn check_previous_header() {
    let ts = Timestamp::new(1588705000, 0);
    let header = link_add_at(1, ts);
    assert!(matches!(check_prev_header(&header), Ok(())));
    let header = link_add_at(0, ts);
    assert!(matches!(
        check_prev_header(&header),
        Err(SysValidationError::PrevHeaderError(
            PrevHeaderError::InvalidRoot
        ))
    ));
    // The chain root is always fine: its position is 0 by construction.
    let root = Header::ChainRoot {
        author: fake_agent_pubkey_1(),
        timestamp: ts,
    };
    assert!(matches!(check_prev_header(&root), Ok(())));
}

#[test]
fn check_previous_timestamp() {
    let now = chrono::Utc::now();
    let before = now - chrono::Duration::weeks(1);
    let after = now + chrono::Duration::weeks(1);
    let header = link_add_at(2, Timestamp::new(now.timestamp(), now.timestamp_subsec_nanos()));

    let prev_header = link_add_at(
        1,
        Timestamp::new(before.timestamp(), before.timestamp_subsec_nanos()),
    );
    assert!(matches!(check_prev_timestamp(&header, &prev_header), Ok(())));

    let prev_header = link_add_at(
        1,
        Timestamp::new(after.timestamp(), after.timestamp_subsec_nanos()),
    );
    assert!(matches!(
        check_prev_timestamp(&header, &prev_header),
        Err(SysValidationError::PrevHeaderError(
            PrevHeaderError::Timestamp
        ))
    ));
}

#[test]
fn check_previous_seq() {
    let ts = Timestamp::new(1588705000, 0);

    let header = link_add_at(2, ts);
    let prev_header = link_add_at(1, ts);
    assert!(matches!(check_prev_seq(&header, &prev_header), Ok(())));

    let prev_header = link_add_at(2, ts);
    assert!(matches!(
        check_prev_seq(&header, &prev_header),
        Err(SysValidationError::PrevHeaderError(
            PrevHeaderError::InvalidSeq(_, _)
        ))
    ));

    let prev_header = link_add_at(3, ts);
    assert!(matches!(
        check_prev_seq(&header, &prev_header),
        Err(SysValidationError::PrevHeaderError(
            PrevHeaderError::InvalidSeq(_, _)
        ))
    ));

    let header = link_add_at(0, ts);
    let prev_header = link_add_at(0, ts);
    assert!(matches!(
        check_prev_seq(&header, &prev_header),
        Err(SysValidationError::PrevHeaderError(
            PrevHeaderError::InvalidSeq(_, _)
        ))
    ));
}

fn entry_cycle(offset: usize, n: usize) -> Vec<Entry> {
    let mut out = Vec::new();
    for i in 0..n {
        out.push(match (i + offset) % 4 {
            0 => Entry::Agent(HoloHash::Agent(vec![0x01; 32])),
            1 => Entry::App(vec![1, 2, 3]),
            2 => Entry::CapClaim(vec![4, 5]),
            _ => Entry::CapGrant(vec![6]),
        });
    }
    out
}

fn type_cycle(offset: usize, n: usize) -> Vec<EntryType> {
    let mut out = Vec::new();
    for i in 0..n {
        out.push(match (i + offset) % 4 {
            0 => EntryType::Agent,
            1 => EntryType::App,
            2 => EntryType::CapClaim,
            _ => EntryType::CapGrant,
        });
    }
    out
}

#[test]
fn check_entry_type_test() {
    for (e, et) in entry_cycle(0, 4).iter().zip(type_cycle(0, 4).iter()) {
        assert!(matches!(check_entry_type(et, e), Ok(())));
    }

    // Offset by 1
    for (e, et) in entry_cycle(0, 4).iter().zip(type_cycle(1, 4).iter()) {
        assert!(matches!(
            check_entry_type(et, e),
            Err(SysValidationError::EntryType)
        ));
    }
}

#[test]
fn check_entry_hash_test() {
    let entry = Entry::App(vec![0xaa, 0xbb, 0xcc]);
    let hash = hash_entry(&entry);
    let header = Header::NewEntry {
        author: fake_agent_pubkey_1(),
        timestamp: Timestamp::new(1588705000, 0),
        header_seq: 4,
        prev_header: fake_header_hash(3),
        entry_type: EntryType::App,
        // Not the entry's real address: the commitment must fail.
        entry_hash: HoloHash::Entry(vec![0x00; 32]),
    };

    // First check it should have an entry
    assert!(matches!(check_new_entry_header(&header), Ok(())));
    // Safe to unwrap if new entry
    let (eh, _) = header.entry_data().unwrap();
    assert!(matches!(
        check_entry_hash(eh, &entry),
        Err(SysValidationError::EntryHash)
    ));

    let header = Header::NewEntry {
        author: fake_agent_pubkey_1(),
        timestamp: Timestamp::new(1588705000, 0),
        header_seq: 4,
        prev_header: fake_header_hash(3),
        entry_type: EntryType::App,
        entry_hash: hash,
    };

    let (eh, _) = header.entry_data().unwrap();
    assert!(matches!(check_entry_hash(eh, &entry), Ok(())));
    let link_add = link_add_at(4, Timestamp::new(1588705000, 0));
    assert!(matches!(
        check_new_entry_header(&link_add),
        Err(SysValidationError::NotNewEntry)
    ));
}

#[test]
fn check_entry_size_test() {
    let tiny = Entry::App(vec![0; 1]);
    let bytes = (0..16_000_000).map(|_| 0u8).into_iter().collect::<Vec<_>>();
    let huge = Entry::App(bytes);
    assert!(matches!(check_entry_size(&tiny), Ok(())));

    assert!(matches!(
        check_entry_size(&huge),
        Err(SysValidationError::EntryTooLarge(_, _))
    ));
}
