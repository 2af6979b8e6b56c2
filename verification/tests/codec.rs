use operator_log::codec::{
    code_of, decode, decode_slice, encode, permission_from_code, Decode,
};
use operator_log::errors::{OperatorDecodeErrno, OperatorEncodeErrno};
use operator_log::model::{
    Entry, OperatorGrantFlat, OperatorInit, OperatorPermission, OperatorRecord, OperatorRevokeFlat,
    Timestamp,
};

const ALICE: &str = "ecdsa-p256:A1OfZz5Y9Ny7VKPVwroCTQPAr9tmlI4U/UTYHZHA87AF";
const BOB: &str = "ecdsa-p256:A5qc6uBi070EBb4GihGzpx6Cm5+oZnv4dWpBhhuZVagu";
const SOME_ID: &str = "sha256:00112233445566778899aabbccddeeff00112233445566778899aabbccddeeff";

fn init(hash_algorithm: &str, key: &str) -> Entry {
    Entry::OperatorInit(OperatorInit {
        hash_algorithm: hash_algorithm.to_string(),
        key: key.to_string(),
    })
}

fn grant(key: &str) -> Entry {
    Entry::OperatorGrantFlat(OperatorGrantFlat {
        key: key.to_string(),
        permission: OperatorPermission::Commit,
    })
}

fn revoke(key_id: &str) -> Entry {
    Entry::OperatorRevokeFlat(OperatorRevokeFlat {
        key: key_id.to_string(),
        permission: OperatorPermission::Commit,
    })
}

fn record(prev: Option<&str>, entries: Vec<Entry>) -> OperatorRecord {
    OperatorRecord {
        prev: prev.map(|p| p.to_string()),
        version: 0,
        timestamp: Timestamp { seconds: 1_700_000_000, nanos: 123_456_789 },
        entries,
    }
}

/// The bytes of a record at one second and two nanoseconds after the epoch
/// that revokes the commit permission of the key `k`.
fn small_record_bytes() -> Vec<u8> {
    vec![
        0x1a, 0x04, 0x08, 0x01, 0x10, 0x02, 0x22, 0x08, 0x1a, 0x06, 0x0a, 0x01, 0x6b, 0x12, 0x01,
        0x01,
    ]
}

fn small_record() -> OperatorRecord {
    OperatorRecord {
        prev: None,
        version: 0,
        timestamp: Timestamp { seconds: 1, nanos: 2 },
        entries: vec![revoke("k")],
    }
}

#[test]
fn encode_writes_the_canonical_bytes() {
    let encoded = encode(small_record()).unwrap();
    assert_eq!(encoded.content_bytes, small_record_bytes());
}

#[test]
fn encode_derives_the_record_id_from_the_bytes() {
    let encoded = encode(small_record()).unwrap();
    assert_eq!(
        encoded.record_id,
        "sha256:d648b70dbfaaabbfe396e11142df2c86aa371cc161faa07164b59ec3174126eb"
    );
}

#[test]
fn encode_is_deterministic() {
    let entries = vec![init("sha256", ALICE), grant(BOB), revoke("some key")];
    let first = encode(record(Some(SOME_ID), entries.clone())).unwrap();
    let second = encode(record(Some(SOME_ID), entries)).unwrap();
    assert_eq!(first, second);
}

#[test]
fn encode_depends_on_every_field() {
    let base = encode(record(None, vec![init("sha256", ALICE)])).unwrap();
    let other_key = encode(record(None, vec![init("sha256", BOB)])).unwrap();
    let with_prev = encode(record(Some(SOME_ID), vec![init("sha256", ALICE)])).unwrap();
    let mut later = record(None, vec![init("sha256", ALICE)]);
    later.timestamp.seconds += 1;
    let later = encode(later).unwrap();
    let mut versioned = record(None, vec![init("sha256", ALICE)]);
    versioned.version = 7;
    let versioned = encode(versioned).unwrap();
    assert_ne!(base.content_bytes, other_key.content_bytes);
    assert_ne!(base.content_bytes, with_prev.content_bytes);
    assert_ne!(base.content_bytes, later.content_bytes);
    assert_ne!(base.content_bytes, versioned.content_bytes);
    assert_ne!(base.record_id, other_key.record_id);
}

#[test]
fn encode_refuses_a_malformed_previous_id() {
    for prev in ["", "sha256", "sha256:0", "sha256:0g", "sha256:AB", "md5:00", "sha256:00:11"] {
        let result = encode(record(Some(prev), vec![init("sha256", ALICE)]));
        assert_eq!(result, Err(OperatorEncodeErrno::PrevRecordIdInvalidFormat), "{prev}");
    }
}

#[test]
fn encode_accepts_well_formed_previous_ids() {
    for prev in ["sha256:", "sha256:00", "sha256:0123456789abcdef", SOME_ID] {
        assert!(encode(record(Some(prev), vec![init("sha256", ALICE)])).is_ok(), "{prev}");
    }
}

#[test]
fn encode_refuses_an_unsupported_hash_algorithm() {
    for name in ["", "sha512", "SHA256", "sha256 "] {
        let result = encode(record(None, vec![init(name, ALICE)]));
        assert_eq!(result, Err(OperatorEncodeErrno::UnsupportedHashAlgorithm), "{name}");
    }
}

#[test]
fn encode_refuses_a_malformed_key() {
    for key in ["", "ecdsa-p256", "ecdsa-p256:", "ecdsa-p256:AAAA", "rsa:AAAA", "ecdsa-p256:A1Of:Zz5Y"] {
        let in_init = encode(record(None, vec![init("sha256", key)]));
        assert_eq!(in_init, Err(OperatorEncodeErrno::PublicKeyParseFailure), "{key}");
        let in_grant = encode(record(None, vec![grant(key)]));
        assert_eq!(in_grant, Err(OperatorEncodeErrno::PublicKeyParseFailure), "{key}");
    }
}

#[test]
fn encode_takes_any_text_as_the_key_id_of_a_revocation() {
    for key_id in ["", "anything", ALICE, SOME_ID] {
        assert!(encode(record(None, vec![revoke(key_id)])).is_ok(), "{key_id}");
    }
}

#[test]
fn encode_checks_the_previous_id_before_the_entries() {
    let result = encode(record(Some("nonsense"), vec![init("sha512", "nonsense")]));
    assert_eq!(result, Err(OperatorEncodeErrno::PrevRecordIdInvalidFormat));
}

#[test]
fn encode_checks_the_hash_algorithm_before_the_key() {
    let result = encode(record(None, vec![init("sha512", "nonsense")]));
    assert_eq!(result, Err(OperatorEncodeErrno::UnsupportedHashAlgorithm));
}

#[test]
fn encode_reports_the_first_entry_at_fault() {
    let key_first = encode(record(None, vec![grant("nonsense"), init("sha512", ALICE)]));
    assert_eq!(key_first, Err(OperatorEncodeErrno::PublicKeyParseFailure));
    let algorithm_first = encode(record(None, vec![revoke("k"), init("sha512", ALICE), grant("nonsense")]));
    assert_eq!(algorithm_first, Err(OperatorEncodeErrno::UnsupportedHashAlgorithm));
}

#[test]
fn encode_accepts_a_record_without_entries() {
    let encoded = encode(record(None, vec![])).unwrap();
    assert_eq!(decode(encoded.content_bytes), Ok(record(None, vec![])));
}

#[test]
fn decode_reads_the_canonical_bytes() {
    assert_eq!(decode(small_record_bytes()), Ok(small_record()));
}

#[test]
fn decode_inverts_encode() {
    let records = vec![
        record(None, vec![init("sha256", ALICE)]),
        record(Some(SOME_ID), vec![grant(BOB), revoke("some key"), grant(ALICE)]),
        record(Some("sha256:"), vec![init("sha256", BOB), init("sha256", ALICE)]),
        OperatorRecord {
            prev: None,
            version: u32::MAX,
            timestamp: Timestamp { seconds: 0, nanos: 0 },
            entries: vec![revoke("")],
        },
        OperatorRecord {
            prev: None,
            version: 3,
            timestamp: Timestamp { seconds: 253_402_300_799, nanos: 999_999_999 },
            entries: vec![],
        },
        OperatorRecord {
            prev: None,
            version: 0,
            timestamp: Timestamp { seconds: i64::MAX, nanos: 999_999_999 },
            entries: vec![],
        },
    ];
    for written in records {
        let encoded = encode(written.clone()).unwrap();
        assert_eq!(decode(encoded.content_bytes), Ok(written));
    }
}

#[test]
fn decode_gives_keys_in_their_canonical_text() {
    let encoded = encode(record(None, vec![init("sha256", ALICE), grant(BOB)])).unwrap();
    let decoded = decode(encoded.content_bytes).unwrap();
    assert_eq!(decoded.entries, vec![init("sha256", ALICE), grant(BOB)]);
}

#[test]
fn a_key_in_another_text_comes_back_in_its_canonical_text() {
    // The same point as `ALICE`, written with both of its coordinates.
    let long = "ecdsa-p256:BFOfZz5Y9Ny7VKPVwroCTQPAr9tmlI4U/UTYHZHA87AFreHUsZR2G/38ccPHf20cJOBj0F0sjb2qA6Ra3r7NGPM=";
    let encoded = encode(record(None, vec![init("sha256", long), grant(long)])).unwrap();
    let canonical = encode(record(None, vec![init("sha256", ALICE), grant(ALICE)])).unwrap();
    assert_eq!(encoded, canonical);
    let decoded = decode(encoded.content_bytes).unwrap();
    assert_eq!(decoded.entries, vec![init("sha256", ALICE), grant(ALICE)]);
}

#[test]
fn decode_refuses_bytes_that_are_no_record() {
    for bytes in [vec![0xff], vec![0x0a], vec![0x1a, 0x04, 0x08], vec![0x0a, 0x03, 0x61, 0x62, 0x63, 0x1a, 0x00]] {
        assert_eq!(decode(bytes), Err(OperatorDecodeErrno::FailedToDecode));
    }
}

#[test]
fn decode_refuses_a_record_without_time() {
    assert_eq!(decode(vec![]), Err(OperatorDecodeErrno::FailedToDecode));
    assert_eq!(decode(vec![0x10, 0x01]), Err(OperatorDecodeErrno::FailedToDecode));
}

#[test]
fn decode_refuses_a_time_before_the_epoch() {
    let bytes = vec![
        0x1a, 0x0b, 0x08, 0xff, 0xff, 0xff, 0xff, 0xff, 0xff, 0xff, 0xff, 0xff, 0x01,
    ];
    assert_eq!(decode(bytes), Err(OperatorDecodeErrno::FailedToDecode));
}

#[test]
fn decode_accepts_the_epoch_itself() {
    let decoded = decode(vec![0x1a, 0x00]).unwrap();
    assert_eq!(decoded.timestamp, Timestamp { seconds: 0, nanos: 0 });
    assert_eq!(decoded.prev, None);
    assert_eq!(decoded.version, 0);
    assert!(decoded.entries.is_empty());
}

#[test]
fn decode_refuses_an_entry_with_two_permissions() {
    let bytes = vec![
        0x1a, 0x00, 0x22, 0x09, 0x1a, 0x07, 0x0a, 0x01, 0x6b, 0x12, 0x02, 0x01, 0x01,
    ];
    assert_eq!(decode(bytes), Err(OperatorDecodeErrno::FailedToDecode));
}

#[test]
fn decode_refuses_an_entry_without_permission() {
    let bytes = vec![0x1a, 0x00, 0x22, 0x05, 0x1a, 0x03, 0x0a, 0x01, 0x6b];
    assert_eq!(decode(bytes), Err(OperatorDecodeErrno::FailedToDecode));
}

#[test]
fn decode_refuses_a_permission_that_the_protocol_lacks() {
    let unspecified = vec![0x1a, 0x00, 0x22, 0x08, 0x1a, 0x06, 0x0a, 0x01, 0x6b, 0x12, 0x01, 0x00];
    assert_eq!(decode(unspecified), Err(OperatorDecodeErrno::FailedToDecode));
    let unknown = vec![0x1a, 0x00, 0x22, 0x08, 0x1a, 0x06, 0x0a, 0x01, 0x6b, 0x12, 0x01, 0x07];
    assert_eq!(decode(unknown), Err(OperatorDecodeErrno::FailedToDecode));
}

#[test]
fn decode_refuses_an_entry_without_contents() {
    let bytes = vec![0x1a, 0x00, 0x22, 0x00];
    assert_eq!(decode(bytes), Err(OperatorDecodeErrno::FailedToDecode));
}

#[test]
fn decode_refuses_a_malformed_key_in_the_bytes() {
    // An init entry whose key is the text `k`.
    let bytes = vec![
        0x1a, 0x00, 0x22, 0x0d, 0x0a, 0x0b, 0x0a, 0x06, 0x73, 0x68, 0x61, 0x32, 0x35, 0x36, 0x12,
        0x01, 0x6b,
    ];
    assert_eq!(decode(bytes), Err(OperatorDecodeErrno::FailedToDecode));
}

#[test]
fn decode_of_a_slice_agrees_with_decode() {
    let bytes = small_record_bytes();
    assert_eq!(decode_slice(&bytes), decode(bytes.clone()));
    assert_eq!(decode_slice(&[0xff]), decode(vec![0xff]));
}

#[test]
fn the_decode_trait_reads_records() {
    let bytes = small_record_bytes();
    assert_eq!(<OperatorRecord as Decode>::decode(&bytes), Ok(small_record()));
    assert_eq!(
        <OperatorRecord as Decode>::decode(&[0xff]),
        Err(OperatorDecodeErrno::FailedToDecode)
    );
}

#[test]
fn the_commit_permission_is_number_one_on_the_wire() {
    assert_eq!(code_of(OperatorPermission::Commit), 1);
    assert_eq!(permission_from_code(1), Some(OperatorPermission::Commit));
}

#[test]
fn no_other_number_stands_for_a_permission() {
    for code in [0, 2, 3, -1, i32::MIN, i32::MAX] {
        assert_eq!(permission_from_code(code), None);
    }
}

#[test]
fn canonical_timestamps_lie_after_the_epoch_and_within_the_second() {
    assert!(Timestamp { seconds: 0, nanos: 0 }.check_canonical());
    assert!(Timestamp { seconds: i64::MAX, nanos: 999_999_999 }.check_canonical());
    assert!(!Timestamp { seconds: -1, nanos: 0 }.check_canonical());
    assert!(!Timestamp { seconds: 0, nanos: -1 }.check_canonical());
    assert!(!Timestamp { seconds: 0, nanos: 1_000_000_000 }.check_canonical());
}
