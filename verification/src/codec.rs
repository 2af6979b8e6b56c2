//! Encoding a record to its canonical bytes and decoding bytes to a record.
//!
//! The bytes themselves are written and read by the warg crates. What stands
//! here is what surrounds that: which texts of a record are checked, in which
//! order, which error each failure gives, and how a record of the protocol is
//! read as a record of this model.

use vstd::prelude::*;
use warg_protocol::operator;
use crate::errors::{OperatorDecodeErrno, OperatorEncodeErrno};
use crate::model::{
    entry_views, EncodedOperatorRecord, EncodedView, Entry, EntryView, OperatorGrantFlat,
    OperatorInit, OperatorPermission, OperatorRecord, OperatorRevokeFlat, RecordView, Timestamp,
};
use crate::warg::{
    canonical_key, digest_text, encode_record, entry_view, grant_entry, init_entry,
    is_digest_text, is_permission_code, link_text, parse_algorithm, parse_digest, parse_key,
    protocol_decode, protocol_encode, read_entry, read_record, record_id_text, revoke_entry,
    wire_entries, RawEntry, RawRecord, WireEntry, WireRecord,
};

verus! {

/// The number that stands for a permission on the wire.
pub open spec fn permission_code(permission: OperatorPermission) -> i32 {
    match permission {
        OperatorPermission::Commit => 1,
    }
}

/// The permission that a number on the wire stands for, if it stands for one.
pub open spec fn permission_of_code(code: i32) -> Option<OperatorPermission> {
    if code == 1 {
        Some(OperatorPermission::Commit)
    } else {
        None
    }
}

/// Why an entry cannot be encoded, `None` for an entry that can. An init
/// entry is asked for its hash algorithm first and for its key second.
pub open spec fn entry_fault(entry: EntryView) -> Option<OperatorEncodeErrno> {
    match entry {
        EntryView::Init { hash_algorithm, key } => {
            if hash_algorithm != "sha256"@ {
                Some(OperatorEncodeErrno::UnsupportedHashAlgorithm)
            } else if canonical_key(key).is_none() {
                Some(OperatorEncodeErrno::PublicKeyParseFailure)
            } else {
                None
            }
        },
        EntryView::GrantFlat { key, permission } => {
            if canonical_key(key).is_none() {
                Some(OperatorEncodeErrno::PublicKeyParseFailure)
            } else {
                None
            }
        },
        EntryView::RevokeFlat { key_id, permission } => None,
    }
}

/// The fault of the first entry that has one.
pub open spec fn first_fault(entries: Seq<EntryView>) -> Option<OperatorEncodeErrno>
    decreases entries.len(),
{
    if entries.len() == 0 {
        None
    } else {
        match first_fault(entries.drop_last()) {
            Some(fault) => Some(fault),
            None => entry_fault(entries.last()),
        }
    }
}

/// What the protocol's entry holds for an entry of this model that has no
/// fault: the same fields, each key in its canonical text, and the one
/// permission as a list of one number.
pub open spec fn entry_to_wire(entry: EntryView) -> WireEntry {
    match entry {
        EntryView::Init { hash_algorithm, key } => WireEntry::Init {
            hash_algorithm,
            key: canonical_key(key).unwrap(),
        },
        EntryView::GrantFlat { key, permission } => WireEntry::GrantFlat {
            key: canonical_key(key).unwrap(),
            permissions: seq![permission_code(permission)],
        },
        EntryView::RevokeFlat { key_id, permission } => WireEntry::RevokeFlat {
            key_id,
            permissions: seq![permission_code(permission)],
        },
    }
}

/// What the protocol's entries hold for entries of this model, in their
/// order.
pub open spec fn entries_to_wire(entries: Seq<EntryView>) -> Seq<WireEntry> {
    Seq::new(entries.len(), |i: int| entry_to_wire(entries[i]))
}

/// What the protocol's record holds for a record of this model whose time is
/// canonical and whose entries have no fault.
pub open spec fn record_to_wire(record: RecordView) -> WireRecord {
    WireRecord {
        prev: record.prev,
        version: record.version,
        time: Some((record.timestamp.seconds as u64, record.timestamp.nanos as u32)),
        entries: entries_to_wire(record.entries),
    }
}

/// What encoding a record gives. The link to the previous record is checked
/// first, then the entries in their order; the first failure is the error.
/// Where nothing fails, the bytes are those that the protocol writes for the
/// record, and the identifier is derived from the bytes.
pub open spec fn encode_spec(record: RecordView) -> Result<EncodedView, OperatorEncodeErrno> {
    if record.prev matches Some(prev) && !is_digest_text(prev) {
        Err(OperatorEncodeErrno::PrevRecordIdInvalidFormat)
    } else {
        match first_fault(record.entries) {
            Some(fault) => Err(fault),
            None => {
                let bytes = protocol_encode(record_to_wire(record));
                Ok(EncodedView { content_bytes: bytes, record_id: record_id_text(bytes) })
            },
        }
    }
}

/// The one permission of an entry of the protocol. An entry of this model
/// carries exactly one; a list of another length has no reading.
pub open spec fn single_permission(codes: Seq<i32>) -> Result<
    OperatorPermission,
    OperatorDecodeErrno,
> {
    if codes.len() != 1 {
        Err(OperatorDecodeErrno::FailedToDecode)
    } else {
        match permission_of_code(codes[0]) {
            Some(permission) => Ok(permission),
            None => Err(OperatorDecodeErrno::UnknownOperatorPermission),
        }
    }
}

/// An entry of the protocol read as an entry of this model.
pub open spec fn entry_from_wire(entry: WireEntry) -> Result<EntryView, OperatorDecodeErrno> {
    match entry {
        WireEntry::Init { hash_algorithm, key } => Ok(EntryView::Init { hash_algorithm, key }),
        WireEntry::GrantFlat { key, permissions } => match single_permission(permissions) {
            Ok(permission) => Ok(EntryView::GrantFlat { key, permission }),
            Err(e) => Err(e),
        },
        WireEntry::RevokeFlat { key_id, permissions } => match single_permission(permissions) {
            Ok(permission) => Ok(EntryView::RevokeFlat { key_id, permission }),
            Err(e) => Err(e),
        },
        WireEntry::Other => Err(OperatorDecodeErrno::UnknownOperatorEntry),
    }
}

/// The entries of the protocol read in their order: the error of the first
/// that has no reading, else all of them.
pub open spec fn entries_from_wire(entries: Seq<WireEntry>) -> Result<
    Seq<EntryView>,
    OperatorDecodeErrno,
>
    decreases entries.len(),
{
    if entries.len() == 0 {
        Ok(Seq::empty())
    } else {
        match entries_from_wire(entries.drop_last()) {
            Err(e) => Err(e),
            Ok(read) => match entry_from_wire(entries.last()) {
                Err(e) => Err(e),
                Ok(entry) => Ok(read.push(entry)),
            },
        }
    }
}

/// A record of the protocol read as a record of this model. The time must
/// lie at or after the epoch and fit the fields of a `Timestamp`.
pub open spec fn record_from_wire(record: WireRecord) -> Result<RecordView, OperatorDecodeErrno> {
    match record.time {
        None => Err(OperatorDecodeErrno::FailedToDecode),
        Some((seconds, nanos)) => {
            if seconds > i64::MAX || nanos >= 1_000_000_000 {
                Err(OperatorDecodeErrno::FailedToDecode)
            } else {
                match entries_from_wire(record.entries) {
                    Err(e) => Err(e),
                    Ok(entries) => Ok(
                        RecordView {
                            prev: record.prev,
                            version: record.version,
                            timestamp: Timestamp { seconds: seconds as i64, nanos: nanos as i32 },
                            entries,
                        },
                    ),
                }
            }
        },
    }
}

/// What decoding bytes gives.
pub open spec fn decode_spec(bytes: Seq<u8>) -> Result<RecordView, OperatorDecodeErrno> {
    match protocol_decode(bytes) {
        None => Err(OperatorDecodeErrno::FailedToDecode),
        Some(record) => record_from_wire(record),
    }
}

/// A fault among the first entries of a record is the fault of the record.
proof fn lemma_fault_of_prefix(entries: Seq<EntryView>, count: int)
    requires
        0 <= count <= entries.len(),
        first_fault(entries.take(count)).is_some(),
    ensures
        first_fault(entries) == first_fault(entries.take(count)),
    decreases entries.len() - count,
{
    if count < entries.len() {
        assert(entries.take(count + 1).drop_last() =~= entries.take(count));
        lemma_fault_of_prefix(entries, count + 1);
    } else {
        assert(entries.take(count) =~= entries);
    }
}

/// An error among the first entries read is the error of reading them all.
proof fn lemma_error_of_prefix(entries: Seq<WireEntry>, count: int)
    requires
        0 <= count <= entries.len(),
        entries_from_wire(entries.take(count)).is_err(),
    ensures
        entries_from_wire(entries) == entries_from_wire(entries.take(count)),
    decreases entries.len() - count,
{
    if count < entries.len() {
        assert(entries.take(count + 1).drop_last() =~= entries.take(count));
        lemma_error_of_prefix(entries, count + 1);
    } else {
        assert(entries.take(count) =~= entries);
    }
}

/// The number that stands for a permission on the wire.
pub fn code_of(permission: OperatorPermission) -> (r: i32)
    ensures
        r == permission_code(permission),
        is_permission_code(r),
{
    match permission {
        OperatorPermission::Commit => 1,
    }
}

/// The permission that a number on the wire stands for, if it stands for one.
pub fn permission_from_code(code: i32) -> (r: Option<OperatorPermission>)
    ensures
        r == permission_of_code(code),
{
    if code == 1 {
        Some(OperatorPermission::Commit)
    } else {
        None
    }
}

/// Checks one entry and builds the protocol's entry from it.
fn encode_entry(entry: &Entry) -> (r: Result<operator::OperatorEntry, OperatorEncodeErrno>)
    ensures
        match r {
            Ok(built) => entry_fault(entry@).is_none() && entry_view(built) == entry_to_wire(
                entry@,
            ),
            Err(e) => entry_fault(entry@) == Some(e),
        },
{
    match entry {
        Entry::OperatorInit(init) => {
            let algorithm = match parse_algorithm(init.hash_algorithm.as_str()) {
                Some(algorithm) => algorithm,
                None => {
                    return Err(OperatorEncodeErrno::UnsupportedHashAlgorithm);
                },
            };
            let key = match parse_key(init.key.as_str()) {
                Some(key) => key,
                None => {
                    return Err(OperatorEncodeErrno::PublicKeyParseFailure);
                },
            };
            Ok(init_entry(algorithm, key))
        },
        Entry::OperatorGrantFlat(grant) => {
            let key = match parse_key(grant.key.as_str()) {
                Some(key) => key,
                None => {
                    return Err(OperatorEncodeErrno::PublicKeyParseFailure);
                },
            };
            Ok(grant_entry(key, code_of(grant.permission)))
        },
        Entry::OperatorRevokeFlat(revoke) => {
            Ok(revoke_entry(revoke.key.clone(), code_of(revoke.permission)))
        },
    }
}

/// Encodes a record to its canonical bytes and derives its identifier.
///
/// The texts of the record are checked in this order: the link to the
/// previous record, then each entry in turn, of an init entry the hash
/// algorithm before the key. The first text that is not well formed decides
/// the error.
pub fn encode(rec: OperatorRecord) -> (r: Result<EncodedOperatorRecord, OperatorEncodeErrno>)
    requires
        rec.timestamp.is_canonical(),
    ensures
        match r {
            Ok(encoded) => encode_spec(rec@) == Ok::<EncodedView, OperatorEncodeErrno>(encoded@),
            Err(e) => encode_spec(rec@) == Err::<EncodedView, OperatorEncodeErrno>(e),
        },
        r matches Ok(encoded) ==> is_digest_text(encoded.record_id@),
{
    let ghost record = rec@;
    let ghost views = record.entries;
    let OperatorRecord { prev, version, timestamp, entries } = rec;
    let link = match prev {
        Some(text) => match parse_digest(text.as_str()) {
            Some(link) => Some(link),
            None => {
                return Err(OperatorEncodeErrno::PrevRecordIdInvalidFormat);
            },
        },
        None => None,
    };
    let mut built: Vec<operator::OperatorEntry> = Vec::with_capacity(entries.len());
    let mut done: usize = 0;
    while done < entries.len()
        invariant
            done <= entries.len(),
            views == entry_views(entries@),
            record == rec@,
            views == record.entries,
            record.prev matches Some(text) ==> is_digest_text(text),
            link_text(link) == record.prev,
            first_fault(views.take(done as int)).is_none(),
            built@.len() == done,
            forall|i: int| 0 <= i < done ==> entry_view(#[trigger] built@[i]) == entry_to_wire(views[i]),
        decreases entries.len() - done,
    {
        assert(views.take(done + 1).drop_last() =~= views.take(done as int));
        assert(views.take(done + 1).last() == entries@[done as int]@);
        match encode_entry(&entries[done]) {
            Ok(entry) => {
                built.push(entry);
            },
            Err(e) => {
                proof {
                    lemma_fault_of_prefix(views, done + 1);
                }
                return Err(e);
            },
        }
        done += 1;
    }
    assert(views.take(done as int) =~= views);
    assert(wire_entries(built@) =~= record_to_wire(record).entries);
    let seconds: u64 = timestamp.seconds as u64;
    let nanos: u32 = timestamp.nanos as u32;
    let content_bytes = encode_record(link, version, seconds, nanos, built);
    let record_id = digest_text("WARG-OPERATOR-LOG-RECORD-V0:", content_bytes.as_slice());
    Ok(EncodedOperatorRecord { content_bytes, record_id })
}

/// Reads the one permission of an entry of the protocol.
fn decode_permission(codes: &Vec<i32>) -> (r: Result<OperatorPermission, OperatorDecodeErrno>)
    ensures
        r == single_permission(codes@),
{
    if codes.len() != 1 {
        return Err(OperatorDecodeErrno::FailedToDecode);
    }
    match permission_from_code(codes[0]) {
        Some(permission) => Ok(permission),
        None => Err(OperatorDecodeErrno::UnknownOperatorPermission),
    }
}

/// Reads an entry of the protocol, given as plain values, as an entry of
/// this model.
pub fn entry_from_raw(entry: RawEntry) -> (r: Result<Entry, OperatorDecodeErrno>)
    ensures
        match r {
            Ok(read) => entry_from_wire(entry@) == Ok::<EntryView, OperatorDecodeErrno>(read@),
            Err(e) => entry_from_wire(entry@) == Err::<EntryView, OperatorDecodeErrno>(e),
        },
{
    match entry {
        RawEntry::Init { hash_algorithm, key } => Ok(
            Entry::OperatorInit(OperatorInit { hash_algorithm, key }),
        ),
        RawEntry::GrantFlat { key, permissions } => match decode_permission(&permissions) {
            Ok(permission) => Ok(Entry::OperatorGrantFlat(OperatorGrantFlat { key, permission })),
            Err(e) => Err(e),
        },
        RawEntry::RevokeFlat { key_id, permissions } => match decode_permission(&permissions) {
            Ok(permission) => Ok(
                Entry::OperatorRevokeFlat(OperatorRevokeFlat { key: key_id, permission }),
            ),
            Err(e) => Err(e),
        },
        RawEntry::Other => Err(OperatorDecodeErrno::UnknownOperatorEntry),
    }
}

/// Reads a record of the protocol, as its decoder gave it, as a record of
/// this model: the time first, then the entries in their order.
pub fn record_from_raw(raw: RawRecord) -> (r: Result<OperatorRecord, OperatorDecodeErrno>)
    ensures
        match r {
            Ok(record) => record_from_wire(raw@) == Ok::<RecordView, OperatorDecodeErrno>(
                record@,
            ),
            Err(e) => record_from_wire(raw@) == Err::<RecordView, OperatorDecodeErrno>(e),
        },
{
    let ghost wire = raw@;
    let RawRecord { prev, version, time, entries: raw_entries } = raw;
    let elapsed = match time {
        Some(elapsed) => elapsed,
        None => {
            return Err(OperatorDecodeErrno::FailedToDecode);
        },
    };
    let seconds: u64 = elapsed.0;
    let nanos: u32 = elapsed.1;
    if seconds > i64::MAX as u64 || nanos >= 1_000_000_000 {
        return Err(OperatorDecodeErrno::FailedToDecode);
    }
    let mut entries: Vec<Entry> = Vec::with_capacity(raw_entries.len());
    let mut done: usize = 0;
    assert(entry_views(entries@) =~= Seq::empty());
    while done < raw_entries.len()
        invariant
            done <= raw_entries.len(),
            wire == raw@,
            wire.time == Some((seconds, nanos)),
            seconds <= i64::MAX,
            nanos < 1_000_000_000,
            wire.entries == wire_entries(raw_entries@),
            entries_from_wire(wire.entries.take(done as int)) == Ok::<
                Seq<EntryView>,
                OperatorDecodeErrno,
            >(entry_views(entries@)),
        decreases raw_entries.len() - done,
    {
        assert(wire.entries.take(done + 1).drop_last() =~= wire.entries.take(done as int));
        assert(wire.entries.take(done + 1).last() == entry_view(raw_entries@[done as int]));
        match entry_from_raw(read_entry(&raw_entries[done])) {
            Ok(entry) => {
                let ghost before = entry_views(entries@);
                entries.push(entry);
                assert(entry_views(entries@) =~= before.push(entry@));
            },
            Err(e) => {
                proof {
                    lemma_error_of_prefix(wire.entries, done + 1);
                }
                return Err(e);
            },
        }
        done += 1;
    }
    assert(wire.entries.take(done as int) =~= wire.entries);
    Ok(
        OperatorRecord {
            prev,
            version,
            timestamp: Timestamp { seconds: seconds as i64, nanos: nanos as i32 },
            entries,
        },
    )
}

/// Decodes a record from a slice of bytes.
pub fn decode_slice(bytes: &[u8]) -> (r: Result<OperatorRecord, OperatorDecodeErrno>)
    ensures
        match r {
            Ok(record) => decode_spec(bytes@) == Ok::<RecordView, OperatorDecodeErrno>(record@),
            Err(e) => decode_spec(bytes@) == Err::<RecordView, OperatorDecodeErrno>(e),
        },
{
    match read_record(bytes) {
        Some(raw) => record_from_raw(raw),
        None => Err(OperatorDecodeErrno::FailedToDecode),
    }
}

/// Decodes a record from its bytes.
///
/// The bytes must be a record of the protocol, its time must lie at or after
/// the epoch, and each of its entries must be of a kind, and carry a
/// permission, that this model has. The entries are read in their order, and
/// the first that cannot be read decides the error.
pub fn decode(bytes: Vec<u8>) -> (r: Result<OperatorRecord, OperatorDecodeErrno>)
    ensures
        match r {
            Ok(record) => decode_spec(bytes@) == Ok::<RecordView, OperatorDecodeErrno>(record@),
            Err(e) => decode_spec(bytes@) == Err::<RecordView, OperatorDecodeErrno>(e),
        },
{
    decode_slice(bytes.as_slice())
}

/// A type whose values can be read from bytes.
pub trait Decode: Sized + View {
    /// What the bytes stand for: the view of a value, or the reason for
    /// which they stand for none.
    spec fn decoding(bytes: Seq<u8>) -> Result<Self::V, OperatorDecodeErrno>;

    /// Reads a value from bytes.
    fn decode(bytes: &[u8]) -> (r: Result<Self, OperatorDecodeErrno>)
        ensures
            match r {
                Ok(value) => Self::decoding(bytes@) == Ok::<Self::V, OperatorDecodeErrno>(value@),
                Err(e) => Self::decoding(bytes@) == Err::<Self::V, OperatorDecodeErrno>(e),
            },
    ;
}

impl Decode for OperatorRecord {
    open spec fn decoding(bytes: Seq<u8>) -> Result<RecordView, OperatorDecodeErrno> {
        decode_spec(bytes)
    }

    fn decode(bytes: &[u8]) -> (r: Result<OperatorRecord, OperatorDecodeErrno>) {
        decode_slice(bytes)
    }
}

} // verus!
