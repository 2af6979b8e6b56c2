//! The calls into the warg crates, which implement the operator log
//! protocol, and the model under which the rest of this crate reasons about
//! them.
//!
//! Nothing in this file is proved: Verus takes every contract here as given.
//! Each doc comment names the function that is called and says what is
//! claimed of it.

use vstd::prelude::*;
use vstd::string::StringSliceAdditionalSpecFns;
use std::str::FromStr;
use std::time::{Duration, UNIX_EPOCH};
use prost::Message;
use warg_crypto::hash::{AnyHash, HashAlgorithm, Sha256};
use warg_crypto::signing::{PublicKey, Signature};
use warg_crypto::{Encode, Signable};
use warg_protocol::{operator, ProtoEnvelope};
use warg_protocol::operator::ValidationError;
use warg_protocol::registry::{LogId, RecordId};
use crate::model::text_view;

verus! {

/// `warg_protocol::operator::LogState`: the permissions, the keys and the
/// head of one operator log.
#[verifier::external_type_specification]
#[verifier::external_body]
pub struct ExLogState(operator::LogState);

/// `warg_protocol::operator::ValidationError`: why a record was refused.
#[verifier::external_type_specification]
#[verifier::external_body]
pub struct ExValidationError(operator::ValidationError);

/// `warg_protocol::operator::OperatorEntry`: one entry of a record, with its
/// keys parsed.
#[verifier::external_type_specification]
#[verifier::external_body]
pub struct ExOperatorEntry(operator::OperatorEntry);

/// `warg_crypto::signing::PublicKey`: a public key that has been parsed.
#[verifier::external_type_specification]
#[verifier::external_body]
pub struct ExPublicKey(PublicKey);

/// `warg_crypto::hash::AnyHash`: a digest with its algorithm.
#[verifier::external_type_specification]
#[verifier::external_body]
pub struct ExAnyHash(AnyHash);

/// `warg_crypto::hash::HashAlgorithm`: a hash algorithm that is implemented.
#[verifier::external_type_specification]
#[verifier::external_body]
pub struct ExHashAlgorithm(HashAlgorithm);

/// What an `operator::OperatorEntry` holds, every field in its text form and
/// every permission as the number that stands for it on the wire.
pub enum WireEntry {
    Init { hash_algorithm: Seq<char>, key: Seq<char> },
    GrantFlat { key: Seq<char>, permissions: Seq<i32> },
    RevokeFlat { key_id: Seq<char>, permissions: Seq<i32> },
    /// A variant that a later version of the protocol may add.
    Other,
}

/// What an `operator::OperatorRecord` holds. `time` is the time of the record
/// as seconds and nanoseconds since the Unix epoch, `None` for a time before
/// the epoch.
pub struct WireRecord {
    pub prev: Option<Seq<char>>,
    pub version: u32,
    pub time: Option<(u64, u32)>,
    pub entries: Seq<WireEntry>,
}

/// An entry as plain values.
pub enum RawEntry {
    Init { hash_algorithm: String, key: String },
    GrantFlat { key: String, permissions: Vec<i32> },
    RevokeFlat { key_id: String, permissions: Vec<i32> },
    Other,
}

impl View for RawEntry {
    type V = WireEntry;

    open spec fn view(&self) -> WireEntry {
        match *self {
            RawEntry::Init { hash_algorithm, key } => WireEntry::Init {
                hash_algorithm: hash_algorithm@,
                key: key@,
            },
            RawEntry::GrantFlat { key, permissions } => WireEntry::GrantFlat {
                key: key@,
                permissions: permissions@,
            },
            RawEntry::RevokeFlat { key_id, permissions } => WireEntry::RevokeFlat {
                key_id: key_id@,
                permissions: permissions@,
            },
            RawEntry::Other => WireEntry::Other,
        }
    }
}

/// A decoded record: its fields as plain values, its entries as they came.
pub struct RawRecord {
    pub prev: Option<String>,
    pub version: u32,
    pub time: Option<(u64, u32)>,
    pub entries: Vec<operator::OperatorEntry>,
}

/// What the entries of a sequence hold, in their order.
pub open spec fn wire_entries(entries: Seq<operator::OperatorEntry>) -> Seq<WireEntry> {
    Seq::new(entries.len(), |i: int| entry_view(entries[i]))
}

impl View for RawRecord {
    type V = WireRecord;

    open spec fn view(&self) -> WireRecord {
        WireRecord {
            prev: text_view(self.prev),
            version: self.version,
            time: self.time,
            entries: wire_entries(self.entries@),
        }
    }
}

/// What the head of a log holds: the identifier of the record that was
/// admitted last, and the time of that record, read as the time of a
/// `WireRecord` is.
pub struct HeadView {
    pub digest: Seq<char>,
    pub time: Option<(u64, u32)>,
}

/// The head of a log as plain values.
pub struct RawHead {
    pub digest: String,
    pub time: Option<(u64, u32)>,
}

impl View for RawHead {
    type V = HeadView;

    open spec fn view(&self) -> HeadView {
        HeadView { digest: self.digest@, time: self.time }
    }
}

/// The view of a head that may be absent.
pub open spec fn head_view(head: Option<RawHead>) -> Option<HeadView> {
    match head {
        Some(h) => Some(h@),
        None => None,
    }
}

/// The reasons for which `LogState::validate` refuses a record.
#[derive(Clone, Copy, Debug, PartialEq, Eq)]
pub enum RefusalKind {
    FirstEntryIsNotInit,
    InitialRecordDoesNotInit,
    KeyIdNotRecognized,
    InitialEntryAfterBeginning,
    UnauthorizedAction,
    PermissionNotFoundToRevoke,
    SignatureError,
    IncorrectHashAlgorithm,
    RecordHashDoesNotMatch,
    PreviousHashOnFirstRecord,
    NoPreviousHashAfterInit,
    ProtocolVersionNotAllowed,
    TimestampLowerThanPrevious,
}

/// What a refusal carries besides its kind. A field that the kind does not
/// have is empty or zero.
#[derive(Clone, Debug, Default)]
pub struct RefusalFields {
    pub key_id: String,
    pub permission: i32,
    pub found: String,
    pub expected: String,
    pub version: u32,
}

/// A refusal of `LogState::validate` as plain values.
pub struct Refusal {
    pub kind: RefusalKind,
    pub key_id: Seq<char>,
    pub permission: i32,
    pub found: Seq<char>,
    pub expected: Seq<char>,
    pub version: u32,
}

/// A refusal put together from its kind and its fields.
pub open spec fn refusal_from(kind: RefusalKind, fields: RefusalFields) -> Refusal {
    Refusal {
        kind,
        key_id: fields.key_id@,
        permission: fields.permission,
        found: fields.found@,
        expected: fields.expected@,
        version: fields.version,
    }
}

/// The text of the reason for which `Signature::from_str` refuses a text,
/// `None` where it accepts it.
pub uninterp spec fn signature_parse_error(text: Seq<char>) -> Option<Seq<char>>;

/// The text that `PublicKey::from_str` followed by `to_string` makes of a
/// text, `None` where the text is no public key.
pub uninterp spec fn canonical_key(text: Seq<char>) -> Option<Seq<char>>;

/// The text form of a public key, as `to_string` gives it.
pub uninterp spec fn key_text(key: PublicKey) -> Seq<char>;

/// The text form of a digest, as `to_string` gives it.
pub uninterp spec fn hash_text(hash: AnyHash) -> Seq<char>;

/// The name of a hash algorithm, as `to_string` gives it.
pub uninterp spec fn algorithm_text(algorithm: HashAlgorithm) -> Seq<char>;

/// The text form of the SHA-256 digest of some bytes: the name of the
/// algorithm, a colon, and the digest in hexadecimal digits.
pub uninterp spec fn sha256_text(data: Seq<u8>) -> Seq<char>;

/// The record that `OperatorRecord::decode` reads from some bytes, `None`
/// where it refuses them.
pub uninterp spec fn protocol_decode(bytes: Seq<u8>) -> Option<WireRecord>;

/// The bytes that `OperatorRecord::encode` writes for a record.
pub uninterp spec fn protocol_encode(record: WireRecord) -> Seq<u8>;

/// What an entry holds.
pub uninterp spec fn entry_view(entry: operator::OperatorEntry) -> WireEntry;

/// What a refusal holds.
pub uninterp spec fn refusal_view(error: operator::ValidationError) -> Refusal;

/// The head of a log, `None` for a log that has admitted no record.
pub uninterp spec fn log_head(state: operator::LogState) -> Option<HeadView>;

/// Whether a log is founded: whether an init entry has fixed its hash
/// algorithm.
pub uninterp spec fn log_is_founded(state: operator::LogState) -> bool;

/// What `LogState::validate` decides on a state and the three parts of an
/// envelope whose content decodes and whose signature parses: the state after
/// the record was admitted, or the refusal.
pub uninterp spec fn validation(
    state: operator::LogState,
    content: Seq<u8>,
    key_id: Seq<char>,
    signature: Seq<char>,
) -> Result<operator::LogState, Refusal>;

/// A digit of a digest in text form.
pub open spec fn is_hex_digit(c: char) -> bool {
    ('0' <= c && c <= '9') || ('a' <= c && c <= 'f')
}

/// The texts that `AnyHash::from_str` accepts: `sha256:` and then an even
/// number of hexadecimal digits, none of them an upper-case letter.
pub open spec fn is_digest_text(text: Seq<char>) -> bool {
    &&& text.len() >= 7
    &&& text.subrange(0, 7) == "sha256:"@
    &&& (text.len() - 7) % 2 == 0
    &&& forall|i: int| 7 <= i < text.len() ==> is_hex_digit(#[trigger] text[i])
}

/// The numbers that stand for a permission on the wire. `1` is the permission
/// to commit; `0` means that none was given, and no other number is in use.
pub open spec fn is_permission_code(code: i32) -> bool {
    code == 1
}

/// The identifier of the record with the given bytes: the digest of a fixed
/// label followed by the bytes, as `RecordId::operator_record` computes it.
pub open spec fn record_id_text(content: Seq<u8>) -> Seq<char> {
    sha256_text("WARG-OPERATOR-LOG-RECORD-V0:".spec_bytes() + content)
}

/// The text form of a digest that may be absent.
pub open spec fn link_text(link: Option<AnyHash>) -> Option<Seq<char>> {
    match link {
        Some(hash) => Some(hash_text(hash)),
        None => None,
    }
}

/// The record that `encode_record` builds from its arguments.
pub open spec fn built_record(
    prev: Option<Seq<char>>,
    version: u32,
    seconds: u64,
    nanos: u32,
    entries: Seq<operator::OperatorEntry>,
) -> WireRecord {
    WireRecord { prev, version, time: Some((seconds, nanos)), entries: wire_entries(entries) }
}

/// The envelopes that `ProtoEnvelope::from_protobuf` accepts: the content
/// decodes as a record and the signature parses.
pub open spec fn opens(content: Seq<u8>, signature: Seq<char>) -> bool {
    protocol_decode(content).is_some() && signature_parse_error(signature).is_none()
}

/// One time since the epoch lies before another.
pub open spec fn earlier(a: (u64, u32), b: (u64, u32)) -> bool {
    a.0 < b.0 || (a.0 == b.0 && a.1 < b.1)
}

/// The refusals that `LogState::validate` decides before it looks at the
/// entries, the signer or the signature: those of its `validate_record_hash`,
/// `validate_record_version` and `validate_record_timestamp`, in this order.
/// A first record must have no link; a later one must link to the head; the
/// version must be `0`; the time must not lie before that of the head. `None`
/// says that none of them applies, or that a time before the epoch is in
/// play, of which nothing is said here.
pub open spec fn early_refusal(head: Option<HeadView>, record: WireRecord) -> Option<RefusalKind> {
    if head.is_none() && record.prev.is_some() {
        Some(RefusalKind::PreviousHashOnFirstRecord)
    } else if head.is_some() && record.prev.is_none() {
        Some(RefusalKind::NoPreviousHashAfterInit)
    } else if head.is_some() && record.prev != Some(head.unwrap().digest) {
        Some(RefusalKind::RecordHashDoesNotMatch)
    } else if record.version != 0 {
        Some(RefusalKind::ProtocolVersionNotAllowed)
    } else if head.is_some() && head.unwrap().time.is_some() && record.time.is_some() && earlier(
        record.time.unwrap(),
        head.unwrap().time.unwrap(),
    ) {
        Some(RefusalKind::TimestampLowerThanPrevious)
    } else {
        None
    }
}

/// A verdict of `LogState::validate` on a state and the bytes of a record
/// agrees with `early_refusal`: where that names a refusal, the verdict is
/// this refusal, and a refused version is the version of the record.
pub open spec fn refuses_early(
    state: operator::LogState,
    content: Seq<u8>,
    verdict: Result<operator::LogState, Refusal>,
) -> bool {
    let record = protocol_decode(content).unwrap();
    early_refusal(log_head(state), record) matches Some(kind) ==> {
        &&& verdict matches Err(failure)
        &&& failure.kind == kind
        &&& kind == RefusalKind::ProtocolVersionNotAllowed ==> failure.version == record.version
    }
}

/// The head of a log that has just admitted the record with the given bytes:
/// the identifier of the record and its time.
pub open spec fn admitted_head(content: Seq<u8>) -> HeadView {
    HeadView { digest: record_id_text(content), time: protocol_decode(content).unwrap().time }
}

/// The init entries of a record are where a log takes them: an init entry
/// "must be the first entry of every log and not appear elsewhere". For a log
/// that is not founded the first entry is an init entry and no other is; for
/// a founded log none is.
pub open spec fn init_in_place(founded: bool, entries: Seq<WireEntry>) -> bool {
    if founded {
        forall|i: int| 0 <= i < entries.len() ==> !(#[trigger] entries[i] is Init)
    } else {
        &&& entries.len() > 0
        &&& entries[0] is Init
        &&& forall|i: int| 0 < i < entries.len() ==> !(#[trigger] entries[i] is Init)
    }
}

/// What holds where `LogState::validate` has admitted the record with the
/// given bytes: the init entries of the record were in place, the log is
/// founded, and its head is the admitted record.
pub open spec fn admitted(
    before: operator::LogState,
    content: Seq<u8>,
    after: operator::LogState,
) -> bool {
    &&& init_in_place(log_is_founded(before), protocol_decode(content).unwrap().entries)
    &&& log_is_founded(after)
    &&& log_head(after) == Some(admitted_head(content))
}

/// What a call of `LogState::validate` came to, over the state that it left.
pub open spec fn outcome_view(
    outcome: Result<(), operator::ValidationError>,
    state: operator::LogState,
) -> Result<operator::LogState, Refusal> {
    match outcome {
        Ok(_) => Ok(state),
        Err(error) => Err(refusal_view(error)),
    }
}

/// Calls `AnyHash::from_str`. It splits the text at the first colon, wants
/// `sha256` before it, and after it hexadecimal digits in pairs without
/// upper-case letters. `to_string` writes such a digest as the text that it
/// was read from.
#[verifier::external_body]
pub(crate) fn parse_digest(text: &str) -> (r: Option<AnyHash>)
    ensures
        r.is_some() == is_digest_text(text@),
        r matches Some(hash) ==> hash_text(hash) == text@,
{
    AnyHash::from_str(text).ok()
}

/// Calls `HashAlgorithm::from_str`. The only name that it accepts is
/// `sha256`, which is also the name that `to_string` gives.
#[verifier::external_body]
pub(crate) fn parse_algorithm(name: &str) -> (r: Option<HashAlgorithm>)
    ensures
        r.is_some() == (name@ == "sha256"@),
        r matches Some(algorithm) ==> algorithm_text(algorithm) == name@,
{
    HashAlgorithm::from_str(name).ok()
}

/// Calls `PublicKey::from_str`.
#[verifier::external_body]
pub(crate) fn parse_key(text: &str) -> (r: Option<PublicKey>)
    ensures
        match r {
            Some(key) => canonical_key(text@) == Some(key_text(key)),
            None => canonical_key(text@).is_none(),
        },
{
    PublicKey::from_str(text).ok()
}

/// Calls `Signature::from_str` and hands back the text of its error, if it
/// gave one.
#[verifier::external_body]
pub(crate) fn signature_fault(text: &str) -> (r: Option<String>)
    ensures
        text_view(r) == signature_parse_error(text@),
{
    Signature::from_str(text).err().map(|e| e.to_string())
}

/// Calls `Hash::<Sha256>::of` on a label followed by data and hands back the
/// digest in its text form. The text is one that `AnyHash::from_str` accepts.
#[verifier::external_body]
pub(crate) fn digest_text(label: &str, data: &[u8]) -> (r: String)
    ensures
        r@ == sha256_text(label.spec_bytes() + data@),
        is_digest_text(r@),
{
    AnyHash::from(warg_crypto::hash::Hash::<Sha256>::of((label, data))).to_string()
}

/// Calls `LogId::operator_log::<Sha256>`, which digests a fixed label, and
/// hands back the identifier in its text form.
#[verifier::external_body]
pub(crate) fn operator_log_id() -> (r: String)
    ensures
        r@ == sha256_text("WARG-OPERATOR-LOG-ID-V0".spec_bytes()),
{
    LogId::operator_log::<Sha256>().to_string()
}

/// Hands back `OperatorRecord::PREFIX`, the label that `Signable::sign` and
/// `Signable::verify` put, with a colon, before the bytes of a record.
#[verifier::external_body]
pub(crate) fn record_signing_prefix() -> (r: Vec<u8>)
    ensures
        r@ == "WARG-OPERATOR-RECORD-SIGNATURE-V0".spec_bytes(),
{
    <operator::OperatorRecord as Signable>::PREFIX.to_vec()
}

/// Builds an `OperatorEntry::Init`.
#[verifier::external_body]
pub(crate) fn init_entry(algorithm: HashAlgorithm, key: PublicKey) -> (r: operator::OperatorEntry)
    ensures
        entry_view(r) == (WireEntry::Init {
            hash_algorithm: algorithm_text(algorithm),
            key: key_text(key),
        }),
{
    operator::OperatorEntry::Init { hash_algorithm: algorithm, key }
}

/// Builds an `OperatorEntry::GrantFlat` with one permission, given as its
/// number on the wire, which `TryFrom<i32>` reads.
#[verifier::external_body]
pub(crate) fn grant_entry(key: PublicKey, code: i32) -> (r: operator::OperatorEntry)
    requires
        is_permission_code(code),
    ensures
        entry_view(r) == (WireEntry::GrantFlat { key: key_text(key), permissions: seq![code] }),
{
    operator::OperatorEntry::GrantFlat { key, permissions: vec![code.try_into().unwrap()] }
}

/// Builds an `OperatorEntry::RevokeFlat` with one permission, given as its
/// number on the wire, which `TryFrom<i32>` reads. A key identifier is any
/// text.
#[verifier::external_body]
pub(crate) fn revoke_entry(key_id: String, code: i32) -> (r: operator::OperatorEntry)
    requires
        is_permission_code(code),
    ensures
        entry_view(r) == (WireEntry::RevokeFlat { key_id: key_id@, permissions: seq![code] }),
{
    operator::OperatorEntry::RevokeFlat {
        key_id: key_id.into(),
        permissions: vec![code.try_into().unwrap()],
    }
}

/// Builds an `operator::OperatorRecord` and calls `Encode::encode` on it. The
/// time is the epoch plus the given seconds and nanoseconds, which a
/// `SystemTime` must be able to hold.
#[verifier::external_body]
pub(crate) fn encode_record(
    prev: Option<AnyHash>,
    version: u32,
    seconds: u64,
    nanos: u32,
    entries: Vec<operator::OperatorEntry>,
) -> (r: Vec<u8>)
    requires
        seconds <= i64::MAX,
        nanos < 1_000_000_000,
    ensures
        r@ == protocol_encode(built_record(link_text(prev), version, seconds, nanos, entries@)),
{
    let prev = prev.map(RecordId::from);
    let timestamp = UNIX_EPOCH + Duration::new(seconds, nanos);
    operator::OperatorRecord { prev, version, timestamp, entries }.encode()
}

/// Calls `OperatorRecord::decode` and hands back what the record holds: the
/// link in its text form, the version, the time as `duration_since` the epoch
/// gives it, and the entries.
#[verifier::external_body]
pub(crate) fn read_record(bytes: &[u8]) -> (r: Option<RawRecord>)
    ensures
        match r {
            Some(record) => protocol_decode(bytes@) == Some(record@),
            None => protocol_decode(bytes@).is_none(),
        },
{
    let record = <operator::OperatorRecord as warg_crypto::Decode>::decode(bytes).ok()?;
    let elapsed = record.timestamp.duration_since(UNIX_EPOCH).ok();
    Some(RawRecord {
        prev: record.prev.map(|p| p.to_string()),
        version: record.version,
        time: elapsed.map(|d| (d.as_secs(), d.subsec_nanos())),
        entries: record.entries,
    })
}

/// Tells the variants of `OperatorEntry` apart and hands back the fields of
/// the one at hand, each in its text form.
#[verifier::external_body]
pub(crate) fn read_entry(entry: &operator::OperatorEntry) -> (r: RawEntry)
    ensures
        r@ == entry_view(*entry),
{
    match entry {
        operator::OperatorEntry::Init { hash_algorithm, key } => {
            RawEntry::Init { hash_algorithm: hash_algorithm.to_string(), key: key.to_string() }
        },
        operator::OperatorEntry::GrantFlat { key, permissions } => {
            RawEntry::GrantFlat { key: key.to_string(), permissions: permissions.iter().map(i32::from).collect() }
        },
        operator::OperatorEntry::RevokeFlat { key_id, permissions } => {
            RawEntry::RevokeFlat { key_id: key_id.to_string(), permissions: permissions.iter().map(i32::from).collect() }
        },
        _ => RawEntry::Other,
    }
}

/// Calls `LogState::new`. A new log is not founded and has admitted no
/// record.
#[verifier::external_body]
pub(crate) fn new_state() -> (r: operator::LogState)
    ensures
        log_head(r).is_none(),
        !log_is_founded(r),
{
    operator::LogState::new()
}

/// Calls `LogState::clone`.
#[verifier::external_body]
pub(crate) fn clone_state(state: &operator::LogState) -> (r: operator::LogState)
    ensures
        r == *state,
{
    state.clone()
}

/// Calls `LogState::head` and hands back what the head holds: the digest in
/// its text form, and the time as `duration_since` the epoch gives it.
#[verifier::external_body]
pub(crate) fn read_head(state: &operator::LogState) -> (r: Option<RawHead>)
    ensures
        head_view(r) == log_head(*state),
{
    let head = state.head().as_ref()?;
    let elapsed = head.timestamp.duration_since(UNIX_EPOCH).ok();
    Some(RawHead {
        digest: head.digest.to_string(),
        time: elapsed.map(|d| (d.as_secs(), d.subsec_nanos())),
    })
}

/// Puts the three parts of an envelope into a `ProtoEnvelope` and calls
/// `LogState::validate` on it. The envelope is made by
/// `ProtoEnvelope::from_protobuf` from the bytes that `Envelope::encode_to_vec`
/// writes for the three parts.
///
/// The clauses claim, in their order:
/// - `from_protobuf` gives an envelope exactly where `OperatorRecord::decode`
///   takes the content and `Signature::from_str` takes the signature, which
///   are the calls that it makes;
/// - where it gives none, `validate` is not called, and the state is
///   untouched;
/// - the verdict of `validate` depends on the state and the envelope alone;
/// - `validate` begins with the checks of `early_refusal`;
/// - where `validate` admits the record, `admitted` holds.
///
/// Nothing is claimed of the state that a refusal leaves.
#[verifier::external_body]
pub(crate) fn validate_parts(
    state: &mut operator::LogState,
    content: Vec<u8>,
    key_id: String,
    signature: String,
) -> (r: Option<Result<(), operator::ValidationError>>)
    ensures
        r.is_some() <==> opens(content@, signature@),
        r.is_none() ==> *final(state) == *old(state),
        r matches Some(v) ==> validation(*old(state), content@, key_id@, signature@)
            == outcome_view(v, *final(state)),
        r matches Some(v) ==> refuses_early(*old(state), content@, outcome_view(v, *final(state))),
        r matches Some(Ok(_)) ==> admitted(*old(state), content@, *final(state)),
{
    let wire = warg_protobuf::protocol::Envelope { contents: content, key_id, signature };
    let envelope = ProtoEnvelope::from_protobuf(wire.encode_to_vec()).ok()?;
    Some(state.validate(&envelope))
}

/// Tells the variants of `ValidationError` apart.
#[verifier::external_body]
pub(crate) fn refusal_kind(error: &operator::ValidationError) -> (r: RefusalKind)
    ensures
        r == refusal_view(*error).kind,
{
    match error {
        ValidationError::FirstEntryIsNotInit => RefusalKind::FirstEntryIsNotInit,
        ValidationError::InitialRecordDoesNotInit => RefusalKind::InitialRecordDoesNotInit,
        ValidationError::KeyIDNotRecognized { .. } => RefusalKind::KeyIdNotRecognized,
        ValidationError::InitialEntryAfterBeginning => RefusalKind::InitialEntryAfterBeginning,
        ValidationError::UnauthorizedAction { .. } => RefusalKind::UnauthorizedAction,
        ValidationError::PermissionNotFoundToRevoke { .. } => RefusalKind::PermissionNotFoundToRevoke,
        ValidationError::SignatureError(_) => RefusalKind::SignatureError,
        ValidationError::IncorrectHashAlgorithm { .. } => RefusalKind::IncorrectHashAlgorithm,
        ValidationError::RecordHashDoesNotMatch => RefusalKind::RecordHashDoesNotMatch,
        ValidationError::PreviousHashOnFirstRecord => RefusalKind::PreviousHashOnFirstRecord,
        ValidationError::NoPreviousHashAfterInit => RefusalKind::NoPreviousHashAfterInit,
        ValidationError::ProtocolVersionNotAllowed { .. } => RefusalKind::ProtocolVersionNotAllowed,
        ValidationError::TimestampLowerThanPrevious => RefusalKind::TimestampLowerThanPrevious,
    }
}

/// Hands back the fields of a `ValidationError`: key identifiers and hash
/// algorithms in their text form, a permission as its number on the wire.
#[verifier::external_body]
pub(crate) fn refusal_fields(error: &operator::ValidationError) -> (r: RefusalFields)
    ensures
        refusal_from(refusal_view(*error).kind, r) == refusal_view(*error),
{
    let none = RefusalFields::default();
    match error {
        ValidationError::KeyIDNotRecognized { key_id } => RefusalFields { key_id: key_id.to_string(), ..none },
        ValidationError::UnauthorizedAction { key_id, needed_permission } => RefusalFields { key_id: key_id.to_string(), permission: needed_permission.into(), ..none },
        ValidationError::PermissionNotFoundToRevoke { key_id, permission } => RefusalFields { key_id: key_id.to_string(), permission: permission.into(), ..none },
        ValidationError::IncorrectHashAlgorithm { found, expected } => RefusalFields { found: found.to_string(), expected: expected.to_string(), ..none },
        ValidationError::ProtocolVersionNotAllowed { version } => RefusalFields { version: *version, ..none },
        _ => none,
    }
}

} // verus!
