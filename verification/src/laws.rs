//! What holds of the codec and of the log whatever the record: the laws that
//! relate encoding to decoding and a submitted record to the head of the log.
//!
//! A law about the log speaks of an envelope that holds a record: one whose
//! signature parses and whose content decodes. Any other envelope is refused
//! before the log is looked at.

use vstd::prelude::*;
use warg_protocol::operator;
use crate::codec::{
    decode_spec, encode_spec, entries_from_wire, entries_to_wire, entry_from_wire, first_fault,
    record_to_wire,
};
use crate::errors::{OperatorDecodeErrno, ValidationErrorView};
use crate::log::{admits, append_spec};
use crate::model::{EntryView, EnvelopeView, RecordView};
use crate::warg::{
    canonical_key, earlier, is_digest_text, log_head, protocol_decode,
    protocol_encode, record_id_text, signature_parse_error, WireRecord,
};

verus! {

/// An entry in canonical form: encoding takes it, and its texts are those
/// that decoding gives back. A key is in its canonical text.
pub open spec fn is_canonical_entry(entry: EntryView) -> bool {
    match entry {
        EntryView::Init { hash_algorithm, key } => {
            hash_algorithm == "sha256"@ && canonical_key(key) == Some(key)
        },
        EntryView::GrantFlat { key, permission } => canonical_key(key) == Some(key),
        EntryView::RevokeFlat { key_id, permission } => true,
    }
}

/// A record in canonical form: its time is canonical, its link, if it has
/// one, is a digest text, and its entries are in canonical form.
pub open spec fn is_canonical_record(record: RecordView) -> bool {
    &&& record.timestamp.is_canonical()
    &&& record.prev matches Some(prev) ==> is_digest_text(prev)
    &&& forall|i: int| 0 <= i < record.entries.len() ==> is_canonical_entry(#[trigger] record.entries[i])
}

/// The protocol reads back what it wrote for a record.
pub open spec fn reads_back(record: WireRecord) -> bool {
    protocol_decode(protocol_encode(record)) == Some(record)
}

/// The envelope holds a record, and this is the record.
pub open spec fn holds_record(envelope: EnvelopeView, record: WireRecord) -> bool {
    signature_parse_error(envelope.signature).is_none() && protocol_decode(envelope.content_bytes)
        == Some(record)
}

proof fn lemma_canonical_entries_have_no_fault(entries: Seq<EntryView>)
    requires
        forall|i: int| 0 <= i < entries.len() ==> is_canonical_entry(#[trigger] entries[i]),
    ensures
        first_fault(entries).is_none(),
    decreases entries.len(),
{
    if entries.len() > 0 {
        lemma_canonical_entries_have_no_fault(entries.drop_last());
        assert(is_canonical_entry(entries[entries.len() - 1]));
    }
}

proof fn lemma_canonical_entries_read_back(entries: Seq<EntryView>)
    requires
        forall|i: int| 0 <= i < entries.len() ==> is_canonical_entry(#[trigger] entries[i]),
    ensures
        entries_from_wire(entries_to_wire(entries)) == Ok::<Seq<EntryView>, OperatorDecodeErrno>(
            entries,
        ),
    decreases entries.len(),
{
    let wire = entries_to_wire(entries);
    if entries.len() == 0 {
        assert(entries =~= Seq::empty());
    } else {
        let front = entries.drop_last();
        lemma_canonical_entries_read_back(front);
        assert(wire.drop_last() =~= entries_to_wire(front));
        assert(is_canonical_entry(entries[entries.len() - 1]));
        assert(entry_from_wire(wire.last()) == Ok::<EntryView, OperatorDecodeErrno>(
            entries.last(),
        ));
        assert(front.push(entries.last()) =~= entries);
    }
}

/// Round trip: a record in canonical form is encoded without error, and
/// decoding the bytes gives the record back, provided that the protocol
/// reads back what it wrote for it.
pub proof fn round_trip(record: RecordView)
    ensures
        is_canonical_record(record) && reads_back(record_to_wire(record)) ==> {
            &&& encode_spec(record) matches Ok(encoded)
            &&& decode_spec(encoded.content_bytes) == Ok::<RecordView, OperatorDecodeErrno>(record)
        },
{
    if is_canonical_record(record) && reads_back(record_to_wire(record)) {
        lemma_canonical_entries_have_no_fault(record.entries);
        lemma_canonical_entries_read_back(record.entries);
        let read = decode_spec(protocol_encode(record_to_wire(record)));
        assert(read matches Ok(back) && back.entries =~= record.entries);
    }
}

/// Whatever decoding gives has a canonical time, so that it can be encoded
/// again.
pub proof fn decoded_time_is_canonical(bytes: Seq<u8>)
    ensures
        decode_spec(bytes) matches Ok(record) ==> record.timestamp.is_canonical(),
{
}

/// Submitting the envelope to a log in the given state is refused with the
/// given error.
pub open spec fn refused_with(
    state: operator::LogState,
    envelope: EnvelopeView,
    error: ValidationErrorView,
) -> bool {
    append_spec(state, envelope) == Err::<(operator::LogState, Seq<char>), ValidationErrorView>(
        error,
    )
}

/// The links of a record and a log agree: both are absent, or the record
/// names the head.
pub open spec fn links(state: operator::LogState, record: WireRecord) -> bool {
    match log_head(state) {
        None => record.prev.is_none(),
        Some(head) => record.prev == Some(head.digest),
    }
}

/// The time of the record lies before that of the head of the log, both
/// counted from the epoch.
pub open spec fn runs_backwards(state: operator::LogState, record: WireRecord) -> bool {
    &&& log_head(state) matches Some(head)
    &&& head.time matches Some(before)
    &&& record.time matches Some(now)
    &&& earlier(now, before)
}

/// An envelope that holds no record is refused: with the reason of the
/// signature parser where the signature is malformed, else as content that
/// cannot be decoded.
pub proof fn envelope_must_hold_a_record(state: operator::LogState, envelope: EnvelopeView)
    ensures
        signature_parse_error(envelope.signature) matches Some(why) ==> refused_with(
            state,
            envelope,
            ValidationErrorView::SignatureParseFailure(why),
        ),
        signature_parse_error(envelope.signature).is_none() && protocol_decode(
            envelope.content_bytes,
        ).is_none() ==> refused_with(
            state,
            envelope,
            ValidationErrorView::FailedToDecodeOperatorRecord,
        ),
{
}

/// A record that names a previous one is refused by a log that has admitted
/// none, and the error is `PreviousHashOnFirstRecord`.
pub proof fn first_record_must_not_link(
    state: operator::LogState,
    envelope: EnvelopeView,
    record: WireRecord,
)
    ensures
        holds_record(envelope, record) && log_head(state).is_none() && record.prev.is_some()
            ==> refused_with(state, envelope, ValidationErrorView::PreviousHashOnFirstRecord),
{
}

/// A record that names no previous one is refused by a log that has admitted
/// a record, and the error is `NoPreviousHashAfterInit`.
pub proof fn later_record_must_link(
    state: operator::LogState,
    envelope: EnvelopeView,
    record: WireRecord,
)
    ensures
        holds_record(envelope, record) && log_head(state).is_some() && record.prev.is_none()
            ==> refused_with(state, envelope, ValidationErrorView::NoPreviousHashAfterInit),
{
}

/// Chain integrity: a record whose link is not the identifier of the head is
/// refused, and the error is `RecordHashDoesNotMatch`.
pub proof fn link_must_name_the_head(
    state: operator::LogState,
    envelope: EnvelopeView,
    record: WireRecord,
)
    ensures
        holds_record(envelope, record) && log_head(state).is_some() && record.prev.is_some()
            && !links(state, record) ==> refused_with(
            state,
            envelope,
            ValidationErrorView::RecordHashDoesNotMatch,
        ),
{
}

/// A record of another version than `0` is refused; where its link agrees
/// with the log, the error is `ProtocolVersionNotAllowed` with the version.
pub proof fn version_must_be_supported(
    state: operator::LogState,
    envelope: EnvelopeView,
    record: WireRecord,
)
    ensures
        holds_record(envelope, record) && record.version != 0 ==> append_spec(
            state,
            envelope,
        ).is_err(),
        holds_record(envelope, record) && record.version != 0 && links(state, record)
            ==> refused_with(
            state,
            envelope,
            ValidationErrorView::ProtocolVersionNotAllowed(record.version),
        ),
{
}

/// Monotonic time: a record whose time lies before that of the head is
/// refused; where its link and its version are in order, the error is
/// `TimestampLowerThanPrevious`.
pub proof fn time_must_not_run_backwards(
    state: operator::LogState,
    envelope: EnvelopeView,
    record: WireRecord,
)
    ensures
        holds_record(envelope, record) && runs_backwards(state, record) ==> append_spec(
            state,
            envelope,
        ).is_err(),
        holds_record(envelope, record) && runs_backwards(state, record) && links(state, record)
            && record.version == 0 ==> refused_with(
            state,
            envelope,
            ValidationErrorView::TimestampLowerThanPrevious,
        ),
{
}

/// Where a record is admitted, its link agrees with the log, its version is
/// `0`, and its time does not lie before that of the head.
pub proof fn admitted_record_follows_the_head(
    state: operator::LogState,
    envelope: EnvelopeView,
    record: WireRecord,
)
    ensures
        holds_record(envelope, record) && append_spec(state, envelope).is_ok() ==> {
            &&& links(state, record)
            &&& record.version == 0
            &&& !runs_backwards(state, record)
        },
{
}

/// The identifier under which a log admits a record is the identifier that
/// encoding derived for it.
pub proof fn head_is_the_encoded_id(
    state: operator::LogState,
    envelope: EnvelopeView,
    record: RecordView,
)
    ensures
        encode_spec(record).is_ok() && append_spec(state, envelope).is_ok() && encode_spec(
            record,
        )->Ok_0.content_bytes == envelope.content_bytes ==> append_spec(state, envelope)->Ok_0.1
            == encode_spec(record)->Ok_0.record_id,
{
}

/// A run of a log: the states that it went through and the envelopes that
/// took it from each state to the next.
pub open spec fn is_run(states: Seq<operator::LogState>, envelopes: Seq<EnvelopeView>) -> bool {
    &&& states.len() == envelopes.len() + 1
    &&& forall|i: int|
        0 <= i < envelopes.len() ==> admits(states[i], #[trigger] envelopes[i], states[i + 1])
}

/// The record that an envelope of a run holds.
pub open spec fn record_at(envelopes: Seq<EnvelopeView>, i: int) -> WireRecord {
    protocol_decode(envelopes[i].content_bytes).unwrap()
}

/// Along a run every record but the first names the record before it.
pub proof fn run_is_chained(
    states: Seq<operator::LogState>,
    envelopes: Seq<EnvelopeView>,
    i: int,
)
    ensures
        is_run(states, envelopes) && 0 < i < envelopes.len() ==> record_at(envelopes, i).prev
            == Some(record_id_text(envelopes[i - 1].content_bytes)),
{
    if is_run(states, envelopes) && 0 < i < envelopes.len() {
        assert(admits(states[i - 1], envelopes[i - 1], states[i]));
        assert(admits(states[i], envelopes[i], states[i + 1]));
    }
}

/// Monotonic time: along a run no record is earlier than the record before
/// it, both times counted from the epoch.
pub proof fn run_keeps_time(
    states: Seq<operator::LogState>,
    envelopes: Seq<EnvelopeView>,
    i: int,
    now: (u64, u32),
    before: (u64, u32),
)
    ensures
        is_run(states, envelopes) && 0 < i < envelopes.len() && record_at(envelopes, i).time
            == Some(now) && record_at(envelopes, i - 1).time == Some(before) ==> !earlier(
            now,
            before,
        ),
{
    if is_run(states, envelopes) && 0 < i < envelopes.len() {
        assert(admits(states[i - 1], envelopes[i - 1], states[i]));
        assert(admits(states[i], envelopes[i], states[i + 1]));
    }
}

/// A run that starts from a log without head starts with a record without
/// link, and every record of a run is of version `0`.
pub proof fn run_starts_unlinked(
    states: Seq<operator::LogState>,
    envelopes: Seq<EnvelopeView>,
    i: int,
)
    ensures
        is_run(states, envelopes) && 0 <= i < envelopes.len() ==> record_at(envelopes, i).version
            == 0,
        is_run(states, envelopes) && 0 < envelopes.len() && log_head(states[0]).is_none()
            ==> record_at(envelopes, 0).prev.is_none(),
{
    if is_run(states, envelopes) && 0 <= i < envelopes.len() {
        assert(admits(states[i], envelopes[i], states[i + 1]));
    }
    if is_run(states, envelopes) && 0 < envelopes.len() {
        assert(admits(states[0], envelopes[0], states[1]));
    }
}

/// Init placement: a run that starts from a log without head starts with an
/// init entry, and no other entry of the run is one.
pub proof fn run_is_founded_once(
    states: Seq<operator::LogState>,
    envelopes: Seq<EnvelopeView>,
    i: int,
    j: int,
)
    ensures
        is_run(states, envelopes) && 0 < envelopes.len() && log_head(states[0]).is_none() ==> {
            &&& record_at(envelopes, 0).entries.len() > 0
            &&& record_at(envelopes, 0).entries[0] is Init
        },
        is_run(states, envelopes) && log_head(states[0]).is_none() && 0 <= i < envelopes.len()
            && 0 <= j < record_at(envelopes, i).entries.len() && (i > 0 || j > 0) ==> !(record_at(
            envelopes,
            i,
        ).entries[j] is Init),
{
    if is_run(states, envelopes) && 0 < envelopes.len() {
        assert(admits(states[0], envelopes[0], states[1]));
    }
    if is_run(states, envelopes) && 0 < i < envelopes.len() {
        assert(admits(states[i - 1], envelopes[i - 1], states[i]));
        assert(admits(states[i], envelopes[i], states[i + 1]));
    }
}


} // verus!
