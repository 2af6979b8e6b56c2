//! The log itself: the state of one operator log and the admission of
//! records to it.
//!
//! Whether a record is a legal next step is decided by `LogState::validate`
//! of warg-protocol. What stands here is the order in which an envelope is
//! examined, the error that each refusal gives, and the rule that a refused
//! record leaves no trace in the state.

use vstd::prelude::*;
use vstd::string::StringSliceAdditionalSpecFns;
use warg_protocol::operator;
use crate::codec::{permission_from_code, permission_of_code};
use crate::errors::{
    OperatorValidationError, UnauthorizedPermissionError, UnexpectedHashAlgorithm,
    ValidationErrorView,
};
use crate::model::{text_view, Envelope, EnvelopeView, Timestamp};
use crate::warg::{
    admitted_head, clone_state, early_refusal, init_in_place, log_head, log_is_founded, new_state,
    operator_log_id, protocol_decode, read_head, record_id_text, record_signing_prefix,
    refusal_fields, refusal_from, refusal_kind, sha256_text, signature_fault,
    signature_parse_error, validate_parts, validation, HeadView, Refusal, RefusalFields,
    RefusalKind,
};

verus! {

/// The identifier of the operator log as a kind of log: the digest of a fixed
/// label, the same for every operator log.
pub open spec fn log_id_text() -> Seq<char> {
    sha256_text("WARG-OPERATOR-LOG-ID-V0".spec_bytes())
}

/// The label that is put, with a colon, before the bytes of a record when
/// the record is signed, so that its signature holds of nothing else.
pub open spec fn signing_prefix_bytes() -> Seq<u8> {
    "WARG-OPERATOR-RECORD-SIGNATURE-V0".spec_bytes()
}

/// The error by which a refusal of the validator is reported. A refusal that
/// names a permission which this model lacks is reported as such.
pub open spec fn error_of(failure: Refusal) -> ValidationErrorView {
    match failure.kind {
        RefusalKind::FirstEntryIsNotInit => ValidationErrorView::FirstEntryIsNotInit,
        RefusalKind::InitialRecordDoesNotInit => ValidationErrorView::InitialRecordDoesNotInit,
        RefusalKind::KeyIdNotRecognized => ValidationErrorView::KeyIdNotRecognized(failure.key_id),
        RefusalKind::InitialEntryAfterBeginning => ValidationErrorView::InitialEntryAfterBeginning,
        RefusalKind::UnauthorizedAction => match permission_of_code(failure.permission) {
            Some(permission) => ValidationErrorView::UnauthorizedAction {
                key_id: failure.key_id,
                permission,
            },
            None => ValidationErrorView::UnknownOperatorPermission,
        },
        RefusalKind::PermissionNotFoundToRevoke => match permission_of_code(failure.permission) {
            Some(permission) => ValidationErrorView::PermissionNotFoundToRevoke {
                key_id: failure.key_id,
                permission,
            },
            None => ValidationErrorView::UnknownOperatorPermission,
        },
        RefusalKind::SignatureError => ValidationErrorView::SignatureInvalid,
        RefusalKind::IncorrectHashAlgorithm => ValidationErrorView::IncorrectHashAlgorithm {
            found: failure.found,
            expected: failure.expected,
        },
        RefusalKind::RecordHashDoesNotMatch => ValidationErrorView::RecordHashDoesNotMatch,
        RefusalKind::PreviousHashOnFirstRecord => ValidationErrorView::PreviousHashOnFirstRecord,
        RefusalKind::NoPreviousHashAfterInit => ValidationErrorView::NoPreviousHashAfterInit,
        RefusalKind::ProtocolVersionNotAllowed => ValidationErrorView::ProtocolVersionNotAllowed(
            failure.version,
        ),
        RefusalKind::TimestampLowerThanPrevious => ValidationErrorView::TimestampLowerThanPrevious,
    }
}

/// The error for a refusal that is known by its kind and, where the kind has
/// it, the refused version.
pub open spec fn early_error(kind: RefusalKind, version: u32) -> ValidationErrorView {
    error_of(
        Refusal {
            kind,
            key_id: Seq::empty(),
            permission: 0,
            found: Seq::empty(),
            expected: Seq::empty(),
            version,
        },
    )
}

/// What submitting an envelope to a log in a given state comes to: the state
/// after the record was admitted, with the identifier of the record, or the
/// error.
///
/// The signature is parsed first and the content decoded second. Then the
/// validator decides. It begins by holding the link, the version and the time
/// of the record against the head of the log, so that these refusals are
/// known from the head alone; its verdict on the entries, the signer and the
/// signature is known by name only.
pub open spec fn append_spec(state: operator::LogState, envelope: EnvelopeView) -> Result<
    (operator::LogState, Seq<char>),
    ValidationErrorView,
> {
    match signature_parse_error(envelope.signature) {
        Some(why) => Err(ValidationErrorView::SignatureParseFailure(why)),
        None => {
            match protocol_decode(envelope.content_bytes) {
                None => Err(ValidationErrorView::FailedToDecodeOperatorRecord),
                Some(record) => match early_refusal(log_head(state), record) {
                    Some(kind) => Err(early_error(kind, record.version)),
                    None => match validation(
                        state,
                        envelope.content_bytes,
                        envelope.key_id,
                        envelope.signature,
                    ) {
                        Ok(next) => Ok((next, record_id_text(envelope.content_bytes))),
                        Err(failure) => Err(error_of(failure)),
                    },
                },
            }
        },
    }
}

/// An admission: the envelope is admitted in the state before, the state
/// after is the one that results, the init entries of the record are where a
/// log with or without head takes them, and the head of the state after is
/// the admitted record.
pub open spec fn admits(
    before: operator::LogState,
    envelope: EnvelopeView,
    after: operator::LogState,
) -> bool {
    &&& append_spec(before, envelope).is_ok()
    &&& append_spec(before, envelope)->Ok_0.0 == after
    &&& init_in_place(
        log_head(before).is_some(),
        protocol_decode(envelope.content_bytes).unwrap().entries,
    )
    &&& log_head(after) == Some(admitted_head(envelope.content_bytes))
}

/// Reports a refusal of the validator, given by its kind and its fields, as
/// an error of this crate.
pub fn validation_error(kind: RefusalKind, fields: RefusalFields) -> (r: OperatorValidationError)
    ensures
        r@ == error_of(refusal_from(kind, fields)),
{
    let RefusalFields { key_id, permission, found, expected, version } = fields;
    match kind {
        RefusalKind::FirstEntryIsNotInit => OperatorValidationError::FirstEntryIsNotInit,
        RefusalKind::InitialRecordDoesNotInit => OperatorValidationError::InitialRecordDoesNotInit,
        RefusalKind::KeyIdNotRecognized => OperatorValidationError::KeyIdNotRecognized(key_id),
        RefusalKind::InitialEntryAfterBeginning => {
            OperatorValidationError::InitialEntryAfterBeginning
        },
        RefusalKind::UnauthorizedAction => match permission_from_code(permission) {
            Some(permission) => OperatorValidationError::UnauthorizedAction(
                UnauthorizedPermissionError { key_id, permission },
            ),
            None => OperatorValidationError::UnknownOperatorPermission,
        },
        RefusalKind::PermissionNotFoundToRevoke => match permission_from_code(permission) {
            Some(permission) => OperatorValidationError::PermissionNotFoundToRevoke(
                UnauthorizedPermissionError { key_id, permission },
            ),
            None => OperatorValidationError::UnknownOperatorPermission,
        },
        RefusalKind::SignatureError => OperatorValidationError::SignatureInvalid,
        RefusalKind::IncorrectHashAlgorithm => OperatorValidationError::IncorrectHashAlgorithm(
            UnexpectedHashAlgorithm { found, expected },
        ),
        RefusalKind::RecordHashDoesNotMatch => OperatorValidationError::RecordHashDoesNotMatch,
        RefusalKind::PreviousHashOnFirstRecord => {
            OperatorValidationError::PreviousHashOnFirstRecord
        },
        RefusalKind::NoPreviousHashAfterInit => OperatorValidationError::NoPreviousHashAfterInit,
        RefusalKind::ProtocolVersionNotAllowed => {
            OperatorValidationError::ProtocolVersionNotAllowed(version)
        },
        RefusalKind::TimestampLowerThanPrevious => {
            OperatorValidationError::TimestampLowerThanPrevious
        },
    }
}

/// The state of one operator log.
pub struct OperatorLog {
    state: operator::LogState,
}

impl View for OperatorLog {
    type V = operator::LogState;

    closed spec fn view(&self) -> operator::LogState {
        self.state
    }
}

impl OperatorLog {
    /// A log has a head from the moment at which it was founded.
    #[verifier::type_invariant]
    spec fn founded_with_head(self) -> bool {
        log_is_founded(self.state) <==> log_head(self.state).is_some()
    }

    /// The head of the log: the identifier and the time of the record that
    /// it admitted last, `None` while it has admitted none.
    pub open spec fn head(&self) -> Option<HeadView> {
        log_head(self@)
    }

    /// The identifier of the record that the log admitted last.
    pub open spec fn head_text(&self) -> Option<Seq<char>> {
        match self.head() {
            Some(head) => Some(head.digest),
            None => None,
        }
    }

    /// The time of the record that the log admitted last, where the log has
    /// admitted one and a `Timestamp` can hold its time.
    pub open spec fn head_time(&self) -> Option<Timestamp> {
        match self.head() {
            Some(head) => match head.time {
                Some((seconds, nanos)) => if seconds <= i64::MAX && nanos < 1_000_000_000 {
                    Some(Timestamp { seconds: seconds as i64, nanos: nanos as i32 })
                } else {
                    None
                },
                None => None,
            },
            None => None,
        }
    }

    /// A log that has admitted no record.
    pub fn new() -> (r: OperatorLog)
        ensures
            r.head().is_none(),
    {
        OperatorLog { state: new_state() }
    }

    /// The identifier of the record that the log admitted last.
    pub fn head_id(&self) -> (r: Option<String>)
        ensures
            text_view(r) == self.head_text(),
    {
        match read_head(&self.state) {
            Some(head) => Some(head.digest),
            None => None,
        }
    }

    /// The time of the record that the log admitted last.
    pub fn last_timestamp(&self) -> (r: Option<Timestamp>)
        ensures
            r == self.head_time(),
    {
        match read_head(&self.state) {
            Some(head) => match head.time {
                Some(elapsed) => {
                    let seconds: u64 = elapsed.0;
                    let nanos: u32 = elapsed.1;
                    if seconds <= i64::MAX as u64 && nanos < 1_000_000_000 {
                        Some(Timestamp { seconds: seconds as i64, nanos: nanos as i32 })
                    } else {
                        None
                    }
                },
                None => None,
            },
            None => None,
        }
    }

    /// Submits an envelope to the log. Where the record is admitted, the log
    /// moves on and the identifier of the record, now the head, is returned.
    /// Where it is not, the error says why and the log is as it was.
    pub fn append(&mut self, envelope: Envelope) -> (r: Result<String, OperatorValidationError>)
        ensures
            match append_spec(old(self)@, envelope@) {
                Ok((next, id)) => r matches Ok(head) && head@ == id,
                Err(e) => r matches Err(error) && error@ == e,
            },
            r.is_ok() ==> admits(old(self)@, envelope@, final(self)@),
            r.is_err() ==> final(self)@ == old(self)@,
    {
        proof {
            use_type_invariant(&*self);
        }
        let Envelope { content_bytes, key_id, signature } = envelope;
        match signature_fault(signature.as_str()) {
            Some(why) => {
                return Err(OperatorValidationError::SignatureParseFailure(why));
            },
            None => {},
        }
        let mut next = clone_state(&self.state);
        match validate_parts(&mut next, content_bytes, key_id, signature) {
            None => Err(OperatorValidationError::FailedToDecodeOperatorRecord),
            Some(Err(error)) => Err(
                validation_error(refusal_kind(&error), refusal_fields(&error)),
            ),
            Some(Ok(_)) => match read_head(&next) {
                Some(head) => {
                    self.state = next;
                    Ok(head.digest)
                },
                // The validator gives the log a head with every record that it
                // admits. Should it ever not, the record counts as refused.
                None => Err(OperatorValidationError::UnexpectedValidationError),
            },
        }
    }
}

/// The identifier of the operator log as a kind of log.
pub fn log_id() -> (r: String)
    ensures
        r@ == log_id_text(),
{
    operator_log_id()
}

/// The label that goes before the bytes of a record when it is signed.
pub fn signing_prefix() -> (r: Vec<u8>)
    ensures
        r@ == signing_prefix_bytes(),
{
    record_signing_prefix()
}

} // verus!
