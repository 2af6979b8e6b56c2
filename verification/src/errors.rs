//! The reasons for which a record is refused: one family for decoding, one
//! for encoding, one for validation.

use vstd::prelude::*;
use crate::model::OperatorPermission;

verus! {

/// Why bytes could not be read as a record.
#[derive(Clone, Copy, Debug, PartialEq, Eq)]
pub enum OperatorDecodeErrno {
    /// The bytes are no record, or its time cannot be counted from the epoch.
    FailedToDecode,
    /// An entry is of a kind that this model does not have.
    UnknownOperatorEntry,
    /// An entry names a permission that this model does not have.
    UnknownOperatorPermission,
}

/// Why a record could not be encoded.
#[derive(Clone, Copy, Debug, PartialEq, Eq)]
pub enum OperatorEncodeErrno {
    /// The link to the previous record is not a well-formed digest.
    PrevRecordIdInvalidFormat,
    /// An init entry names a hash algorithm that is not implemented.
    UnsupportedHashAlgorithm,
    /// A key is not a well-formed public key.
    PublicKeyParseFailure,
}

/// A key and the permission that it lacked.
#[derive(Clone, Debug, PartialEq, Eq)]
pub struct UnauthorizedPermissionError {
    pub key_id: String,
    pub permission: OperatorPermission,
}

/// The hash algorithm that a link used, and the one that the log uses.
#[derive(Clone, Debug, PartialEq, Eq)]
pub struct UnexpectedHashAlgorithm {
    pub found: String,
    pub expected: String,
}

/// Why a candidate record was not admitted to the log.
#[derive(Clone, Debug, PartialEq, Eq)]
pub enum OperatorValidationError {
    /// The signature is not a well-formed signature; the text says why.
    SignatureParseFailure(String),
    /// The content bytes are no record.
    FailedToDecodeOperatorRecord,
    /// The log has no head although a record was admitted.
    UnexpectedValidationError,
    /// The first entry of the log is no init entry.
    FirstEntryIsNotInit,
    /// The first record of the log founds no log.
    InitialRecordDoesNotInit,
    /// The key that signed the envelope is not known to the log.
    KeyIdNotRecognized(String),
    /// An init entry stands elsewhere than at the front of the log.
    InitialEntryAfterBeginning,
    /// The signer lacks the permission that an entry asks for.
    UnauthorizedAction(UnauthorizedPermissionError),
    /// An entry revokes a permission that the key does not hold.
    PermissionNotFoundToRevoke(UnauthorizedPermissionError),
    /// The signature does not hold of the content under the signer's key.
    SignatureInvalid,
    /// The link uses another hash algorithm than the log.
    IncorrectHashAlgorithm(UnexpectedHashAlgorithm),
    /// The link is not the identifier of the head.
    RecordHashDoesNotMatch,
    /// The first record of the log names a previous record.
    PreviousHashOnFirstRecord,
    /// A later record names no previous record.
    NoPreviousHashAfterInit,
    /// The record is of a version of the protocol that is not taken.
    ProtocolVersionNotAllowed(u32),
    /// The time of the record lies before that of the head.
    TimestampLowerThanPrevious,
    /// The refusal concerns a permission that this model does not have.
    UnknownOperatorPermission,
}

/// The view of a validation error.
pub enum ValidationErrorView {
    SignatureParseFailure(Seq<char>),
    FailedToDecodeOperatorRecord,
    UnexpectedValidationError,
    FirstEntryIsNotInit,
    InitialRecordDoesNotInit,
    KeyIdNotRecognized(Seq<char>),
    InitialEntryAfterBeginning,
    UnauthorizedAction { key_id: Seq<char>, permission: OperatorPermission },
    PermissionNotFoundToRevoke { key_id: Seq<char>, permission: OperatorPermission },
    SignatureInvalid,
    IncorrectHashAlgorithm { found: Seq<char>, expected: Seq<char> },
    RecordHashDoesNotMatch,
    PreviousHashOnFirstRecord,
    NoPreviousHashAfterInit,
    ProtocolVersionNotAllowed(u32),
    TimestampLowerThanPrevious,
    UnknownOperatorPermission,
}

impl View for OperatorValidationError {
    type V = ValidationErrorView;

    open spec fn view(&self) -> ValidationErrorView {
        match *self {
            OperatorValidationError::SignatureParseFailure(why) =>
                ValidationErrorView::SignatureParseFailure(why@),
            OperatorValidationError::FailedToDecodeOperatorRecord =>
                ValidationErrorView::FailedToDecodeOperatorRecord,
            OperatorValidationError::UnexpectedValidationError =>
                ValidationErrorView::UnexpectedValidationError,
            OperatorValidationError::FirstEntryIsNotInit =>
                ValidationErrorView::FirstEntryIsNotInit,
            OperatorValidationError::InitialRecordDoesNotInit =>
                ValidationErrorView::InitialRecordDoesNotInit,
            OperatorValidationError::KeyIdNotRecognized(key_id) =>
                ValidationErrorView::KeyIdNotRecognized(key_id@),
            OperatorValidationError::InitialEntryAfterBeginning =>
                ValidationErrorView::InitialEntryAfterBeginning,
            OperatorValidationError::UnauthorizedAction(e) =>
                ValidationErrorView::UnauthorizedAction {
                    key_id: e.key_id@,
                    permission: e.permission,
                },
            OperatorValidationError::PermissionNotFoundToRevoke(e) =>
                ValidationErrorView::PermissionNotFoundToRevoke {
                    key_id: e.key_id@,
                    permission: e.permission,
                },
            OperatorValidationError::SignatureInvalid => ValidationErrorView::SignatureInvalid,
            OperatorValidationError::IncorrectHashAlgorithm(e) =>
                ValidationErrorView::IncorrectHashAlgorithm {
                    found: e.found@,
                    expected: e.expected@,
                },
            OperatorValidationError::RecordHashDoesNotMatch =>
                ValidationErrorView::RecordHashDoesNotMatch,
            OperatorValidationError::PreviousHashOnFirstRecord =>
                ValidationErrorView::PreviousHashOnFirstRecord,
            OperatorValidationError::NoPreviousHashAfterInit =>
                ValidationErrorView::NoPreviousHashAfterInit,
            OperatorValidationError::ProtocolVersionNotAllowed(version) =>
                ValidationErrorView::ProtocolVersionNotAllowed(version),
            OperatorValidationError::TimestampLowerThanPrevious =>
                ValidationErrorView::TimestampLowerThanPrevious,
            OperatorValidationError::UnknownOperatorPermission =>
                ValidationErrorView::UnknownOperatorPermission,
        }
    }
}

} // verus!
