//! The data model of the operator log: entries, records and envelopes, each
//! with the mathematical view that the contracts of this crate speak of.

use vstd::prelude::*;

verus! {

/// An instant, counted from the Unix epoch as whole seconds and the
/// nanoseconds of the second that has begun.
#[derive(Clone, Copy, Debug, PartialEq, Eq)]
pub struct Timestamp {
    pub seconds: i64,
    pub nanos: i32,
}

impl Timestamp {
    /// An instant at or after the epoch whose nanoseconds stay below one
    /// second. Only such instants have a canonical encoding.
    pub open spec fn is_canonical(self) -> bool {
        0 <= self.seconds && 0 <= self.nanos < 1_000_000_000
    }

    /// Tells whether the instant is canonical.
    pub fn check_canonical(&self) -> (r: bool)
        ensures
            r == self.is_canonical(),
    {
        0 <= self.seconds && 0 <= self.nanos && self.nanos < 1_000_000_000
    }
}

/// The permissions that an operator log can grant to a key.
#[derive(Clone, Copy, Debug, PartialEq, Eq)]
pub enum OperatorPermission {
    /// The right to append records that grant or revoke permissions.
    Commit,
}

/// The entry that founds a log: it fixes the hash algorithm that links the
/// records and names the founding key.
#[derive(Clone, Debug, PartialEq, Eq)]
pub struct OperatorInit {
    pub hash_algorithm: String,
    pub key: String,
}

/// The entry that grants a permission to a public key.
#[derive(Clone, Debug, PartialEq, Eq)]
pub struct OperatorGrantFlat {
    pub key: String,
    pub permission: OperatorPermission,
}

/// The entry that takes a permission away from the key with the given
/// identifier.
#[derive(Clone, Debug, PartialEq, Eq)]
pub struct OperatorRevokeFlat {
    pub key: String,
    pub permission: OperatorPermission,
}

/// One operation of a record.
#[derive(Clone, Debug, PartialEq, Eq)]
pub enum Entry {
    OperatorInit(OperatorInit),
    OperatorGrantFlat(OperatorGrantFlat),
    OperatorRevokeFlat(OperatorRevokeFlat),
}

/// A record: entries published together, with the link to the record before
/// it, the protocol version and the time of publication.
#[derive(Clone, Debug, PartialEq, Eq)]
pub struct OperatorRecord {
    pub prev: Option<String>,
    pub version: u32,
    pub timestamp: Timestamp,
    pub entries: Vec<Entry>,
}

/// A record in its canonical bytes, with the identifier derived from them.
#[derive(Clone, Debug, PartialEq, Eq)]
pub struct EncodedOperatorRecord {
    pub content_bytes: Vec<u8>,
    pub record_id: String,
}

/// A candidate record as it arrives: its bytes, the identifier of the key
/// that signed them, and the signature.
#[derive(Clone, Debug, PartialEq, Eq)]
pub struct Envelope {
    pub content_bytes: Vec<u8>,
    pub key_id: String,
    pub signature: String,
}

/// The view of an entry.
pub enum EntryView {
    Init { hash_algorithm: Seq<char>, key: Seq<char> },
    GrantFlat { key: Seq<char>, permission: OperatorPermission },
    RevokeFlat { key_id: Seq<char>, permission: OperatorPermission },
}

/// The view of a record.
pub struct RecordView {
    pub prev: Option<Seq<char>>,
    pub version: u32,
    pub timestamp: Timestamp,
    pub entries: Seq<EntryView>,
}

/// The view of an encoded record.
pub struct EncodedView {
    pub content_bytes: Seq<u8>,
    pub record_id: Seq<char>,
}

/// The view of an envelope.
pub struct EnvelopeView {
    pub content_bytes: Seq<u8>,
    pub key_id: Seq<char>,
    pub signature: Seq<char>,
}

impl View for Entry {
    type V = EntryView;

    open spec fn view(&self) -> EntryView {
        match *self {
            Entry::OperatorInit(init) => EntryView::Init {
                hash_algorithm: init.hash_algorithm@,
                key: init.key@,
            },
            Entry::OperatorGrantFlat(grant) => EntryView::GrantFlat {
                key: grant.key@,
                permission: grant.permission,
            },
            Entry::OperatorRevokeFlat(revoke) => EntryView::RevokeFlat {
                key_id: revoke.key@,
                permission: revoke.permission,
            },
        }
    }
}

/// The views of the entries of a record, in their order.
pub open spec fn entry_views(entries: Seq<Entry>) -> Seq<EntryView> {
    Seq::new(entries.len(), |i: int| entries[i]@)
}

/// The view of an optional text.
pub open spec fn text_view(text: Option<String>) -> Option<Seq<char>> {
    match text {
        Some(t) => Some(t@),
        None => None,
    }
}

impl View for OperatorRecord {
    type V = RecordView;

    open spec fn view(&self) -> RecordView {
        RecordView {
            prev: text_view(self.prev),
            version: self.version,
            timestamp: self.timestamp,
            entries: entry_views(self.entries@),
        }
    }
}

impl View for EncodedOperatorRecord {
    type V = EncodedView;

    open spec fn view(&self) -> EncodedView {
        EncodedView { content_bytes: self.content_bytes@, record_id: self.record_id@ }
    }
}

impl View for Envelope {
    type V = EnvelopeView;

    open spec fn view(&self) -> EnvelopeView {
        EnvelopeView {
            content_bytes: self.content_bytes@,
            key_id: self.key_id@,
            signature: self.signature@,
        }
    }
}

} // verus!
