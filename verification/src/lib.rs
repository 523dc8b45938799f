//! A parse-normalize-filter pipeline for content-interaction records.
//!
//! The library ingests a byte stream of newline- or array-delimited JSON
//! records describing user interactions with content pieces, validates and
//! normalizes each record into a canonical [`Event`], and discards records
//! that fail validation. Records survive only if they carry the required
//! fields, resolve to a user identity, name a recognized event type, and
//! that identity looks like an email address.

pub mod decode;
pub mod email;
pub mod json;
pub mod pipeline;
pub mod record;

use vstd::prelude::*;

verus! {

/// The canonical two-valued classification of a normalized event.
#[derive(Clone, Copy, Debug, PartialEq, Eq, Structural)]
pub enum EventKind {
    Started,
    Finished,
}

/// The output entity of the pipeline: one well-formed user-interaction event.
///
/// Immutable once constructed. Every `Event` the pipeline emits has a
/// `user_id` that passed the email-shape filter.
#[derive(Debug)]
pub struct Event {
    pub event: EventKind,
    pub user_id: String,
    pub post_id: String,
    pub time: u32,
}

/// Why one record was dropped. A record-level error never aborts the
/// pipeline; it only removes that record from the output sequence.
#[derive(Clone, Copy, Debug, PartialEq, Eq, Structural)]
pub enum RecordError {
    /// The record is not an object, or a required field (`event`,
    /// `properties.id`, `properties.time`) is missing or of the wrong type.
    RecordMalformed,
    /// None of the three identity candidate fields is present.
    IdentityMissing,
    /// The `event` string is not in the known event-type table.
    EventTypeUnrecognized,
    /// The resolved identity does not look like an email address.
    IdentityNotEmailShaped,
}

} // verus!
