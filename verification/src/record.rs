//! Record validation, identity resolution and event normalization.
//!
//! One loosely-typed JSON value is interpreted as a raw record, the user
//! identity is picked from a prioritized list of candidate fields, the
//! event-type string is mapped through an exact table, and the resolved
//! identity is held to the email-shape filter. Each stage's failure drops
//! only that record.

use crate::email::{email_shaped, is_email_shaped};
use crate::json::{obj_get, obj_get_spec, opt_str_field, opt_str_spec, Json};
use crate::{Event, EventKind, RecordError};
use vstd::prelude::*;

verus! {

/// The validated shape of one raw record's `properties` object.
///
/// `post_id` and `time` are required; the three identity candidate fields
/// are optional, and one that is present with a non-string value counts as
/// absent.
pub struct RawProperties {
    pub post_id: String,
    pub time: u32,
    pub legacy_distinct_id_before_identity: Option<String>,
    pub user_id: Option<String>,
    pub distinct_id: Option<String>,
}

/// The validated shape of one raw record.
pub struct RawRecord {
    pub event_type: String,
    pub properties: RawProperties,
}

/// The raw record encoded by `j`, or `None` if `j` does not have the
/// required shape: an object whose `event` field is a string and whose
/// `properties` field is an object with a string `id` and an unsigned
/// 32-bit `time`.
pub open spec fn validate_spec(j: Json) -> Option<RawRecord> {
    match j {
        Json::Obj(fields) => match obj_get_spec(fields@, "event"@) {
            Some(Json::Str(ev)) => match obj_get_spec(fields@, "properties"@) {
                Some(Json::Obj(props)) => match (
                    obj_get_spec(props@, "id"@),
                    obj_get_spec(props@, "time"@),
                ) {
                    (Some(Json::Str(pid)), Some(Json::UInt(t))) => if t <= u32::MAX {
                        Some(
                            RawRecord {
                                event_type: ev,
                                properties: RawProperties {
                                    post_id: pid,
                                    time: t as u32,
                                    legacy_distinct_id_before_identity: opt_str_spec(
                                        obj_get_spec(props@, "$distinct_id_before_identity"@),
                                    ),
                                    user_id: opt_str_spec(obj_get_spec(props@, "$user_id"@)),
                                    distinct_id: opt_str_spec(
                                        obj_get_spec(props@, "distinct_id"@),
                                    ),
                                },
                            },
                        )
                    } else {
                        None
                    },
                    _ => None,
                },
                _ => None,
            },
            _ => None,
        },
        _ => None,
    }
}

/// Interprets one loosely-typed JSON value as a raw record.
///
/// Strict on required fields: any missing or wrongly-typed `event`,
/// `properties`, `properties.id` or `properties.time` fails the record.
/// Permissive on the optional identity fields: one of the wrong type is
/// read as absent.
pub fn validate_record(j: &Json) -> (r: Option<RawRecord>)
    ensures
        r == validate_spec(*j),
{
    let fields = match j {
        Json::Obj(fields) => fields,
        _ => { return None; },
    };
    let ev = match obj_get(fields, "event") {
        Some(Json::Str(s)) => s.clone(),
        _ => { return None; },
    };
    let props = match obj_get(fields, "properties") {
        Some(Json::Obj(props)) => props,
        _ => { return None; },
    };
    let pid = match obj_get(props, "id") {
        Some(Json::Str(s)) => s.clone(),
        _ => { return None; },
    };
    let time = match obj_get(props, "time") {
        Some(Json::UInt(t)) => if *t <= u32::MAX as u64 {
            *t as u32
        } else {
            return None;
        },
        _ => { return None; },
    };
    Some(
        RawRecord {
            event_type: ev,
            properties: RawProperties {
                post_id: pid,
                time,
                legacy_distinct_id_before_identity: opt_str_field(
                    props,
                    "$distinct_id_before_identity",
                ),
                user_id: opt_str_field(props, "$user_id"),
                distinct_id: opt_str_field(props, "distinct_id"),
            },
        },
    )
}

/// The first present identity candidate, in fixed priority order:
/// `user_id`, then the legacy distinct-id-before-identity field, then
/// `distinct_id`. Later candidates are never consulted once one is chosen.
pub open spec fn resolve_identity_spec(p: RawProperties) -> Option<String> {
    if p.user_id is Some {
        p.user_id
    } else if p.legacy_distinct_id_before_identity is Some {
        p.legacy_distinct_id_before_identity
    } else {
        p.distinct_id
    }
}

/// Picks the user identity for a validated record, or `None` when all
/// three candidate fields are absent.
pub fn resolve_identity(p: &RawProperties) -> (r: Option<String>)
    ensures
        r == resolve_identity_spec(*p),
{
    if let Some(u) = &p.user_id {
        Some(u.clone())
    } else if let Some(u) = &p.legacy_distinct_id_before_identity {
        Some(u.clone())
    } else if let Some(u) = &p.distinct_id {
        Some(u.clone())
    } else {
        None
    }
}

/// The exact, case-sensitive event-type table. Any string outside it is
/// unrecognized and never mapped to a kind.
pub open spec fn kind_of_spec(s: Seq<char>) -> Option<EventKind> {
    if s == "Started Content Piece"@ {
        Some(EventKind::Started)
    } else if s == "End Read Content"@ {
        Some(EventKind::Finished)
    } else {
        None
    }
}

/// Maps an event-type string through the known table.
pub fn event_kind_of(s: &str) -> (r: Option<EventKind>)
    ensures
        r == kind_of_spec(s@),
{
    if crate::json::str_eq(s, "Started Content Piece") {
        Some(EventKind::Started)
    } else if crate::json::str_eq(s, "End Read Content") {
        Some(EventKind::Finished)
    } else {
        None
    }
}

/// The fate of one raw record: the normalized event it yields, or the
/// reason it is dropped. Validation, identity resolution, event-type
/// mapping and the email-shape filter apply in that order, and the first
/// failing stage names the error.
pub open spec fn process_rec_spec(j: Json) -> Result<Event, RecordError> {
    match validate_spec(j) {
        None => Err(RecordError::RecordMalformed),
        Some(rec) => match resolve_identity_spec(rec.properties) {
            None => Err(RecordError::IdentityMissing),
            Some(uid) => match kind_of_spec(rec.event_type@) {
                None => Err(RecordError::EventTypeUnrecognized),
                Some(kind) => if is_email_shaped(uid@) {
                    Ok(
                        Event {
                            event: kind,
                            user_id: uid,
                            post_id: rec.properties.post_id,
                            time: rec.properties.time,
                        },
                    )
                } else {
                    Err(RecordError::IdentityNotEmailShaped)
                },
            },
        },
    }
}

/// Processes one loosely-typed JSON value into a normalized event, or the
/// reason the record is dropped.
pub fn process_record(j: &Json) -> (r: Result<Event, RecordError>)
    ensures
        r == process_rec_spec(*j),
{
    let rec = match validate_record(j) {
        Some(rec) => rec,
        None => { return Err(RecordError::RecordMalformed); },
    };
    let uid = match resolve_identity(&rec.properties) {
        Some(u) => u,
        None => { return Err(RecordError::IdentityMissing); },
    };
    let kind = match event_kind_of(rec.event_type.as_str()) {
        Some(k) => k,
        None => { return Err(RecordError::EventTypeUnrecognized); },
    };
    if email_shaped(uid.as_str()) {
        Ok(Event { event: kind, user_id: uid, post_id: rec.properties.post_id, time: rec.properties.time })
    } else {
        Err(RecordError::IdentityNotEmailShaped)
    }
}

/// Law: a record without an `event` field is dropped as malformed, with
/// exactly that one error as its outcome.
pub proof fn lemma_missing_event_rejected(fields: Vec<(String, Json)>)
    requires
        obj_get_spec(fields@, "event"@) is None,
    ensures
        process_rec_spec(Json::Obj(fields)) == Err::<Event, RecordError>(
            RecordError::RecordMalformed,
        ),
{
}

/// Law: a record whose `properties` object is missing `id` or `time` is
/// dropped as malformed, with exactly that one error as its outcome.
pub proof fn lemma_missing_required_property_rejected(
    fields: Vec<(String, Json)>,
    props: Vec<(String, Json)>,
)
    requires
        obj_get_spec(fields@, "properties"@) == Some(Json::Obj(props)),
        obj_get_spec(props@, "id"@) is None || obj_get_spec(props@, "time"@) is None,
    ensures
        process_rec_spec(Json::Obj(fields)) == Err::<Event, RecordError>(
            RecordError::RecordMalformed,
        ),
{
}

/// Law: identity priority: whenever `user_id` is present it is the
/// resolved identity, whatever the other candidates hold.
pub proof fn lemma_identity_priority(p: RawProperties)
    requires
        p.user_id is Some,
    ensures
        resolve_identity_spec(p) == p.user_id,
{
}

/// Law: identity fallback: with `user_id` absent, the legacy
/// distinct-id-before-identity field wins over `distinct_id`.
pub proof fn lemma_identity_fallback(p: RawProperties)
    requires
        p.user_id is None,
        p.legacy_distinct_id_before_identity is Some,
    ensures
        resolve_identity_spec(p) == p.legacy_distinct_id_before_identity,
{
}

/// Law: the event-type table is exact: each kind comes from its one
/// string, and any other string maps to no kind at all.
pub proof fn lemma_event_kind_exact(s: Seq<char>)
    ensures
        kind_of_spec(s) == Some(EventKind::Started) <==> s == "Started Content Piece"@,
        kind_of_spec(s) == Some(EventKind::Finished) <==> s == "End Read Content"@,
        s != "Started Content Piece"@ && s != "End Read Content"@ ==> kind_of_spec(s) is None,
{
    reveal_strlit("Started Content Piece");
    reveal_strlit("End Read Content");
    assert("Started Content Piece"@.len() != "End Read Content"@.len());
}

} // verus!
