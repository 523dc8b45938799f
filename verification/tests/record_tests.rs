use content_events::json::Json;
use content_events::record::{event_kind_of, process_record, resolve_identity, validate_record};
use content_events::{EventKind, RecordError};

fn s(x: &str) -> String {
    x.to_string()
}

fn obj(fields: Vec<(&str, Json)>) -> Json {
    Json::Obj(fields.into_iter().map(|(k, v)| (s(k), v)).collect())
}

fn record(event: &str, props: Vec<(&str, Json)>) -> Json {
    obj(vec![("event", Json::Str(s(event))), ("properties", obj(props))])
}

fn base_props() -> Vec<(&'static str, Json)> {
    vec![("id", Json::Str(s("p1"))), ("time", Json::UInt(100))]
}

#[test]
fn identity_priority_user_id_wins() {
    let mut props = base_props();
    props.push(("$user_id", Json::Str(s("a@b.com"))));
    props.push(("distinct_id", Json::Str(s("c@d.com"))));
    let r = process_record(&record("Started Content Piece", props));
    let e = r.expect("record should survive");
    assert_eq!(e.user_id, "a@b.com");
}

#[test]
fn identity_fallback_legacy_wins_over_distinct_id() {
    let mut props = base_props();
    props.push(("$distinct_id_before_identity", Json::Str(s("x@y.com"))));
    props.push(("distinct_id", Json::Str(s("z@w.com"))));
    let r = process_record(&record("Started Content Piece", props));
    let e = r.expect("record should survive");
    assert_eq!(e.user_id, "x@y.com");
}

#[test]
fn identity_used_even_if_later_candidate_would_pass_filter() {
    // The first present candidate wins and is then rejected downstream;
    // later candidates are never consulted.
    let mut props = base_props();
    props.push(("$user_id", Json::Str(s("internal-id-7"))));
    props.push(("distinct_id", Json::Str(s("real@mail.com"))));
    let r = process_record(&record("Started Content Piece", props));
    assert!(matches!(r, Err(RecordError::IdentityNotEmailShaped)));
}

#[test]
fn non_email_identity_rejected_email_identity_kept() {
    let mut props = base_props();
    props.push(("$user_id", Json::Str(s("not-an-email"))));
    let r = process_record(&record("Started Content Piece", props));
    assert!(matches!(r, Err(RecordError::IdentityNotEmailShaped)));

    let mut props = base_props();
    props.push(("$user_id", Json::Str(s("user@example.com"))));
    let r = process_record(&record("Started Content Piece", props));
    assert_eq!(r.expect("should survive").user_id, "user@example.com");
}

#[test]
fn event_kind_table_is_exact() {
    assert_eq!(event_kind_of("Started Content Piece"), Some(EventKind::Started));
    assert_eq!(event_kind_of("End Read Content"), Some(EventKind::Finished));
    assert_eq!(event_kind_of("started content piece"), None);
    assert_eq!(event_kind_of("Bogus"), None);
    assert_eq!(event_kind_of(""), None);
}

#[test]
fn unknown_event_type_drops_only_that_record() {
    let mut props = base_props();
    props.push(("$user_id", Json::Str(s("u@v.com"))));
    let r = process_record(&record("Bogus", props));
    assert!(matches!(r, Err(RecordError::EventTypeUnrecognized)));
}

#[test]
fn missing_required_fields_are_malformed() {
    // no event field
    let r = process_record(&obj(vec![("properties", obj(base_props()))]));
    assert!(matches!(r, Err(RecordError::RecordMalformed)));
    // no properties
    let r = process_record(&obj(vec![("event", Json::Str(s("Started Content Piece")))]));
    assert!(matches!(r, Err(RecordError::RecordMalformed)));
    // properties without id
    let r = process_record(&record("Started Content Piece", vec![("time", Json::UInt(1))]));
    assert!(matches!(r, Err(RecordError::RecordMalformed)));
    // properties without time
    let r = process_record(
        &record("Started Content Piece", vec![("id", Json::Str(s("p")))]),
    );
    assert!(matches!(r, Err(RecordError::RecordMalformed)));
    // not an object at all
    assert!(matches!(process_record(&Json::Null), Err(RecordError::RecordMalformed)));
    assert!(matches!(
        process_record(&Json::Str(s("x"))),
        Err(RecordError::RecordMalformed)
    ));
}

#[test]
fn wrongly_typed_required_fields_are_malformed() {
    // event of the wrong type
    let r = process_record(&obj(vec![
        ("event", Json::UInt(3)),
        ("properties", obj(base_props())),
    ]));
    assert!(matches!(r, Err(RecordError::RecordMalformed)));
    // time not an unsigned integer
    let r = process_record(&record(
        "Started Content Piece",
        vec![("id", Json::Str(s("p"))), ("time", Json::OtherNumber)],
    ));
    assert!(matches!(r, Err(RecordError::RecordMalformed)));
    // time too large for 32 bits
    let r = process_record(&record(
        "Started Content Piece",
        vec![("id", Json::Str(s("p"))), ("time", Json::UInt(1 << 40))],
    ));
    assert!(matches!(r, Err(RecordError::RecordMalformed)));
}

#[test]
fn time_fits_exactly_32_bits() {
    let ok = process_record(&record(
        "Started Content Piece",
        vec![
            ("id", Json::Str(s("p"))),
            ("time", Json::UInt(u32::MAX as u64)),
            ("$user_id", Json::Str(s("u@v.com"))),
        ],
    ));
    assert_eq!(ok.expect("fits").time, u32::MAX);
    let too_big = process_record(&record(
        "Started Content Piece",
        vec![
            ("id", Json::Str(s("p"))),
            ("time", Json::UInt(u32::MAX as u64 + 1)),
            ("$user_id", Json::Str(s("u@v.com"))),
        ],
    ));
    assert!(matches!(too_big, Err(RecordError::RecordMalformed)));
}

#[test]
fn first_binding_of_a_key_wins() {
    let mut props = base_props();
    props.push(("$user_id", Json::Str(s("first@v.com"))));
    props.push(("$user_id", Json::Str(s("second@v.com"))));
    let e = process_record(&record("Started Content Piece", props)).expect("valid");
    assert_eq!(e.user_id, "first@v.com");
}

#[test]
fn all_identity_candidates_absent_is_missing_identity() {
    let r = process_record(&record("Started Content Piece", base_props()));
    assert!(matches!(r, Err(RecordError::IdentityMissing)));
}

#[test]
fn wrongly_typed_optional_field_counts_as_absent() {
    // $user_id of the wrong type is read as absent, so the legacy field wins.
    let mut props = base_props();
    props.push(("$user_id", Json::UInt(5)));
    props.push(("$distinct_id_before_identity", Json::Str(s("x@y.com"))));
    let rec = record("Started Content Piece", props);
    let raw = validate_record(&rec).expect("shape is valid");
    assert_eq!(raw.properties.user_id, None);
    assert_eq!(resolve_identity(&raw.properties), Some(s("x@y.com")));
    let e = process_record(&rec).expect("should survive");
    assert_eq!(e.user_id, "x@y.com");
}

#[test]
fn validate_reads_all_fields() {
    let mut props = base_props();
    props.push(("$user_id", Json::Str(s("u@v.com"))));
    props.push(("$distinct_id_before_identity", Json::Str(s("l@v.com"))));
    props.push(("distinct_id", Json::Str(s("d@v.com"))));
    let raw = validate_record(&record("End Read Content", props)).expect("valid");
    assert_eq!(raw.event_type, "End Read Content");
    assert_eq!(raw.properties.post_id, "p1");
    assert_eq!(raw.properties.time, 100);
    assert_eq!(raw.properties.user_id, Some(s("u@v.com")));
    assert_eq!(
        raw.properties.legacy_distinct_id_before_identity,
        Some(s("l@v.com"))
    );
    assert_eq!(raw.properties.distinct_id, Some(s("d@v.com")));
}
