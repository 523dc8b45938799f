//! The pipeline driver.
//!
//! Composes decode, validation, identity resolution, normalization and the
//! identity filter into one order-preserving transformation from input
//! bytes to the sequence of well-formed events. Record-level failures drop
//! only their record; the laws at the end of this module state the
//! pipeline's order, filter and determinism guarantees.

use crate::decode::{decode_docs, decode_spec};
use crate::email::is_email_shaped;
use crate::json::Json;
use crate::record::{process_rec_spec, process_record};
use crate::{Event, RecordError};
use vstd::prelude::*;

verus! {

/// The records one top-level decoded value contributes: the elements of an
/// array framing, or the value itself.
pub open spec fn doc_records(d: Json) -> Seq<Json> {
    match d {
        Json::Arr(items) => items@,
        _ => seq![d],
    }
}

/// The record sequence of a decoded input: top-level arrays are unwrapped
/// into their elements, every other top-level value is one record.
pub open spec fn records_of(docs: Seq<Json>) -> Seq<Json>
    decreases docs.len(),
{
    if docs.len() == 0 {
        Seq::empty()
    } else {
        doc_records(docs[0]) + records_of(docs.skip(1))
    }
}

/// Unwraps array-framed inputs into their records, keeping order.
pub fn flatten_records(docs: Vec<Json>) -> (r: Vec<Json>)
    ensures
        r@ == records_of(docs@),
{
    let mut work = docs;
    let mut out: Vec<Json> = Vec::new();
    while work.len() > 0
        invariant
            records_of(docs@) == out@ + records_of(work@),
        decreases work@.len(),
    {
        let ghost pre = work@;
        let d = work.remove(0);
        proof {
            assert(pre.remove(0) =~= pre.skip(1));
        }
        match d {
            Json::Arr(mut items) => {
                proof {
                    assert(out@ + (items@ + records_of(work@)) =~= (out@ + items@) + records_of(
                        work@,
                    ));
                }
                out.append(&mut items);
            },
            other => {
                proof {
                    assert(out@ + (doc_records(pre[0]) + records_of(work@)) =~= out@.push(other)
                        + records_of(work@));
                }
                out.push(other);
            },
        }
    }
    proof {
        assert(out@ + records_of(work@) =~= out@);
    }
    out
}

/// The event sequence of a record sequence: each record that survives
/// every stage contributes its normalized event, in input order; every
/// other record contributes nothing.
pub open spec fn events_spec(rs: Seq<Json>) -> Seq<Event>
    decreases rs.len(),
{
    if rs.len() == 0 {
        Seq::empty()
    } else {
        let rest = events_spec(rs.drop_last());
        match process_rec_spec(rs.last()) {
            Ok(e) => rest.push(e),
            Err(_) => rest,
        }
    }
}

/// Processes each record in turn, keeping the events of those that
/// survive every stage.
pub fn events_of_records(rs: &Vec<Json>) -> (r: Vec<Event>)
    ensures
        r@ == events_spec(rs@),
{
    let n = rs.len();
    let mut out: Vec<Event> = Vec::new();
    let mut i: usize = 0;
    while i < n
        invariant
            0 <= i <= n,
            n == rs@.len(),
            out@ == events_spec(rs@.take(i as int)),
        decreases n - i,
    {
        proof {
            assert(rs@.take(i as int + 1).drop_last() =~= rs@.take(i as int));
            assert(rs@.take(i as int + 1).last() == rs@[i as int]);
        }
        match process_record(&rs[i]) {
            Ok(e) => out.push(e),
            Err(_) => {},
        }
        i = i + 1;
    }
    proof {
        assert(rs@.take(n as int) =~= rs@);
    }
    out
}

/// Processes each record in turn, keeping every outcome: the normalized
/// event, or the reason the record is dropped. Each record yields exactly
/// one outcome, so a caller printing one diagnostic line per error emits
/// exactly one line per dropped record.
pub fn process_records(rs: &Vec<Json>) -> (r: Vec<Result<Event, RecordError>>)
    ensures
        r@.len() == rs@.len(),
        forall|i: int| 0 <= i < rs@.len() ==> r@[i] == process_rec_spec(rs@[i]),
{
    let n = rs.len();
    let mut out: Vec<Result<Event, RecordError>> = Vec::new();
    let mut i: usize = 0;
    while i < n
        invariant
            0 <= i <= n,
            n == rs@.len(),
            out@.len() == i,
            forall|k: int| 0 <= k < i ==> out@[k] == process_rec_spec(rs@[k]),
        decreases n - i,
    {
        out.push(process_record(&rs[i]));
        i = i + 1;
    }
    out
}

/// The whole pipeline as a function of the input bytes.
pub open spec fn pipeline_spec(s: Seq<u8>) -> Seq<Event> {
    events_spec(records_of(decode_spec(s)))
}

/// Loads all valid events from a byte stream: decodes the top-level JSON
/// values, unwraps array framings, and keeps the normalized event of every
/// record that passes validation, identity resolution, the event-type
/// table and the email-shape filter, in input order.
pub fn load_events(input: &[u8]) -> (r: Vec<Event>)
    ensures
        r@ == pipeline_spec(input@),
{
    let docs = decode_docs(input);
    let recs = flatten_records(docs);
    events_of_records(&recs)
}

/// The emit count never drops as a record sequence is extended.
proof fn lemma_events_len_monotone(rs: Seq<Json>, a: int, b: int)
    requires
        0 <= a <= b <= rs.len(),
    ensures
        events_spec(rs.take(a)).len() <= events_spec(rs.take(b)).len(),
    decreases b - a,
{
    if a < b {
        lemma_events_len_monotone(rs, a, b - 1);
        assert(rs.take(b).drop_last() =~= rs.take(b - 1));
    }
}

/// Law: a record that survives every stage is emitted exactly once, at
/// the position given by the number of surviving records before it, and
/// it is emitted as its own normalized event.
pub proof fn lemma_pipeline_order(rs: Seq<Json>, i: int)
    requires
        0 <= i < rs.len(),
        process_rec_spec(rs[i]) is Ok,
    ensures
        events_spec(rs.take(i)).len() < events_spec(rs).len(),
        events_spec(rs)[events_spec(rs.take(i)).len() as int] == process_rec_spec(rs[i])->Ok_0,
    decreases rs.len(),
{
    assert(rs.take(i + 1).drop_last() =~= rs.take(i));
    assert(rs.take(i + 1).last() == rs[i]);
    if i == rs.len() - 1 {
        assert(rs.take(i + 1) =~= rs);
    } else {
        lemma_pipeline_order(rs.drop_last(), i);
        assert(rs.drop_last().take(i) =~= rs.take(i));
        lemma_events_len_monotone(rs.drop_last(), i + 1, rs.len() - 1);
        assert(rs.drop_last().take(i + 1) =~= rs.take(i + 1));
        assert(rs.drop_last().take(rs.len() - 1) =~= rs.drop_last());
    }
}

/// Law: the output keeps the input's relative order: of two records that
/// both survive, the earlier one is emitted at the smaller position.
pub proof fn lemma_pipeline_order_preserved(rs: Seq<Json>, i: int, j: int)
    requires
        0 <= i < j < rs.len(),
        process_rec_spec(rs[i]) is Ok,
        process_rec_spec(rs[j]) is Ok,
    ensures
        events_spec(rs.take(i)).len() < events_spec(rs.take(j)).len(),
{
    assert(rs.take(i + 1).drop_last() =~= rs.take(i));
    assert(rs.take(i + 1).last() == rs[i]);
    lemma_events_len_monotone(rs, i + 1, j);
}

/// Law: when every record survives every stage, the pipeline is
/// one-to-one: the output holds exactly one event per record, each
/// record's own, in the input's order.
pub proof fn lemma_all_valid_one_to_one(rs: Seq<Json>)
    requires
        forall|i: int| 0 <= i < rs.len() ==> process_rec_spec(rs[i]) is Ok,
    ensures
        events_spec(rs).len() == rs.len(),
        forall|i: int| 0 <= i < rs.len() ==> events_spec(rs)[i] == process_rec_spec(rs[i])->Ok_0,
    decreases rs.len(),
{
    if rs.len() > 0 {
        lemma_all_valid_one_to_one(rs.drop_last());
    }
}

/// Law: a record that fails any stage is only dropped: it adds nothing to
/// the output sequence, wherever it stands in the input.
pub proof fn lemma_dropped_record_emits_nothing(rs: Seq<Json>, i: int)
    requires
        0 <= i < rs.len(),
        process_rec_spec(rs[i]) is Err,
    ensures
        events_spec(rs.take(i + 1)) == events_spec(rs.take(i)),
{
    assert(rs.take(i + 1).drop_last() =~= rs.take(i));
    assert(rs.take(i + 1).last() == rs[i]);
}

/// Law: every emitted event carries an email-shaped identity.
pub proof fn lemma_emitted_identity_email_shaped(rs: Seq<Json>, k: int)
    requires
        0 <= k < events_spec(rs).len(),
    ensures
        is_email_shaped(events_spec(rs)[k].user_id@),
    decreases rs.len(),
{
    if rs.len() > 0 {
        let rest = events_spec(rs.drop_last());
        if process_rec_spec(rs.last()) is Ok && k == rest.len() {
        } else {
            lemma_emitted_identity_email_shaped(rs.drop_last(), k);
        }
    }
}

/// Law: the pipeline is a function of the input bytes alone, so re-running
/// it on the same unmodified input yields an identical output sequence
/// (`load_events` pins its result to `pipeline_spec` of its input).
pub proof fn lemma_pipeline_idempotent(s1: Seq<u8>, s2: Seq<u8>)
    requires
        s1 == s2,
    ensures
        pipeline_spec(s1) == pipeline_spec(s2),
{
}

} // verus!
