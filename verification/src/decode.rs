//! The raw record decoder.
//!
//! Turns a byte stream into the sequence of loosely-typed JSON values it
//! contains, one per top-level JSON value, in order. Parsing one value at
//! a time is delegated to the `serde_json` crate behind a trusted wrapper;
//! the decode loop itself is verified: it walks the input, collects each
//! parsed value, and on a malformed element skips one byte and tries
//! again, so a syntax error loses at most that stretch of input, never the
//! rest of the stream.

use crate::json::Json;
use vstd::prelude::*;
use vstd::slice::slice_subrange;

verus! {

#[verifier::external_type_specification]
#[verifier::external_body]
pub struct ExValue(serde_json::Value);

/// Converts one `serde_json::Value` into the library's plain [`Json`]
/// model, so the pipeline's verified logic can read it. Relies on
/// `serde_json::Value` only as an opaque tree that is walked variant by
/// variant; numbers that are not unsigned 64-bit integers collapse into
/// [`Json::OtherNumber`]. Called only by [`parse_first`] below.
#[verifier::external_body]
fn json_of_value(v: &serde_json::Value) -> (r: Json) {
    match v {
        serde_json::Value::Null => Json::Null,
        serde_json::Value::Bool(b) => Json::Bool(*b),
        serde_json::Value::Number(n) => match n.as_u64() {
            Some(u) => Json::UInt(u),
            None => Json::OtherNumber,
        },
        serde_json::Value::String(s) => Json::Str(s.clone()),
        serde_json::Value::Array(a) => Json::Arr(a.iter().map(json_of_value).collect()),
        serde_json::Value::Object(o) => Json::Obj(
            o.iter().map(|(k, x)| (k.clone(), json_of_value(x))).collect(),
        ),
    }
}

/// The first JSON value among `s`, as the library models it, together
/// with the count of bytes up to its end; `None` when `s` holds no
/// leading well-formed value. What this is on given bytes is exactly what
/// `serde_json` parses, so it stays uninterpreted; [`parse_first`] is the
/// one way to learn it.
pub uninterp spec fn first_doc_of(s: Seq<u8>) -> Option<(Json, int)>;

/// Parses the first JSON value of the input. Relies on
/// `serde_json::Deserializer::from_slice` with `StreamDeserializer`: the
/// result is a function of the input bytes alone; after a successfully
/// parsed value, `byte_offset` is the offset just past that value, so it
/// is at least 1 and at most the input length.
#[verifier::external_body]
fn parse_first(input: &[u8]) -> (r: Option<(Json, usize)>)
    ensures
        r matches Some(p) ==> first_doc_of(input@) == Some((p.0, p.1 as int)) && 1 <= p.1
            <= input@.len(),
        r is None ==> first_doc_of(input@) is None,
{
    let mut iter = serde_json::Deserializer::from_slice(input).into_iter::<serde_json::Value>();
    match iter.next() {
        Some(Ok(v)) => Some((json_of_value(&v), iter.byte_offset())),
        _ => None,
    }
}

/// The sequence of JSON values decoded from `s` at and after position `p`:
/// each leading value in turn, skipping one byte past a malformed element
/// and trying again.
pub open spec fn decode_from(s: Seq<u8>, p: int) -> Seq<Json>
    decreases s.len() - p,
{
    if p < 0 || p >= s.len() {
        Seq::empty()
    } else {
        match first_doc_of(s.skip(p)) {
            Some(pr) => if 1 <= pr.1 && pr.1 <= s.len() - p {
                seq![pr.0] + decode_from(s, p + pr.1)
            } else {
                seq![pr.0]
            },
            None => decode_from(s, p + 1),
        }
    }
}

/// The sequence of JSON values decoded from the whole input.
pub open spec fn decode_spec(s: Seq<u8>) -> Seq<Json> {
    decode_from(s, 0)
}

/// Decodes a byte stream into the loosely-typed JSON values it contains,
/// one per top-level JSON value, in input order. A malformed element
/// costs only the bytes up to the next decodable value: the loop skips
/// one byte and continues.
pub fn decode_docs(input: &[u8]) -> (r: Vec<Json>)
    ensures
        r@ == decode_spec(input@),
{
    let n = input.len();
    let mut out: Vec<Json> = Vec::new();
    let mut p: usize = 0;
    while p < n
        invariant
            0 <= p <= n,
            n == input@.len(),
            decode_spec(input@) == out@ + decode_from(input@, p as int),
        decreases n - p,
    {
        match parse_first(slice_subrange(input, p, n)) {
            Some((doc, used)) => {
                proof {
                    assert(input@.subrange(p as int, n as int) =~= input@.skip(p as int));
                    assert(out@ + (seq![doc] + decode_from(input@, p + used)) =~= (out@
                        + seq![doc]) + decode_from(input@, p + used));
                }
                out.push(doc);
                p = p + used;
            },
            None => {
                proof {
                    assert(input@.subrange(p as int, n as int) =~= input@.skip(p as int));
                }
                p = p + 1;
            },
        }
    }
    proof {
        assert(out@ + decode_from(input@, p as int) =~= out@);
    }
    out
}

} // verus!
