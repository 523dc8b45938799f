//! A plain model of loosely-typed JSON values.
//!
//! The decoder hands every top-level value of the input to the rest of the
//! pipeline in this shape, so that validation, identity resolution and
//! normalization are ordinary verified functions over plain data.

use vstd::prelude::*;
use vstd::string::StrSliceExecFns;

verus! {

/// One loosely-typed JSON value.
///
/// Numbers that are not unsigned integers (floats, negatives, out-of-range
/// values) are collapsed into [`Json::OtherNumber`]: the pipeline never
/// accepts them where it requires an unsigned integer, so their exact value
/// is irrelevant. Object fields keep their order; a lookup takes the first
/// binding of a key.
#[derive(Debug)]
pub enum Json {
    Null,
    Bool(bool),
    UInt(u64),
    OtherNumber,
    Str(String),
    Arr(Vec<Json>),
    Obj(Vec<(String, Json)>),
}

/// The first binding of `key` among `fields`, if any.
pub open spec fn obj_get_spec(fields: Seq<(String, Json)>, key: Seq<char>) -> Option<Json>
    decreases fields.len(),
{
    if fields.len() == 0 {
        None
    } else if fields[0].0@ == key {
        Some(fields[0].1)
    } else {
        obj_get_spec(fields.skip(1), key)
    }
}

/// The string payload of an optional field: present only if the field is
/// present and is a string (a present field of any other type counts as
/// absent).
pub open spec fn opt_str_spec(field: Option<Json>) -> Option<String> {
    match field {
        Some(Json::Str(s)) => Some(s),
        _ => None,
    }
}

/// Character-for-character string equality.
pub fn str_eq(a: &str, b: &str) -> (r: bool)
    ensures
        r == (a@ == b@),
{
    let na = a.unicode_len();
    let nb = b.unicode_len();
    if na != nb {
        return false;
    }
    let mut i: usize = 0;
    while i < na
        invariant
            0 <= i <= na,
            na == a@.len(),
            na == b@.len(),
            forall|j: int| 0 <= j < i ==> a@[j] == b@[j],
        decreases na - i,
    {
        if a.get_char(i) != b.get_char(i) {
            return false;
        }
        i = i + 1;
    }
    proof {
        assert(a@ =~= b@);
    }
    true
}

/// Looks `key` up among `fields`, returning the first binding.
pub fn obj_get<'a>(fields: &'a Vec<(String, Json)>, key: &str) -> (r: Option<&'a Json>)
    ensures
        match r {
            Some(v) => obj_get_spec(fields@, key@) == Some(*v),
            None => obj_get_spec(fields@, key@) is None,
        },
{
    let n = fields.len();
    let mut i: usize = 0;
    proof {
        assert(fields@.skip(0) =~= fields@);
    }
    while i < n
        invariant
            0 <= i <= n,
            n == fields@.len(),
            obj_get_spec(fields@, key@) == obj_get_spec(fields@.skip(i as int), key@),
        decreases n - i,
    {
        if str_eq(fields[i].0.as_str(), key) {
            return Some(&fields[i].1);
        }
        proof {
            assert(fields@.skip(i as int).skip(1) =~= fields@.skip(i + 1));
        }
        i = i + 1;
    }
    None
}

/// Reads an optional string field of an object: the first binding of `key`
/// if it is a string, and `None` otherwise.
pub fn opt_str_field(fields: &Vec<(String, Json)>, key: &str) -> (r: Option<String>)
    ensures
        r == opt_str_spec(obj_get_spec(fields@, key@)),
{
    match obj_get(fields, key) {
        Some(Json::Str(s)) => Some(s.clone()),
        _ => None,
    }
}

} // verus!
