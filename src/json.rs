use vstd::prelude::*;

verus! {

/// A JSON document, as exchanged on both channels.
pub enum Json {
    Null,
    Bool(bool),
    Int(i64),
    /// A number that is not a 64-bit signed integer, kept as its text.
    Number(String),
    Str(String),
    Array(Vec<Json>),
    Object(Vec<(String, Json)>),
}

/// The value stored under the first entry of `fields` named `key`.
pub open spec fn lookup(fields: Seq<(String, Json)>, key: Seq<char>) -> Option<Json>
    decreases fields.len(),
{
    if fields.len() == 0 {
        None
    } else if fields[0].0@ == key {
        Some(fields[0].1)
    } else {
        lookup(fields.drop_first(), key)
    }
}

/// `j` is the string `s`.
pub open spec fn is_str(j: Json, s: Seq<char>) -> bool {
    j matches Json::Str(t) && t@ == s
}

/// `j` is the boolean `b`.
pub open spec fn is_bool(j: Json, b: bool) -> bool {
    j matches Json::Bool(c) && c == b
}

/// The value under `key` when `j` is an object.
pub open spec fn get(j: Json, key: Seq<char>) -> Option<Json> {
    match j {
        Json::Object(f) => lookup(f@, key),
        _ => None,
    }
}

/// The value under `key` of an optional document.
pub open spec fn get_in(o: Option<Json>, key: Seq<char>) -> Option<Json> {
    match o {
        Some(j) => get(j, key),
        None => None,
    }
}

/// The string held by an optional value.
pub open spec fn as_string(o: Option<Json>) -> Option<String> {
    match o {
        Some(Json::Str(s)) => Some(s),
        _ => None,
    }
}

/// The integer held by an optional value, when it fits in an `i32`.
pub open spec fn as_i32(o: Option<Json>) -> Option<i32> {
    match o {
        Some(Json::Int(n)) => if i32::MIN <= n <= i32::MAX {
            Some(n as i32)
        } else {
            None
        },
        _ => None,
    }
}

/// The integer held by an optional value.
pub open spec fn as_i64(o: Option<Json>) -> Option<i64> {
    match o {
        Some(Json::Int(n)) => Some(n),
        _ => None,
    }
}

/// An optional `i32` field: absent and `null` both mean `None`; any other shape is refused.
pub open spec fn as_opt_i32(o: Option<Json>) -> Option<Option<i32>> {
    match o {
        None => Some(None),
        Some(Json::Null) => Some(None),
        _ => match as_i32(o) {
            Some(n) => Some(Some(n)),
            None => None,
        },
    }
}

/// An optional string field: absent and `null` both mean `None`; any other shape is refused.
pub open spec fn as_opt_string(o: Option<Json>) -> Option<Option<String>> {
    match o {
        None => Some(None),
        Some(Json::Null) => Some(None),
        Some(Json::Str(s)) => Some(Some(s)),
        _ => None,
    }
}

/// Why a JSON document is not a message of a channel's vocabulary.
#[derive(PartialEq, Eq, Structural, Debug, Clone, Copy)]
pub enum DecodeError {
    /// The document carries no string discriminant.
    MissingTag,
    /// The discriminant names no message that this side can read.
    UnknownTag,
    /// A field that the message requires is absent or of the wrong shape.
    BadField,
}

/// Compares a string with a literal.
pub fn str_is(s: &String, lit: &str) -> (r: bool)
    ensures
        r == (s@ == lit@),
{
    let o = lit.to_owned();
    s.eq(&o)
}

/// Looks up the first entry named `key`.
pub fn find_field<'a>(fields: &'a Vec<(String, Json)>, key: &str) -> (r: Option<&'a Json>)
    ensures
        match r {
            Some(v) => lookup(fields@, key@) == Some(*v),
            None => lookup(fields@, key@) is None,
        },
{
    let k = key.to_owned();
    let mut i: usize = 0;
    assert(fields@.subrange(0, fields@.len() as int) =~= fields@);
    while i < fields.len()
        invariant
            i <= fields@.len(),
            k@ == key@,
            lookup(fields@, key@) == lookup(fields@.subrange(i as int, fields@.len() as int), key@),
        decreases fields.len() - i,
    {
        let ghost rest = fields@.subrange(i as int, fields@.len() as int);
        assert(rest.drop_first() =~= fields@.subrange(i + 1, fields@.len() as int));
        if fields[i].0 == k {
            return Some(&fields[i].1);
        }
        i = i + 1;
    }
    None
}

/// The value under `key` when `j` is an object.
pub fn get_field<'a>(j: &'a Json, key: &str) -> (r: Option<&'a Json>)
    ensures
        match r {
            Some(v) => get(*j, key@) == Some(*v),
            None => get(*j, key@) is None,
        },
{
    match j {
        Json::Object(f) => find_field(f, key),
        _ => None,
    }
}

/// The string under `key`, copied out.
pub fn string_field(j: &Json, key: &str) -> (r: Option<String>)
    ensures
        r == as_string(get(*j, key@)),
{
    match get_field(j, key) {
        Some(Json::Str(s)) => Some(s.clone()),
        _ => None,
    }
}

/// The `i32` under `key`.
pub fn i32_field(j: &Json, key: &str) -> (r: Option<i32>)
    ensures
        r == as_i32(get(*j, key@)),
{
    match get_field(j, key) {
        Some(Json::Int(n)) => if i32::MIN as i64 <= *n && *n <= i32::MAX as i64 {
            Some(*n as i32)
        } else {
            None
        },
        _ => None,
    }
}

/// The `i64` under `key`.
pub fn i64_field(j: &Json, key: &str) -> (r: Option<i64>)
    ensures
        r == as_i64(get(*j, key@)),
{
    match get_field(j, key) {
        Some(Json::Int(n)) => Some(*n),
        _ => None,
    }
}

/// The optional `i32` under `key`.
pub fn opt_i32_field(j: &Json, key: &str) -> (r: Option<Option<i32>>)
    ensures
        r == as_opt_i32(get(*j, key@)),
{
    match get_field(j, key) {
        None => Some(None),
        Some(Json::Null) => Some(None),
        Some(_) => match i32_field(j, key) {
            Some(n) => Some(Some(n)),
            None => None,
        },
    }
}

/// The optional string under `key`.
pub fn opt_string_field(j: &Json, key: &str) -> (r: Option<Option<String>>)
    ensures
        r == as_opt_string(get(*j, key@)),
{
    match get_field(j, key) {
        None => Some(None),
        Some(Json::Null) => Some(None),
        Some(Json::Str(s)) => Some(Some(s.clone())),
        Some(_) => None,
    }
}

/// An entry `key: value`.
pub fn entry(key: &str, value: Json) -> (r: (String, Json))
    ensures
        r.0@ == key@,
        r.1 == value,
{
    (key.to_owned(), value)
}

/// The string value `s` as JSON.
pub fn text(s: &str) -> (r: Json)
    ensures
        is_str(r, s@),
{
    Json::Str(s.to_owned())
}

} // verus!
