//! A JSON value as the library reads it.
//!
//! Integers are held as `i64`, the form the storage layer stores and binds;
//! any other number (a fraction, or an integer beyond `i64`) is held as its
//! JSON text, which the library carries through unread. The caller converts
//! to and from `serde_json::Value` at the edge.
use vstd::prelude::*;
use crate::text::{chars_eq, chars_of};

verus! {

#[derive(Debug, PartialEq)]
pub enum JsonValue {
    Null,
    Bool(bool),
    Number(i64),
    /// A number that is not an `i64`, as its JSON text.
    NumberText(String),
    String(String),
    Array(Vec<JsonValue>),
    Object(Vec<(String, JsonValue)>),
}

/// The first field of an object named `name`.
pub open spec fn field_lookup(fields: Seq<(String, JsonValue)>, name: Seq<char>) -> Option<JsonValue>
    decreases fields.len(),
{
    if fields.len() == 0 {
        None
    } else if fields[0].0@ == name {
        Some(fields[0].1)
    } else {
        field_lookup(fields.drop_first(), name)
    }
}

/// The first field named `name`, by reference.
pub fn lookup_field<'a>(fields: &'a Vec<(String, JsonValue)>, name: &Vec<char>) -> (r: Option<
    &'a JsonValue,
>)
    ensures
        match r {
            Some(v) => field_lookup(fields@, name@) == Some(*v),
            None => field_lookup(fields@, name@) is None,
        },
{
    let mut i: usize = 0;
    assert(fields@.skip(0) =~= fields@);
    while i < fields.len()
        invariant
            i <= fields@.len(),
            field_lookup(fields@, name@) == field_lookup(fields@.skip(i as int), name@),
        decreases fields.len() - i,
    {
        proof {
            assert(fields@.skip(i as int).drop_first() =~= fields@.skip(i + 1));
            assert(fields@.skip(i as int)[0] == fields@[i as int]);
        }
        let n = chars_of(fields[i].0.as_str());
        if chars_eq(&n, name) {
            return Some(&fields[i].1);
        }
        i += 1;
    }
    None
}

/// The member `key` of an object (none for other values).
pub open spec fn json_get(v: JsonValue, key: Seq<char>) -> Option<JsonValue> {
    match v {
        JsonValue::Object(fields) => field_lookup(fields@, key),
        _ => None,
    }
}

/// The text of a string value.
pub open spec fn json_text(v: Option<JsonValue>) -> Option<Seq<char>> {
    match v {
        Some(JsonValue::String(s)) => Some(s@),
        _ => None,
    }
}

/// The member `key` of an object, by reference.
pub fn get_member<'a>(v: &'a JsonValue, key: &str) -> (r: Option<&'a JsonValue>)
    ensures
        match r {
            Some(m) => json_get(*v, key@) == Some(*m),
            None => json_get(*v, key@) is None,
        },
{
    match v {
        JsonValue::Object(fields) => {
            let k = chars_of(key);
            lookup_field(fields, &k)
        },
        _ => None,
    }
}

/// The text of the member `key` of an object, when it is a string.
pub fn get_text_member<'a>(v: &'a JsonValue, key: &str) -> (r: Option<&'a String>)
    ensures
        match r {
            Some(s) => json_text(json_get(*v, key@)) == Some(s@),
            None => json_text(json_get(*v, key@)) is None,
        },
{
    match get_member(v, key) {
        Some(JsonValue::String(s)) => Some(s),
        _ => None,
    }
}

} // verus!
