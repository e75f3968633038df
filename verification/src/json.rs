//! A plain model of JSON data: the shape the aggregation framework validates
//! and maps. The boundary code converts raw provider payloads into this
//! representation before handing them to the library.

use vstd::prelude::*;

use crate::strutil::str_eq;

verus! {

/// A JSON value, held as plain data.
///
/// Integral numbers are held as `i64`; a number outside that range or with a
/// fractional part is held as `NonIntegralNumber`, which no schema or
/// mapping in this crate accepts.
#[derive(Debug, PartialEq)]
pub enum JsonValue {
    Null,
    Bool(bool),
    Int(i64),
    NonIntegralNumber,
    Str(String),
    Array(Vec<JsonValue>),
    Object(Vec<(String, JsonValue)>),
}

/// First value bound to `key` in an object's field list, if any.
pub open spec fn obj_get(fields: Seq<(String, JsonValue)>, key: Seq<char>) -> Option<JsonValue>
    decreases fields.len(),
{
    if fields.len() == 0 {
        None
    } else if fields[0].0@ == key {
        Some(fields[0].1)
    } else {
        obj_get(fields.drop_first(), key)
    }
}

/// The value bound to `key` when `v` is an object that binds it.
pub open spec fn get_field(v: JsonValue, key: Seq<char>) -> Option<JsonValue> {
    match v {
        JsonValue::Object(fields) => obj_get(fields@, key),
        _ => None,
    }
}

/// The characters of the string bound to `key`, when `v` binds it to a
/// string.
pub open spec fn str_field(v: JsonValue, key: Seq<char>) -> Option<Seq<char>> {
    match get_field(v, key) {
        Some(JsonValue::Str(s)) => Some(s@),
        _ => None,
    }
}

/// The integer bound to `key`, when `v` binds it to an integral number.
pub open spec fn int_field(v: JsonValue, key: Seq<char>) -> Option<i64> {
    match get_field(v, key) {
        Some(JsonValue::Int(n)) => Some(n),
        _ => None,
    }
}

/// The flag bound to `key`, when `v` binds it to a boolean.
pub open spec fn bool_field(v: JsonValue, key: Seq<char>) -> Option<bool> {
    match get_field(v, key) {
        Some(JsonValue::Bool(b)) => Some(b),
        _ => None,
    }
}

/// The elements bound to `key`, when `v` binds it to an array.
pub open spec fn array_field(v: JsonValue, key: Seq<char>) -> Option<Seq<JsonValue>> {
    match get_field(v, key) {
        Some(JsonValue::Array(els)) => Some(els@),
        _ => None,
    }
}

impl JsonValue {
    /// Looks up `key` when `self` is an object.
    pub fn get<'a>(&'a self, key: &str) -> (r: Option<&'a JsonValue>)
        ensures
            r matches Some(j) ==> get_field(*self, key@) == Some(*j),
            r is None <==> get_field(*self, key@) is None,
    {
        match self {
            JsonValue::Object(fields) => {
                let n = fields.len();
                proof {
                    assert(get_field(*self, key@) == obj_get(fields@, key@));
                    assert(fields@.subrange(0, n as int) =~= fields@);
                }
                let mut i: usize = 0;
                while i < n
                    invariant
                        i <= n,
                        n == fields@.len(),
                        get_field(*self, key@) == obj_get(fields@, key@),
                        obj_get(fields@, key@) == obj_get(
                            fields@.subrange(i as int, n as int),
                            key@,
                        ),
                    decreases n - i,
                {
                    let pair = &fields[i];
                    if str_eq(pair.0.as_str(), key) {
                        proof {
                            assert(obj_get(fields@.subrange(i as int, n as int), key@) == Some(
                                fields@[i as int].1,
                            ));
                        }
                        return Some(&fields[i].1);
                    }
                    proof {
                        assert(fields@.subrange(i as int, n as int).drop_first() =~= fields@
                            .subrange(i + 1 as int, n as int));
                    }
                    i = i + 1;
                }
                proof {
                    assert(fields@.subrange(n as int, n as int).len() == 0);
                }
                None
            },
            _ => None,
        }
    }

    /// The carried string when `self` is a string value.
    pub fn as_str_value<'a>(&'a self) -> (r: Option<&'a String>)
        ensures
            r matches Some(s) ==> *self == JsonValue::Str(*s),
            r is None <==> !(*self is Str),
    {
        match self {
            JsonValue::Str(s) => Some(s),
            _ => None,
        }
    }

    /// The carried integer when `self` is an integral number.
    pub fn as_int(&self) -> (r: Option<i64>)
        ensures
            r matches Some(n) ==> *self == JsonValue::Int(n),
            r is None <==> !(*self is Int),
    {
        match self {
            JsonValue::Int(n) => Some(*n),
            _ => None,
        }
    }

    /// The carried flag when `self` is a boolean.
    pub fn as_bool(&self) -> (r: Option<bool>)
        ensures
            r matches Some(b) ==> *self == JsonValue::Bool(b),
            r is None <==> !(*self is Bool),
    {
        match self {
            JsonValue::Bool(b) => Some(*b),
            _ => None,
        }
    }

    /// The elements when `self` is an array.
    pub fn as_array<'a>(&'a self) -> (r: Option<&'a Vec<JsonValue>>)
        ensures
            r matches Some(a) ==> *self == JsonValue::Array(*a),
            r is None <==> !(*self is Array),
    {
        match self {
            JsonValue::Array(a) => Some(a),
            _ => None,
        }
    }
}

} // verus!
