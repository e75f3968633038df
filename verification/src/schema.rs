//! Structural schemas for provider responses, and their validation.
//!
//! Every provider adapter declares a [`Schema`] describing the required
//! fields, types and patterns of its provider's raw response; the
//! aggregation framework validates a payload against that schema before any
//! mapping is attempted.

use vstd::prelude::*;

use crate::json::{obj_get, JsonValue};
use crate::strutil::is_digit;

verus! {

/// A constraint on a string value.
#[derive(Debug, Clone, PartialEq)]
pub enum StringShape {
    /// Any string.
    AnyText,
    /// A non-empty run of ASCII decimal digits.
    Digits,
}

/// One declared property of an object schema.
#[derive(Debug, PartialEq)]
pub struct Property {
    pub name: String,
    pub required: bool,
    pub shape: Schema,
}

/// A structural description of a JSON value.
#[derive(Debug, PartialEq)]
pub enum Schema {
    BoolShape,
    IntShape,
    StrShape(StringShape),
    ArrayShape { item: Box<Schema>, min_items: usize },
    ObjectShape { properties: Vec<Property> },
}

/// Whether `s` satisfies the string constraint.
pub open spec fn string_shape_ok(shape: StringShape, s: Seq<char>) -> bool {
    match shape {
        StringShape::AnyText => true,
        StringShape::Digits => s.len() > 0 && forall|i: int| 0 <= i < s.len() ==> is_digit(s[i]),
    }
}

/// Whether `v` satisfies `schema`.
pub open spec fn schema_accepts(schema: Schema, v: JsonValue) -> bool
    decreases schema,
{
    match schema {
        Schema::BoolShape => v is Bool,
        Schema::IntShape => v is Int,
        Schema::StrShape(shape) => v matches JsonValue::Str(s) && string_shape_ok(shape, s@),
        Schema::ArrayShape { item, min_items } => v matches JsonValue::Array(els)
            && els@.len() >= min_items && (forall|i: int|
            0 <= i < els@.len() ==> schema_accepts(*item, #[trigger] els@[i])),
        Schema::ObjectShape { properties } => v matches JsonValue::Object(fields) && (forall|
            i: int,
        |
            0 <= i < properties@.len() ==> property_ok(#[trigger] properties@[i], fields@)),
    }
}

/// Whether an object's field list satisfies one declared property: a bound
/// value must satisfy the property's schema, and a required property must be
/// bound.
pub open spec fn property_ok(p: Property, fields: Seq<(String, JsonValue)>) -> bool
    decreases p,
{
    match obj_get(fields, p.name@) {
        Some(v) => schema_accepts(p.shape, v),
        None => !p.required,
    }
}

/// Whether `s` is a non-empty run of ASCII digits.
pub fn all_digits(s: &str) -> (b: bool)
    ensures
        b == string_shape_ok(StringShape::Digits, s@),
{
    let n = s.unicode_len();
    if n == 0 {
        return false;
    }
    let mut i: usize = 0;
    while i < n
        invariant
            i <= n,
            n == s@.len(),
            forall|j: int| 0 <= j < i ==> is_digit(s@[j]),
        decreases n - i,
    {
        let c = s.get_char(i);
        if !('0' <= c && c <= '9') {
            return false;
        }
        i = i + 1;
    }
    true
}

/// Checks `v` against `schema`.
#[verifier::loop_isolation(false)]
pub fn schema_check(schema: &Schema, v: &JsonValue) -> (b: bool)
    ensures
        b == schema_accepts(*schema, *v),
    decreases *schema,
{
    match schema {
        Schema::BoolShape => matches!(v, JsonValue::Bool(_)),
        Schema::IntShape => matches!(v, JsonValue::Int(_)),
        Schema::StrShape(shape) => {
            match v {
                JsonValue::Str(s) => {
                    match shape {
                        StringShape::AnyText => true,
                        StringShape::Digits => all_digits(s.as_str()),
                    }
                },
                _ => false,
            }
        },
        Schema::ArrayShape { item, min_items } => {
            match v {
                JsonValue::Array(els) => {
                    let n = els.len();
                    if n < *min_items {
                        return false;
                    }
                    let mut i: usize = 0;
                    while i < n
                        invariant
                            i <= n,
                            n == els@.len(),
                            forall|j: int| 0 <= j < i ==> schema_accepts(**item, #[trigger] els@[j]),
                        decreases n - i,
                    {
                        if !schema_check(item, &els[i]) {
                            return false;
                        }
                        i = i + 1;
                    }
                    true
                },
                _ => false,
            }
        },
        Schema::ObjectShape { properties } => {
            match v {
                JsonValue::Object(_) => {
                    let n = properties.len();
                    let mut i: usize = 0;
                    while i < n
                        invariant
                            i <= n,
                            n == properties@.len(),
                            v is Object,
                            forall|j: int|
                                0 <= j < i ==> property_ok(
                                    #[trigger] properties@[j],
                                    v->Object_0@,
                                ),
                        decreases n - i,
                    {
                        let p = &properties[i];
                        let found = v.get(p.name.as_str());
                        match found {
                            Some(bound) => {
                                if !schema_check(&p.shape, bound) {
                                    proof {
                                        assert(!property_ok(
                                            properties@[i as int],
                                            v->Object_0@,
                                        ));
                                    }
                                    return false;
                                }
                            },
                            None => {
                                if p.required {
                                    proof {
                                        assert(!property_ok(
                                            properties@[i as int],
                                            v->Object_0@,
                                        ));
                                    }
                                    return false;
                                }
                            },
                        }
                        i = i + 1;
                    }
                    true
                },
                _ => false,
            }
        },
    }
}

} // verus!
