//! The capability contracts every provider adapter satisfies, the canonical
//! metadata shape, and the framework-owned schema validation step.

use vstd::prelude::*;

use crate::errors::ApiError;
use crate::json::JsonValue;
use crate::schema::{schema_accepts, schema_check, Schema};

verus! {

/// The canonical channel-metadata shape: the only representation returned
/// across the provider boundary.
#[derive(Debug, Clone, PartialEq)]
pub struct CanonicalStreamMetadata {
    pub live: bool,
    pub nsfw: bool,
    pub title: String,
    pub thumbnail: String,
    pub viewers: u32,
}

/// The common capability every provider's channel record offers: the five
/// canonical readings. Each implementation pins the reading to a spec-level
/// meaning through the paired spec functions.
pub trait ServiceChannel: Sized {
    /// Well-formedness the adapter's decoding step establishes.
    spec fn inv(&self) -> bool;

    /// The meaning of [`Self::get_live`].
    spec fn spec_live(&self) -> bool;

    /// The meaning of [`Self::is_nsfw`].
    spec fn spec_nsfw(&self) -> bool;

    /// The meaning of [`Self::get_title`].
    spec fn spec_title(&self) -> Seq<char>;

    /// The meaning of [`Self::get_thumbnail`].
    spec fn spec_thumbnail(&self) -> Seq<char>;

    /// The meaning of [`Self::get_viewers`].
    spec fn spec_viewers(&self) -> u32;

    /// Whether the channel is reported live.
    fn get_live(&self) -> (r: bool)
        requires
            self.inv(),
        ensures
            r == self.spec_live(),
    ;

    /// Whether the channel is reported not safe for work.
    fn is_nsfw(&self) -> (r: bool)
        requires
            self.inv(),
        ensures
            r == self.spec_nsfw(),
    ;

    /// The channel's title.
    fn get_title(&self) -> (r: String)
        requires
            self.inv(),
        ensures
            r@ == self.spec_title(),
    ;

    /// The channel's thumbnail URL.
    fn get_thumbnail(&self) -> (r: String)
        requires
            self.inv(),
        ensures
            r@ == self.spec_thumbnail(),
    ;

    /// The channel's viewer count.
    fn get_viewers(&self) -> (r: u32)
        requires
            self.inv(),
        ensures
            r == self.spec_viewers(),
    ;
}

/// Collapses any provider channel record into the canonical metadata shape.
pub fn canonicalize<T: ServiceChannel>(c: &T) -> (m: CanonicalStreamMetadata)
    requires
        c.inv(),
    ensures
        m.live == c.spec_live(),
        m.nsfw == c.spec_nsfw(),
        m.title@ == c.spec_title(),
        m.thumbnail@ == c.spec_thumbnail(),
        m.viewers == c.spec_viewers(),
{
    CanonicalStreamMetadata {
        live: c.get_live(),
        nsfw: c.is_nsfw(),
        title: c.get_title(),
        thumbnail: c.get_thumbnail(),
        viewers: c.get_viewers(),
    }
}

/// Validates a raw provider payload against an adapter's declared schema.
///
/// Succeeds exactly when the payload satisfies the schema; any failure is a
/// `SchemaValidation` error.
pub fn validate_schema(data: &JsonValue, schema: &Schema) -> (r: Result<(), ApiError>)
    ensures
        r is Ok <==> schema_accepts(*schema, *data),
        r matches Err(e) ==> e is SchemaValidation,
{
    if schema_check(schema, data) {
        Ok(())
    } else {
        Err(
            ApiError::SchemaValidation(
                String::from_str("response does not satisfy the declared schema"),
            ),
        )
    }
}

impl CanonicalStreamMetadata {
    /// The canonical wire shape `{online, nsfw, title, thumbnail, viewers}`,
    /// with the fields in exactly that order.
    pub fn to_json(&self) -> (v: JsonValue)
        ensures
            ({
                &&& v matches JsonValue::Object(fs)
                &&& fs@.len() == 5
                &&& fs@[0].0@ == "online"@ && fs@[0].1 == JsonValue::Bool(self.live)
                &&& fs@[1].0@ == "nsfw"@ && fs@[1].1 == JsonValue::Bool(self.nsfw)
                &&& fs@[2].0@ == "title"@ && fs@[2].1 == JsonValue::Str(self.title)
                &&& fs@[3].0@ == "thumbnail"@ && fs@[3].1 == JsonValue::Str(self.thumbnail)
                &&& fs@[4].0@ == "viewers"@
                &&& fs@[4].1 matches JsonValue::Int(n)
                &&& n == self.viewers
            }),
    {
        let mut fields: Vec<(String, JsonValue)> = Vec::new();
        fields.push((String::from_str("online"), JsonValue::Bool(self.live)));
        fields.push((String::from_str("nsfw"), JsonValue::Bool(self.nsfw)));
        fields.push((String::from_str("title"), JsonValue::Str(self.title.clone())));
        fields.push((String::from_str("thumbnail"), JsonValue::Str(self.thumbnail.clone())));
        fields.push((String::from_str("viewers"), JsonValue::Int(self.viewers as i64)));
        JsonValue::Object(fields)
    }
}

/// An upstream HTTP request an adapter asks the I/O layer to perform: the
/// URL, the query pairs to append, and the headers to set.
#[derive(Debug, Clone, PartialEq)]
pub struct UpstreamRequest {
    pub url: String,
    pub query: Vec<(String, String)>,
    pub headers: Vec<(String, String)>,
}

} // verus!
