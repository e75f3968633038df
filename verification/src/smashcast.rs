//! The legacy array-wrapped provider: no authentication, the payload wraps
//! its records in a `livestream` array whose first element is taken, the
//! live flag is a boolean-as-string (`"1"`/`"0"`), and no maturity rating is
//! available, so `nsfw` is always `false`.

use vstd::prelude::*;

use crate::errors::ApiError;
use crate::json::{array_field, str_field, JsonValue};
use crate::schema::{schema_accepts, property_ok, Property, Schema, StringShape};
use crate::service::{validate_schema, ServiceChannel, UpstreamRequest};
use crate::strutil::{digits_str, digits_val, parse_u32, str_eq};

verus! {

/// The provider's API endpoint, completed with the channel name.
pub fn base_url() -> (r: &'static str)
    ensures
        r@ == "https://api.smashcast.tv/media/live/"@,
{
    "https://api.smashcast.tv/media/live/"
}

/// The client for this provider. The provider needs no authentication, so
/// the client carries no state; the I/O layer performs the request it
/// describes.
#[derive(Debug, Clone, PartialEq)]
pub struct Client {}

impl Client {
    /// A client for this provider.
    pub fn new() -> (r: Client)
        ensures
            r == (Client {  }),
    {
        Client {  }
    }

    /// The upstream request for a channel lookup by name: the endpoint with
    /// the name appended, no query pairs, no headers.
    pub fn request(&self, name: &str) -> (r: UpstreamRequest)
        ensures
            r.url@ == "https://api.smashcast.tv/media/live/"@ + name@,
            r.query@.len() == 0,
            r.headers@.len() == 0,
    {
        let mut url = String::from_str(base_url());
        url.append(name);
        UpstreamRequest { url, query: Vec::new(), headers: Vec::new() }
    }
}

/// The raw channel record of this provider, decoded from a validated
/// payload.
#[derive(Debug, Clone, PartialEq)]
pub struct Channel {
    pub media_is_live: String,
    pub media_status: String,
    pub media_views: String,
    pub media_thumbnail: String,
}

/// The envelope the provider wraps its records in.
#[derive(Debug, Clone, PartialEq)]
pub struct VideosResult {
    pub livestream: Vec<Channel>,
}

/// One record of the `livestream` array has the four required string
/// fields, with `media_views` a run of digits.
pub open spec fn entry_ok(e: JsonValue) -> bool {
    &&& str_field(e, "media_status"@) is Some
    &&& str_field(e, "media_is_live"@) is Some
    &&& str_field(e, "media_thumbnail"@) is Some
    &&& str_field(e, "media_views"@) matches Some(d) && digits_str(d)
}

/// The declared response schema: an object with a required `livestream`
/// array of at least one record.
pub open spec fn response_schema_ok(v: JsonValue) -> bool {
    &&& array_field(v, "livestream"@) matches Some(els)
    &&& els.len() >= 1
    &&& forall|i: int| 0 <= i < els.len() ==> entry_ok(#[trigger] els[i])
}

/// The first record of the `livestream` array.
pub open spec fn first_entry(v: JsonValue) -> JsonValue {
    array_field(v, "livestream"@)->Some_0[0]
}

/// The payload holds a non-empty `livestream` array whose first record is
/// decodable. Schema validation guarantees this for every accepted payload.
pub open spec fn first_decodable(v: JsonValue) -> bool {
    &&& array_field(v, "livestream"@) matches Some(els)
    &&& els.len() >= 1
    &&& entry_ok(els[0])
}

/// Whether the first record's viewer count fits a `u32`.
pub open spec fn viewers_fit(v: JsonValue) -> bool {
    digits_val(str_field(first_entry(v), "media_views"@)->Some_0) <= u32::MAX
}

/// Structure of the schema value this adapter declares.
pub open spec fn is_declared_schema(s: Schema) -> bool {
    &&& s matches Schema::ObjectShape { properties }
    &&& properties@.len() == 1
    &&& properties@[0].name@ == "livestream"@
    &&& properties@[0].required
    &&& properties@[0].shape matches Schema::ArrayShape { item, min_items }
    &&& min_items == 1
    &&& is_declared_entry_schema(*item)
}

/// Structure of the per-record schema inside the `livestream` array.
pub open spec fn is_declared_entry_schema(s: Schema) -> bool {
    &&& s matches Schema::ObjectShape { properties }
    &&& properties@.len() == 4
    &&& properties@[0].name@ == "media_status"@ && properties@[0].required && properties@[0].shape
        == Schema::StrShape(StringShape::AnyText)
    &&& properties@[1].name@ == "media_is_live"@ && properties@[1].required && properties@[1].shape
        == Schema::StrShape(StringShape::AnyText)
    &&& properties@[2].name@ == "media_thumbnail"@ && properties@[2].required
        && properties@[2].shape == Schema::StrShape(StringShape::AnyText)
    &&& properties@[3].name@ == "media_views"@ && properties@[3].required && properties@[3].shape
        == Schema::StrShape(StringShape::Digits)
}

/// The schema this adapter declares for the provider's response.
pub fn get_schema() -> (s: Schema)
    ensures
        is_declared_schema(s),
{
    let mut entry_props: Vec<Property> = Vec::new();
    entry_props.push(
        Property {
            name: String::from_str("media_status"),
            required: true,
            shape: Schema::StrShape(StringShape::AnyText),
        },
    );
    entry_props.push(
        Property {
            name: String::from_str("media_is_live"),
            required: true,
            shape: Schema::StrShape(StringShape::AnyText),
        },
    );
    entry_props.push(
        Property {
            name: String::from_str("media_thumbnail"),
            required: true,
            shape: Schema::StrShape(StringShape::AnyText),
        },
    );
    entry_props.push(
        Property {
            name: String::from_str("media_views"),
            required: true,
            shape: Schema::StrShape(StringShape::Digits),
        },
    );
    let entry = Schema::ObjectShape { properties: entry_props };
    let mut props: Vec<Property> = Vec::new();
    props.push(
        Property {
            name: String::from_str("livestream"),
            required: true,
            shape: Schema::ArrayShape { item: Box::new(entry), min_items: 1 },
        },
    );
    Schema::ObjectShape { properties: props }
}

/// A schema value of the declared structure accepts exactly the payloads
/// that [`response_schema_ok`] describes.
proof fn lemma_declared_schema_denotation(s: Schema, v: JsonValue)
    requires
        is_declared_schema(s),
    ensures
        schema_accepts(s, v) == response_schema_ok(v),
{
    let props = s->ObjectShape_properties@;
    let p0 = props[0];
    let item = *p0.shape->ArrayShape_item;
    if v is Object {
        let fields = v->Object_0@;
        match crate::json::obj_get(fields, "livestream"@) {
            Some(arr) => {
                if arr is Array {
                    let els = arr->Array_0@;
                    assert forall|i: int| 0 <= i < els.len() implies (schema_accepts(
                        item,
                        #[trigger] els[i],
                    ) == entry_ok(els[i])) by {
                        lemma_declared_entry_denotation(item, els[i]);
                    }
                    if schema_accepts(s, v) {
                        assert(property_ok(p0, fields));
                        assert(response_schema_ok(v));
                    }
                    if response_schema_ok(v) {
                        assert(schema_accepts(p0.shape, arr));
                        assert forall|i: int| 0 <= i < props.len() implies property_ok(
                            #[trigger] props[i],
                            fields,
                        ) by {
                            assert(i == 0);
                        }
                        assert(schema_accepts(s, v));
                    }
                } else {
                    assert(!response_schema_ok(v));
                    if schema_accepts(s, v) {
                        assert(property_ok(p0, fields));
                        assert(false);
                    }
                }
            },
            None => {
                assert(!response_schema_ok(v));
                if schema_accepts(s, v) {
                    assert(property_ok(p0, fields));
                    assert(false);
                }
            },
        }
    }
}

/// A per-record schema value of the declared structure accepts exactly the
/// records that [`entry_ok`] describes.
proof fn lemma_declared_entry_denotation(s: Schema, e: JsonValue)
    requires
        is_declared_entry_schema(s),
    ensures
        schema_accepts(s, e) == entry_ok(e),
{
    let ps = s->ObjectShape_properties@;
    if e is Object {
        let efs = e->Object_0@;
        if schema_accepts(s, e) {
            assert(property_ok(ps[0], efs));
            assert(property_ok(ps[1], efs));
            assert(property_ok(ps[2], efs));
            assert(property_ok(ps[3], efs));
        }
        if entry_ok(e) {
            assert forall|i: int| 0 <= i < ps.len() implies property_ok(
                #[trigger] ps[i],
                efs,
            ) by {
                assert(i == 0 || i == 1 || i == 2 || i == 3);
            }
        }
    }
}

/// Decodes a validated payload into the provider's channel record: the
/// first element of the `livestream` array, with the viewer count required
/// to fit a `u32`.
fn decode(v: &JsonValue) -> (r: Result<Channel, ApiError>)
    ensures
        r is Ok <==> first_decodable(*v) && viewers_fit(*v),
        r matches Ok(c) ==> {
            let e = first_entry(*v);
            &&& c.media_status@ == str_field(e, "media_status"@)->Some_0
            &&& c.media_is_live@ == str_field(e, "media_is_live"@)->Some_0
            &&& c.media_thumbnail@ == str_field(e, "media_thumbnail"@)->Some_0
            &&& c.media_views@ == str_field(e, "media_views"@)->Some_0
            &&& c.inv()
        },
        r matches Err(err) ==> err is UpstreamRequestFailure,
{
    let failure = "payload does not hold a decodable livestream record";
    let els = match v.get("livestream") {
        Some(lv) => {
            match lv.as_array() {
                Some(els) => els,
                None => {
                    return Err(ApiError::UpstreamRequestFailure(String::from_str(failure)));
                },
            }
        },
        None => {
            return Err(ApiError::UpstreamRequestFailure(String::from_str(failure)));
        },
    };
    if els.len() == 0 {
        return Err(ApiError::UpstreamRequestFailure(String::from_str(failure)));
    }
    let e = &els[0];
    let media_status = match e.get("media_status") {
        Some(j) => {
            match j.as_str_value() {
                Some(s) => s.clone(),
                None => {
                    return Err(ApiError::UpstreamRequestFailure(String::from_str(failure)));
                },
            }
        },
        None => {
            return Err(ApiError::UpstreamRequestFailure(String::from_str(failure)));
        },
    };
    let media_is_live = match e.get("media_is_live") {
        Some(j) => {
            match j.as_str_value() {
                Some(s) => s.clone(),
                None => {
                    return Err(ApiError::UpstreamRequestFailure(String::from_str(failure)));
                },
            }
        },
        None => {
            return Err(ApiError::UpstreamRequestFailure(String::from_str(failure)));
        },
    };
    let media_thumbnail = match e.get("media_thumbnail") {
        Some(j) => {
            match j.as_str_value() {
                Some(s) => s.clone(),
                None => {
                    return Err(ApiError::UpstreamRequestFailure(String::from_str(failure)));
                },
            }
        },
        None => {
            return Err(ApiError::UpstreamRequestFailure(String::from_str(failure)));
        },
    };
    let media_views = match e.get("media_views") {
        Some(j) => {
            match j.as_str_value() {
                Some(s) => s.clone(),
                None => {
                    return Err(ApiError::UpstreamRequestFailure(String::from_str(failure)));
                },
            }
        },
        None => {
            return Err(ApiError::UpstreamRequestFailure(String::from_str(failure)));
        },
    };
    match parse_u32(media_views.as_str()) {
        Some(_) => {},
        None => {
            return Err(
                ApiError::UpstreamRequestFailure(
                    String::from_str("viewer count is not a u32 digit string"),
                ),
            );
        },
    }
    Ok(Channel { media_is_live, media_status, media_views, media_thumbnail })
}

/// Interprets a raw provider payload: validates it against the declared
/// schema, then decodes the first livestream record. A payload that fails
/// the schema is reported as `SchemaValidation` and never reaches decoding;
/// a post-validation decode failure (a viewer count that does not fit) is
/// reported as `UpstreamRequestFailure`.
pub fn get_channel_from_response(v: &JsonValue) -> (r: Result<Channel, ApiError>)
    ensures
        r is Ok <==> response_schema_ok(*v) && viewers_fit(*v),
        r matches Ok(c) ==> {
            let e = first_entry(*v);
            &&& c.media_status@ == str_field(e, "media_status"@)->Some_0
            &&& c.media_is_live@ == str_field(e, "media_is_live"@)->Some_0
            &&& c.media_thumbnail@ == str_field(e, "media_thumbnail"@)->Some_0
            &&& c.media_views@ == str_field(e, "media_views"@)->Some_0
            &&& c.inv()
        },
        !response_schema_ok(*v) ==> (r matches Err(err) ==> err is SchemaValidation),
        response_schema_ok(*v) && !viewers_fit(*v) ==> (r matches Err(err) ==> err
            is UpstreamRequestFailure),
{
    let schema = get_schema();
    proof {
        lemma_declared_schema_denotation(schema, *v);
    }
    match validate_schema(v, &schema) {
        Ok(()) => decode(v),
        Err(e) => Err(e),
    }
}

impl ServiceChannel for Channel {
    /// The viewer count field decodes as a `u32`.
    open spec fn inv(&self) -> bool {
        digits_str(self.media_views@) && digits_val(self.media_views@) <= u32::MAX
    }

    open spec fn spec_live(&self) -> bool {
        self.media_is_live@ == "1"@
    }

    open spec fn spec_nsfw(&self) -> bool {
        false
    }

    open spec fn spec_title(&self) -> Seq<char> {
        self.media_status@
    }

    open spec fn spec_thumbnail(&self) -> Seq<char> {
        "https://edge.sf.hitbox.tv"@ + self.media_thumbnail@
    }

    open spec fn spec_viewers(&self) -> u32 {
        digits_val(self.media_views@) as u32
    }

    fn get_live(&self) -> (r: bool) {
        str_eq(self.media_is_live.as_str(), "1")
    }

    fn is_nsfw(&self) -> (r: bool) {
        false
    }

    fn get_title(&self) -> (r: String) {
        self.media_status.clone()
    }

    fn get_thumbnail(&self) -> (r: String) {
        let mut out = String::from_str("https://edge.sf.hitbox.tv");
        out.append(self.media_thumbnail.as_str());
        out
    }

    fn get_viewers(&self) -> (r: u32) {
        match parse_u32(self.media_views.as_str()) {
            Some(n) => n,
            None => 0,
        }
    }
}

} // verus!
