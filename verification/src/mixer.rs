//! The deprecated flat-object provider: no authentication, a flat payload
//! with a boolean `online` flag, and maturity derived from the `audience`
//! field equalling the mature-audience sentinel.

use vstd::prelude::*;

use crate::errors::ApiError;
use crate::json::{bool_field, get_field, int_field, str_field, JsonValue};
use crate::schema::{property_ok, schema_accepts, Property, Schema, StringShape};
use crate::service::{validate_schema, ServiceChannel, UpstreamRequest};
use crate::strutil::str_eq;

verus! {

/// The provider's API endpoint, completed with the channel name.
pub fn base_url() -> (r: &'static str)
    ensures
        r@ == "https://mixer.com/api/v1/channels/"@,
{
    "https://mixer.com/api/v1/channels/"
}

/// The client for this provider; it needs no authentication.
#[derive(Debug, Clone, PartialEq)]
pub struct Client {}

impl Client {
    /// A client for this provider.
    pub fn new() -> (r: Client)
        ensures
            r == (Client {  }),
    {
        Client {  }
    }

    /// The upstream request for a channel lookup by name.
    pub fn request(&self, name: &str) -> (r: UpstreamRequest)
        ensures
            r.url@ == "https://mixer.com/api/v1/channels/"@ + name@,
            r.query@.len() == 0,
            r.headers@.len() == 0,
    {
        let mut url = String::from_str(base_url());
        url.append(name);
        UpstreamRequest { url, query: Vec::new(), headers: Vec::new() }
    }
}

/// The thumbnail object of the provider's payload.
#[derive(Debug, Clone, PartialEq)]
pub struct Thumbnail {
    pub url: String,
}

/// The raw channel record of this provider, decoded from a validated
/// payload.
#[derive(Debug, Clone, PartialEq)]
pub struct Channel {
    pub title: String,
    pub online: bool,
    pub audience: String,
    pub viewers_current: u32,
    pub thumbnail: Thumbnail,
}

/// The thumbnail object binds `url` to a string.
pub open spec fn thumbnail_ok(t: JsonValue) -> bool {
    str_field(t, "url"@) is Some
}

/// The declared response schema: a flat object with required `name`,
/// `audience`, `online`, `thumbnail` (with a required `url`) and
/// `viewersCurrent` fields.
pub open spec fn response_schema_ok(v: JsonValue) -> bool {
    &&& str_field(v, "name"@) is Some
    &&& str_field(v, "audience"@) is Some
    &&& bool_field(v, "online"@) is Some
    &&& get_field(v, "thumbnail"@) matches Some(t) && thumbnail_ok(t) && t is Object
    &&& int_field(v, "viewersCurrent"@) is Some
}

/// Whether the reported viewer count fits a `u32`.
pub open spec fn viewers_fit(v: JsonValue) -> bool {
    0 <= int_field(v, "viewersCurrent"@)->Some_0 <= u32::MAX
}

/// Structure of the schema value this adapter declares.
pub open spec fn is_declared_schema(s: Schema) -> bool {
    &&& s matches Schema::ObjectShape { properties }
    &&& properties@.len() == 5
    &&& properties@[0].name@ == "name"@ && properties@[0].required && properties@[0].shape
        == Schema::StrShape(StringShape::AnyText)
    &&& properties@[1].name@ == "audience"@ && properties@[1].required && properties@[1].shape
        == Schema::StrShape(StringShape::AnyText)
    &&& properties@[2].name@ == "online"@ && properties@[2].required && properties@[2].shape
        == Schema::BoolShape
    &&& properties@[3].name@ == "thumbnail"@ && properties@[3].required
        && is_declared_thumbnail_schema(properties@[3].shape)
    &&& properties@[4].name@ == "viewersCurrent"@ && properties@[4].required
        && properties@[4].shape == Schema::IntShape
}

/// Structure of the nested thumbnail schema.
pub open spec fn is_declared_thumbnail_schema(s: Schema) -> bool {
    &&& s matches Schema::ObjectShape { properties }
    &&& properties@.len() == 1
    &&& properties@[0].name@ == "url"@ && properties@[0].required && properties@[0].shape
        == Schema::StrShape(StringShape::AnyText)
}

/// The schema this adapter declares for the provider's response.
pub fn get_schema() -> (s: Schema)
    ensures
        is_declared_schema(s),
{
    let mut thumb_props: Vec<Property> = Vec::new();
    thumb_props.push(
        Property {
            name: String::from_str("url"),
            required: true,
            shape: Schema::StrShape(StringShape::AnyText),
        },
    );
    let thumb = Schema::ObjectShape { properties: thumb_props };
    let mut props: Vec<Property> = Vec::new();
    props.push(
        Property {
            name: String::from_str("name"),
            required: true,
            shape: Schema::StrShape(StringShape::AnyText),
        },
    );
    props.push(
        Property {
            name: String::from_str("audience"),
            required: true,
            shape: Schema::StrShape(StringShape::AnyText),
        },
    );
    props.push(
        Property { name: String::from_str("online"), required: true, shape: Schema::BoolShape },
    );
    props.push(Property { name: String::from_str("thumbnail"), required: true, shape: thumb });
    props.push(
        Property {
            name: String::from_str("viewersCurrent"),
            required: true,
            shape: Schema::IntShape,
        },
    );
    Schema::ObjectShape { properties: props }
}

/// A schema value of the declared structure accepts exactly the payloads
/// that [`response_schema_ok`] describes.
proof fn lemma_declared_schema_denotation(s: Schema, v: JsonValue)
    requires
        is_declared_schema(s),
    ensures
        schema_accepts(s, v) == response_schema_ok(v),
{
    let props = s->ObjectShape_properties@;
    if v is Object {
        let fields = v->Object_0@;
        if schema_accepts(s, v) {
            assert(property_ok(props[0], fields));
            assert(property_ok(props[1], fields));
            assert(property_ok(props[2], fields));
            assert(property_ok(props[3], fields));
            assert(property_ok(props[4], fields));
            match crate::json::obj_get(fields, "thumbnail"@) {
                Some(t) => {
                    lemma_declared_thumbnail_denotation(props[3].shape, t);
                },
                None => {},
            }
            assert(response_schema_ok(v));
        }
        if response_schema_ok(v) {
            match crate::json::obj_get(fields, "thumbnail"@) {
                Some(t) => {
                    lemma_declared_thumbnail_denotation(props[3].shape, t);
                },
                None => {},
            }
            assert forall|i: int| 0 <= i < props.len() implies property_ok(
                #[trigger] props[i],
                fields,
            ) by {
                assert(i == 0 || i == 1 || i == 2 || i == 3 || i == 4);
            }
            assert(schema_accepts(s, v));
        }
    }
}

/// A thumbnail schema value of the declared structure accepts exactly the
/// objects that [`thumbnail_ok`] describes.
proof fn lemma_declared_thumbnail_denotation(s: Schema, t: JsonValue)
    requires
        is_declared_thumbnail_schema(s),
    ensures
        schema_accepts(s, t) == (thumbnail_ok(t) && t is Object),
{
    let ps = s->ObjectShape_properties@;
    if t is Object {
        let tfs = t->Object_0@;
        if schema_accepts(s, t) {
            assert(property_ok(ps[0], tfs));
        }
        if thumbnail_ok(t) {
            assert forall|i: int| 0 <= i < ps.len() implies property_ok(
                #[trigger] ps[i],
                tfs,
            ) by {
                assert(i == 0);
            }
        }
    }
}

/// Decodes a validated payload into the provider's channel record, with the
/// viewer count required to fit a `u32`.
fn decode(v: &JsonValue) -> (r: Result<Channel, ApiError>)
    ensures
        r is Ok <==> response_schema_ok(*v) && viewers_fit(*v),
        r matches Ok(c) ==> {
            &&& c.title@ == str_field(*v, "name"@)->Some_0
            &&& c.audience@ == str_field(*v, "audience"@)->Some_0
            &&& c.online == bool_field(*v, "online"@)->Some_0
            &&& c.viewers_current == int_field(*v, "viewersCurrent"@)->Some_0
            &&& c.thumbnail.url@ == str_field(
                get_field(*v, "thumbnail"@)->Some_0,
                "url"@,
            )->Some_0
        },
        r matches Err(err) ==> err is UpstreamRequestFailure,
{
    let failure = "payload does not hold a decodable channel record";
    let title = match v.get("name") {
        Some(j) => {
            match j.as_str_value() {
                Some(s) => s.clone(),
                None => {
                    return Err(ApiError::UpstreamRequestFailure(String::from_str(failure)));
                },
            }
        },
        None => {
            return Err(ApiError::UpstreamRequestFailure(String::from_str(failure)));
        },
    };
    let audience = match v.get("audience") {
        Some(j) => {
            match j.as_str_value() {
                Some(s) => s.clone(),
                None => {
                    return Err(ApiError::UpstreamRequestFailure(String::from_str(failure)));
                },
            }
        },
        None => {
            return Err(ApiError::UpstreamRequestFailure(String::from_str(failure)));
        },
    };
    let online = match v.get("online") {
        Some(j) => {
            match j.as_bool() {
                Some(b) => b,
                None => {
                    return Err(ApiError::UpstreamRequestFailure(String::from_str(failure)));
                },
            }
        },
        None => {
            return Err(ApiError::UpstreamRequestFailure(String::from_str(failure)));
        },
    };
    let thumbnail_url = match v.get("thumbnail") {
        Some(t) => {
            match t.get("url") {
                Some(j) => {
                    match j.as_str_value() {
                        Some(s) => s.clone(),
                        None => {
                            return Err(
                                ApiError::UpstreamRequestFailure(String::from_str(failure)),
                            );
                        },
                    }
                },
                None => {
                    return Err(ApiError::UpstreamRequestFailure(String::from_str(failure)));
                },
            }
        },
        None => {
            return Err(ApiError::UpstreamRequestFailure(String::from_str(failure)));
        },
    };
    let viewers_current = match v.get("viewersCurrent") {
        Some(j) => {
            match j.as_int() {
                Some(n) => {
                    if n < 0 || n > 0xffff_ffff {
                        return Err(
                            ApiError::UpstreamRequestFailure(
                                String::from_str("viewer count does not fit a u32"),
                            ),
                        );
                    }
                    n as u32
                },
                None => {
                    return Err(ApiError::UpstreamRequestFailure(String::from_str(failure)));
                },
            }
        },
        None => {
            return Err(ApiError::UpstreamRequestFailure(String::from_str(failure)));
        },
    };
    Ok(Channel { title, online, audience, viewers_current, thumbnail: Thumbnail { url: thumbnail_url } })
}

/// Interprets a raw provider payload: validates it against the declared
/// schema, then decodes the channel record. A payload that fails the schema
/// is reported as `SchemaValidation` and never reaches decoding; a
/// post-validation decode failure is reported as `UpstreamRequestFailure`.
pub fn get_channel_from_response(v: &JsonValue) -> (r: Result<Channel, ApiError>)
    ensures
        r is Ok <==> response_schema_ok(*v) && viewers_fit(*v),
        r matches Ok(c) ==> {
            &&& c.title@ == str_field(*v, "name"@)->Some_0
            &&& c.audience@ == str_field(*v, "audience"@)->Some_0
            &&& c.online == bool_field(*v, "online"@)->Some_0
            &&& c.viewers_current == int_field(*v, "viewersCurrent"@)->Some_0
            &&& c.thumbnail.url@ == str_field(
                get_field(*v, "thumbnail"@)->Some_0,
                "url"@,
            )->Some_0
        },
        !response_schema_ok(*v) ==> (r matches Err(err) ==> err is SchemaValidation),
        response_schema_ok(*v) && !viewers_fit(*v) ==> (r matches Err(err) ==> err
            is UpstreamRequestFailure),
{
    let schema = get_schema();
    proof {
        lemma_declared_schema_denotation(schema, *v);
    }
    match validate_schema(v, &schema) {
        Ok(()) => decode(v),
        Err(e) => Err(e),
    }
}

impl ServiceChannel for Channel {
    /// This record carries only plain fields; decoding established every
    /// bound it needs.
    open spec fn inv(&self) -> bool {
        true
    }

    open spec fn spec_live(&self) -> bool {
        self.online
    }

    open spec fn spec_nsfw(&self) -> bool {
        self.audience@ == "18+!"@
    }

    open spec fn spec_title(&self) -> Seq<char> {
        self.title@
    }

    open spec fn spec_thumbnail(&self) -> Seq<char> {
        self.thumbnail.url@
    }

    open spec fn spec_viewers(&self) -> u32 {
        self.viewers_current
    }

    fn get_live(&self) -> (r: bool) {
        self.online
    }

    fn is_nsfw(&self) -> (r: bool) {
        str_eq(self.audience.as_str(), "18+!")
    }

    fn get_title(&self) -> (r: String) {
        self.title.clone()
    }

    fn get_thumbnail(&self) -> (r: String) {
        self.thumbnail.url.clone()
    }

    fn get_viewers(&self) -> (r: u32) {
        self.viewers_current
    }
}

} // verus!
