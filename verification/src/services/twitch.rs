//! The OAuth-token provider: requests carry a bearer token, a client id and
//! a versioned accept header. A successful lookup is always reported live
//! (the API revision does not distinguish online from offline) and never
//! reported mature.

use vstd::prelude::*;

use crate::errors::ApiError;
use crate::json::{get_field, int_field, str_field, JsonValue};
use crate::schema::{property_ok, schema_accepts, Property, Schema, StringShape};
use crate::service::{validate_schema, ServiceChannel, UpstreamRequest};

verus! {

/// The provider's API endpoint, completed with the channel name.
pub fn base_url() -> (r: &'static str)
    ensures
        r@ == "https://api.twitch.tv/helix/"@,
{
    "https://api.twitch.tv/helix/"
}

/// The client for this provider: the bearer token and the client id that
/// authenticate each request.
#[derive(Debug, Clone, PartialEq)]
pub struct Client {
    pub token: String,
    pub client_id: String,
}

impl Client {
    /// A client holding the caller's credentials.
    pub fn new(token: String, client_id: String) -> (r: Client)
        ensures
            r.token@ == token@,
            r.client_id@ == client_id@,
    {
        Client { token, client_id }
    }

    /// The upstream request for a channel lookup by name: the endpoint with
    /// the name appended, and the authorization, client-id and versioned
    /// accept headers.
    pub fn request(&self, name: &str) -> (r: UpstreamRequest)
        ensures
            r.url@ == "https://api.twitch.tv/helix/"@ + name@,
            r.query@.len() == 0,
            r.headers@.len() == 3,
            r.headers@[0].0@ == "Authorization"@ && r.headers@[0].1@ == "Bearer "@ + self.token@,
            r.headers@[1].0@ == "Client-ID"@ && r.headers@[1].1@ == self.client_id@,
            r.headers@[2].0@ == "Accept"@ && r.headers@[2].1@
                == "application/vnd.twitchtv.v5+json"@,
    {
        let mut url = String::from_str(base_url());
        url.append(name);
        let mut bearer = String::from_str("Bearer ");
        bearer.append(self.token.as_str());
        let mut headers: Vec<(String, String)> = Vec::new();
        headers.push((String::from_str("Authorization"), bearer));
        headers.push((String::from_str("Client-ID"), self.client_id.clone()));
        headers.push(
            (String::from_str("Accept"), String::from_str("application/vnd.twitchtv.v5+json")),
        );
        UpstreamRequest { url, query: Vec::new(), headers }
    }
}

/// The name object of the provider's payload.
#[derive(Debug, Clone, PartialEq)]
pub struct Name {
    pub display_name: String,
}

/// The raw channel record of this provider, decoded from a validated
/// payload.
#[derive(Debug, Clone, PartialEq)]
pub struct Channel {
    pub game: String,
    pub viewers: u32,
    pub preview: String,
    pub name: Name,
}

/// The channel object binds `display_name` to a string.
pub open spec fn name_ok(n: JsonValue) -> bool {
    n is Object && str_field(n, "display_name"@) is Some
}

/// The declared response schema: a flat object with required `game`,
/// `viewers`, `preview` and `channel` (with a required `display_name`)
/// fields.
pub open spec fn response_schema_ok(v: JsonValue) -> bool {
    &&& str_field(v, "game"@) is Some
    &&& int_field(v, "viewers"@) is Some
    &&& str_field(v, "preview"@) is Some
    &&& get_field(v, "channel"@) matches Some(n) && name_ok(n)
}

/// Whether the reported viewer count fits a `u32`.
pub open spec fn viewers_fit(v: JsonValue) -> bool {
    0 <= int_field(v, "viewers"@)->Some_0 <= u32::MAX
}

/// Structure of the schema value this adapter declares.
pub open spec fn is_declared_schema(s: Schema) -> bool {
    &&& s matches Schema::ObjectShape { properties }
    &&& properties@.len() == 4
    &&& properties@[0].name@ == "game"@ && properties@[0].required && properties@[0].shape
        == Schema::StrShape(StringShape::AnyText)
    &&& properties@[1].name@ == "viewers"@ && properties@[1].required && properties@[1].shape
        == Schema::IntShape
    &&& properties@[2].name@ == "preview"@ && properties@[2].required && properties@[2].shape
        == Schema::StrShape(StringShape::AnyText)
    &&& properties@[3].name@ == "channel"@ && properties@[3].required && is_declared_name_schema(
        properties@[3].shape,
    )
}

/// Structure of the nested channel-name schema.
pub open spec fn is_declared_name_schema(s: Schema) -> bool {
    &&& s matches Schema::ObjectShape { properties }
    &&& properties@.len() == 1
    &&& properties@[0].name@ == "display_name"@ && properties@[0].required && properties@[0].shape
        == Schema::StrShape(StringShape::AnyText)
}

/// The schema this adapter declares for the provider's response.
pub fn get_schema() -> (s: Schema)
    ensures
        is_declared_schema(s),
{
    let mut name_props: Vec<Property> = Vec::new();
    name_props.push(
        Property {
            name: String::from_str("display_name"),
            required: true,
            shape: Schema::StrShape(StringShape::AnyText),
        },
    );
    let mut props: Vec<Property> = Vec::new();
    props.push(
        Property {
            name: String::from_str("game"),
            required: true,
            shape: Schema::StrShape(StringShape::AnyText),
        },
    );
    props.push(
        Property { name: String::from_str("viewers"), required: true, shape: Schema::IntShape },
    );
    props.push(
        Property {
            name: String::from_str("preview"),
            required: true,
            shape: Schema::StrShape(StringShape::AnyText),
        },
    );
    props.push(
        Property {
            name: String::from_str("channel"),
            required: true,
            shape: Schema::ObjectShape { properties: name_props },
        },
    );
    Schema::ObjectShape { properties: props }
}

/// A schema value of the declared structure accepts exactly the payloads
/// that [`response_schema_ok`] describes.
proof fn lemma_declared_schema_denotation(s: Schema, v: JsonValue)
    requires
        is_declared_schema(s),
    ensures
        schema_accepts(s, v) == response_schema_ok(v),
{
    let ps = s->ObjectShape_properties@;
    if v is Object {
        let fs = v->Object_0@;
        match crate::json::obj_get(fs, "channel"@) {
            Some(n) => {
                lemma_declared_name_denotation(ps[3].shape, n);
            },
            None => {},
        }
        if schema_accepts(s, v) {
            assert(property_ok(ps[0], fs));
            assert(property_ok(ps[1], fs));
            assert(property_ok(ps[2], fs));
            assert(property_ok(ps[3], fs));
        }
        if response_schema_ok(v) {
            assert forall|i: int| 0 <= i < ps.len() implies property_ok(#[trigger] ps[i], fs) by {
                assert(i == 0 || i == 1 || i == 2 || i == 3);
            }
        }
    }
}

/// A name schema value of the declared structure accepts exactly the
/// objects that [`name_ok`] describes.
proof fn lemma_declared_name_denotation(s: Schema, n: JsonValue)
    requires
        is_declared_name_schema(s),
    ensures
        schema_accepts(s, n) == name_ok(n),
{
    let ps = s->ObjectShape_properties@;
    if n is Object {
        let nfs = n->Object_0@;
        if schema_accepts(s, n) {
            assert(property_ok(ps[0], nfs));
        }
        if name_ok(n) {
            assert forall|i: int| 0 <= i < ps.len() implies property_ok(
                #[trigger] ps[i],
                nfs,
            ) by {
                assert(i == 0);
            }
        }
    }
}

/// Decodes a validated payload into the provider's channel record, with the
/// viewer count required to fit a `u32`.
fn decode(v: &JsonValue) -> (r: Result<Channel, ApiError>)
    ensures
        r is Ok <==> response_schema_ok(*v) && viewers_fit(*v),
        r matches Ok(c) ==> {
            &&& c.game@ == str_field(*v, "game"@)->Some_0
            &&& c.preview@ == str_field(*v, "preview"@)->Some_0
            &&& c.viewers == int_field(*v, "viewers"@)->Some_0
            &&& c.name.display_name@ == str_field(
                get_field(*v, "channel"@)->Some_0,
                "display_name"@,
            )->Some_0
        },
        r matches Err(err) ==> err is UpstreamRequestFailure,
{
    let failure = "payload does not hold a decodable channel record";
    let game = match v.get("game") {
        Some(j) => {
            match j.as_str_value() {
                Some(s) => s.clone(),
                None => {
                    return Err(ApiError::UpstreamRequestFailure(String::from_str(failure)));
                },
            }
        },
        None => {
            return Err(ApiError::UpstreamRequestFailure(String::from_str(failure)));
        },
    };
    let preview = match v.get("preview") {
        Some(j) => {
            match j.as_str_value() {
                Some(s) => s.clone(),
                None => {
                    return Err(ApiError::UpstreamRequestFailure(String::from_str(failure)));
                },
            }
        },
        None => {
            return Err(ApiError::UpstreamRequestFailure(String::from_str(failure)));
        },
    };
    let display_name = match v.get("channel") {
        Some(n) => {
            match n.get("display_name") {
                Some(j) => {
                    match j.as_str_value() {
                        Some(s) => s.clone(),
                        None => {
                            return Err(
                                ApiError::UpstreamRequestFailure(String::from_str(failure)),
                            );
                        },
                    }
                },
                None => {
                    return Err(ApiError::UpstreamRequestFailure(String::from_str(failure)));
                },
            }
        },
        None => {
            return Err(ApiError::UpstreamRequestFailure(String::from_str(failure)));
        },
    };
    let viewers = match v.get("viewers") {
        Some(j) => {
            match j.as_int() {
                Some(n) => {
                    if n < 0 || n > 0xffff_ffff {
                        return Err(
                            ApiError::UpstreamRequestFailure(
                                String::from_str("viewer count does not fit a u32"),
                            ),
                        );
                    }
                    n as u32
                },
                None => {
                    return Err(ApiError::UpstreamRequestFailure(String::from_str(failure)));
                },
            }
        },
        None => {
            return Err(ApiError::UpstreamRequestFailure(String::from_str(failure)));
        },
    };
    Ok(Channel { game, viewers, preview, name: Name { display_name } })
}

/// Interprets a raw provider payload: validates it against the declared
/// schema, then decodes the channel record. A payload that fails the schema
/// is reported as `SchemaValidation` and never reaches decoding; a
/// post-validation decode failure is reported as `UpstreamRequestFailure`.
pub fn get_channel_from_response(v: &JsonValue) -> (r: Result<Channel, ApiError>)
    ensures
        r is Ok <==> response_schema_ok(*v) && viewers_fit(*v),
        r matches Ok(c) ==> {
            &&& c.game@ == str_field(*v, "game"@)->Some_0
            &&& c.preview@ == str_field(*v, "preview"@)->Some_0
            &&& c.viewers == int_field(*v, "viewers"@)->Some_0
            &&& c.name.display_name@ == str_field(
                get_field(*v, "channel"@)->Some_0,
                "display_name"@,
            )->Some_0
        },
        !response_schema_ok(*v) ==> (r matches Err(err) ==> err is SchemaValidation),
        response_schema_ok(*v) && !viewers_fit(*v) ==> (r matches Err(err) ==> err
            is UpstreamRequestFailure),
{
    let schema = get_schema();
    proof {
        lemma_declared_schema_denotation(schema, *v);
    }
    match validate_schema(v, &schema) {
        Ok(()) => decode(v),
        Err(e) => Err(e),
    }
}

impl ServiceChannel for Channel {
    /// This record carries only plain fields; decoding established every
    /// bound it needs.
    open spec fn inv(&self) -> bool {
        true
    }

    open spec fn spec_live(&self) -> bool {
        true
    }

    open spec fn spec_nsfw(&self) -> bool {
        false
    }

    open spec fn spec_title(&self) -> Seq<char> {
        self.game@
    }

    open spec fn spec_thumbnail(&self) -> Seq<char> {
        self.preview@
    }

    open spec fn spec_viewers(&self) -> u32 {
        self.viewers
    }

    fn get_live(&self) -> (r: bool) {
        true
    }

    fn is_nsfw(&self) -> (r: bool) {
        false
    }

    fn get_title(&self) -> (r: String) {
        self.game.clone()
    }

    fn get_thumbnail(&self) -> (r: String) {
        self.preview.clone()
    }

    fn get_viewers(&self) -> (r: u32) {
        self.viewers
    }
}

} // verus!
