//! The query-string-keyed video API provider: the API key travels as a URL
//! query parameter, the payload wraps its records in an `items` array whose
//! first element is taken, a successful lookup is always reported live, and
//! maturity is derived from the content-rating sentinel.

use vstd::prelude::*;

use crate::errors::ApiError;
use crate::json::{get_field, int_field, str_field, JsonValue};
use crate::schema::{property_ok, schema_accepts, Property, Schema, StringShape};
use crate::service::{validate_schema, ServiceChannel, UpstreamRequest};
use crate::strutil::{digits_str, digits_val, parse_u32, str_eq};

verus! {

/// The provider's API endpoint; the API key is appended as a query
/// parameter when the client is built.
pub fn base_url() -> (r: &'static str)
    ensures
        r@ == "https://www.googleapis.com/youtube/v3/videos"@,
{
    "https://www.googleapis.com/youtube/v3/videos"
}

/// Query value listing the response parts the adapter reads.
fn parts_value() -> (r: &'static str)
    ensures
        r@ == "liveStreamingDetails,snippet,statistics,contentDetails"@,
{
    "liveStreamingDetails,snippet,statistics,contentDetails"
}

/// The URL obtained by appending one query pair to an absolute URL, in the
/// URL's canonical serialization, or `None` when the base does not parse.
/// The result depends on the arguments alone.
pub uninterp spec fn url_with_param(base: Seq<char>, key: Seq<char>, value: Seq<char>) -> Option<
    Seq<char>,
>;

/// Relies on `url::Url::parse_with_params` and `Url::to_string`: parses an
/// absolute URL, appends one query pair, and serializes the result.
#[verifier::external_body]
fn append_url_param(base: &str, key: &str, value: &str) -> (r: Option<String>)
    ensures
        r is Some <==> url_with_param(base@, key@, value@) is Some,
        r matches Some(u) ==> url_with_param(base@, key@, value@) == Some(u@),
{
    match url::Url::parse_with_params(base, &[(key, value)]) {
        Ok(u) => Some(u.to_string()),
        Err(_) => None,
    }
}

/// The client for this provider: the endpoint URL with the caller's API key
/// already appended.
#[derive(Debug, Clone, PartialEq)]
pub struct Client {
    pub url: String,
}

impl Client {
    /// A client holding the endpoint with `token` appended as the `key`
    /// query parameter. Fails only if the endpoint cannot be re-parsed with
    /// the parameter attached.
    pub fn new(token: String) -> (r: Result<Client, ApiError>)
        ensures
            r is Ok <==> url_with_param(
                "https://www.googleapis.com/youtube/v3/videos"@,
                "key"@,
                token@,
            ) is Some,
            r matches Ok(c) ==> Some(c.url@) == url_with_param(
                "https://www.googleapis.com/youtube/v3/videos"@,
                "key"@,
                token@,
            ),
            r matches Err(e) ==> e is UpstreamRequestFailure,
    {
        match append_url_param(base_url(), "key", token.as_str()) {
            Some(url) => Ok(Client { url }),
            None => Err(
                ApiError::UpstreamRequestFailure(
                    String::from_str("failed to parse url with token"),
                ),
            ),
        }
    }

    /// The upstream request for a video lookup: the keyed endpoint with the
    /// video id and the part list as query pairs, and no headers.
    pub fn request(&self, name: &str) -> (r: UpstreamRequest)
        ensures
            r.url@ == self.url@,
            r.query@.len() == 2,
            r.query@[0].0@ == "id"@ && r.query@[0].1@ == name@,
            r.query@[1].0@ == "part"@ && r.query@[1].1@
                == "liveStreamingDetails,snippet,statistics,contentDetails"@,
            r.headers@.len() == 0,
    {
        let mut query: Vec<(String, String)> = Vec::new();
        query.push((String::from_str("id"), String::from_str(name)));
        query.push((String::from_str("part"), String::from_str(parts_value())));
        UpstreamRequest { url: self.url.clone(), query, headers: Vec::new() }
    }
}

// ---------------------------------------------------------------------------
// The decoded record.
// ---------------------------------------------------------------------------

/// The thumbnail of the size the adapter reads.
#[derive(Debug, Clone, PartialEq)]
pub struct Medium {
    pub url: String,
}

/// The thumbnail set of a video.
#[derive(Debug, Clone, PartialEq)]
pub struct Thumbnails {
    pub medium: Medium,
}

/// Title and thumbnails of a video.
#[derive(Debug, Clone, PartialEq)]
pub struct Snippet {
    pub title: String,
    pub thumbnails: Thumbnails,
}

/// The content rating carried by a video; an absent rating decodes as the
/// empty string.
#[derive(Debug, Clone, PartialEq)]
pub struct ContentRating {
    pub yt_rating: String,
}

/// Content details of a video.
#[derive(Debug, Clone, PartialEq)]
pub struct ContentDetails {
    pub content_rating: ContentRating,
}

/// View statistics of a video.
#[derive(Debug, Clone, PartialEq)]
pub struct Statistics {
    pub view_count: String,
}

/// Page bookkeeping of a listing response.
#[derive(Debug, Clone, PartialEq)]
pub struct PageInfo {
    pub total_results: i64,
}

/// The raw channel record of this provider, decoded from a validated
/// payload.
#[derive(Debug, Clone, PartialEq)]
pub struct Channel {
    pub id: String,
    pub snippet: Snippet,
    pub content_details: ContentDetails,
    pub statistics: Statistics,
}

/// A full listing response: the first item and the page bookkeeping.
#[derive(Debug, Clone, PartialEq)]
pub struct VideosResult {
    pub items: Vec<Channel>,
    pub page_info: PageInfo,
}

// ---------------------------------------------------------------------------
// The declared schema and its denotation.
// ---------------------------------------------------------------------------

/// The medium thumbnail binds `url` to a string.
pub open spec fn medium_ok(m: JsonValue) -> bool {
    m is Object && str_field(m, "url"@) is Some
}

/// The thumbnail set binds `medium` to a valid medium thumbnail.
pub open spec fn thumbnails_ok(t: JsonValue) -> bool {
    &&& t is Object
    &&& get_field(t, "medium"@) matches Some(m) && medium_ok(m)
}

/// A snippet binds `title` to a string and `thumbnails` to a valid set.
pub open spec fn snippet_ok(sn: JsonValue) -> bool {
    &&& sn is Object
    &&& str_field(sn, "title"@) is Some
    &&& get_field(sn, "thumbnails"@) matches Some(t) && thumbnails_ok(t)
}

/// Live-streaming details, when present, may bind `concurrentViewers` only
/// to a digit string.
pub open spec fn live_details_ok(d: JsonValue) -> bool {
    &&& d is Object
    &&& (get_field(d, "concurrentViewers"@) matches Some(c) ==> c matches JsonValue::Str(s)
        && digits_str(s@))
}

/// Statistics, when present, bind `viewCount` to a digit string.
pub open spec fn statistics_ok(st: JsonValue) -> bool {
    &&& st is Object
    &&& str_field(st, "viewCount"@) matches Some(d) && digits_str(d)
}

/// A content rating may bind `ytRating` only to a string.
pub open spec fn rating_ok(cr: JsonValue) -> bool {
    cr is Object && (get_field(cr, "ytRating"@) matches Some(x) ==> x is Str)
}

/// Content details may bind `contentRating` only to a valid rating.
pub open spec fn content_details_ok(cd: JsonValue) -> bool {
    cd is Object && (get_field(cd, "contentRating"@) matches Some(cr) ==> rating_ok(cr))
}

/// One record of the `items` array.
pub open spec fn item_ok(it: JsonValue) -> bool {
    &&& it is Object
    &&& get_field(it, "snippet"@) matches Some(sn) && snippet_ok(sn)
    &&& get_field(it, "contentDetails"@) matches Some(cd) && content_details_ok(cd)
    &&& (get_field(it, "liveStreamingDetails"@) matches Some(d) ==> live_details_ok(d))
    &&& (get_field(it, "statistics"@) matches Some(st) ==> statistics_ok(st))
}

/// Page bookkeeping binds `totalResults` to an integer.
pub open spec fn page_info_ok(pi: JsonValue) -> bool {
    pi is Object && int_field(pi, "totalResults"@) is Some
}

/// The declared response schema: an object that may carry `pageInfo` and an
/// `items` array of at least one valid record.
pub open spec fn response_schema_ok(v: JsonValue) -> bool {
    &&& v is Object
    &&& (get_field(v, "pageInfo"@) matches Some(pi) ==> page_info_ok(pi))
    &&& (get_field(v, "items"@) matches Some(arr) ==> arr matches JsonValue::Array(els)
        && els@.len() >= 1 && (forall|i: int| 0 <= i < els@.len() ==> item_ok(#[trigger] els@[i])))
}

// Structure of the declared schema value, level by level.
pub open spec fn is_declared_medium_schema(s: Schema) -> bool {
    &&& s matches Schema::ObjectShape { properties }
    &&& properties@.len() == 1
    &&& properties@[0].name@ == "url"@ && properties@[0].required && properties@[0].shape
        == Schema::StrShape(StringShape::AnyText)
}

pub open spec fn is_declared_thumbnails_schema(s: Schema) -> bool {
    &&& s matches Schema::ObjectShape { properties }
    &&& properties@.len() == 1
    &&& properties@[0].name@ == "medium"@ && properties@[0].required && is_declared_medium_schema(
        properties@[0].shape,
    )
}

pub open spec fn is_declared_snippet_schema(s: Schema) -> bool {
    &&& s matches Schema::ObjectShape { properties }
    &&& properties@.len() == 2
    &&& properties@[0].name@ == "title"@ && properties@[0].required && properties@[0].shape
        == Schema::StrShape(StringShape::AnyText)
    &&& properties@[1].name@ == "thumbnails"@ && properties@[1].required
        && is_declared_thumbnails_schema(properties@[1].shape)
}

pub open spec fn is_declared_live_details_schema(s: Schema) -> bool {
    &&& s matches Schema::ObjectShape { properties }
    &&& properties@.len() == 1
    &&& properties@[0].name@ == "concurrentViewers"@ && !properties@[0].required
        && properties@[0].shape == Schema::StrShape(StringShape::Digits)
}

pub open spec fn is_declared_statistics_schema(s: Schema) -> bool {
    &&& s matches Schema::ObjectShape { properties }
    &&& properties@.len() == 1
    &&& properties@[0].name@ == "viewCount"@ && properties@[0].required && properties@[0].shape
        == Schema::StrShape(StringShape::Digits)
}

pub open spec fn is_declared_rating_schema(s: Schema) -> bool {
    &&& s matches Schema::ObjectShape { properties }
    &&& properties@.len() == 1
    &&& properties@[0].name@ == "ytRating"@ && !properties@[0].required && properties@[0].shape
        == Schema::StrShape(StringShape::AnyText)
}

pub open spec fn is_declared_content_details_schema(s: Schema) -> bool {
    &&& s matches Schema::ObjectShape { properties }
    &&& properties@.len() == 1
    &&& properties@[0].name@ == "contentRating"@ && !properties@[0].required
        && is_declared_rating_schema(properties@[0].shape)
}

pub open spec fn is_declared_item_schema(s: Schema) -> bool {
    &&& s matches Schema::ObjectShape { properties }
    &&& properties@.len() == 4
    &&& properties@[0].name@ == "snippet"@ && properties@[0].required && is_declared_snippet_schema(
        properties@[0].shape,
    )
    &&& properties@[1].name@ == "liveStreamingDetails"@ && !properties@[1].required
        && is_declared_live_details_schema(properties@[1].shape)
    &&& properties@[2].name@ == "statistics"@ && !properties@[2].required
        && is_declared_statistics_schema(properties@[2].shape)
    &&& properties@[3].name@ == "contentDetails"@ && properties@[3].required
        && is_declared_content_details_schema(properties@[3].shape)
}

pub open spec fn is_declared_page_info_schema(s: Schema) -> bool {
    &&& s matches Schema::ObjectShape { properties }
    &&& properties@.len() == 1
    &&& properties@[0].name@ == "totalResults"@ && properties@[0].required && properties@[0].shape
        == Schema::IntShape
}

pub open spec fn is_declared_schema(s: Schema) -> bool {
    &&& s matches Schema::ObjectShape { properties }
    &&& properties@.len() == 2
    &&& properties@[0].name@ == "pageInfo"@ && !properties@[0].required
        && is_declared_page_info_schema(properties@[0].shape)
    &&& properties@[1].name@ == "items"@ && !properties@[1].required
    &&& properties@[1].shape matches Schema::ArrayShape { item, min_items }
    &&& min_items == 1
    &&& is_declared_item_schema(*item)
}

/// The schema this adapter declares for the provider's response.
pub fn get_schema() -> (s: Schema)
    ensures
        is_declared_schema(s),
{
    let mut medium_props: Vec<Property> = Vec::new();
    medium_props.push(
        Property {
            name: String::from_str("url"),
            required: true,
            shape: Schema::StrShape(StringShape::AnyText),
        },
    );
    let mut thumb_props: Vec<Property> = Vec::new();
    thumb_props.push(
        Property {
            name: String::from_str("medium"),
            required: true,
            shape: Schema::ObjectShape { properties: medium_props },
        },
    );
    let mut snippet_props: Vec<Property> = Vec::new();
    snippet_props.push(
        Property {
            name: String::from_str("title"),
            required: true,
            shape: Schema::StrShape(StringShape::AnyText),
        },
    );
    snippet_props.push(
        Property {
            name: String::from_str("thumbnails"),
            required: true,
            shape: Schema::ObjectShape { properties: thumb_props },
        },
    );
    let mut live_props: Vec<Property> = Vec::new();
    live_props.push(
        Property {
            name: String::from_str("concurrentViewers"),
            required: false,
            shape: Schema::StrShape(StringShape::Digits),
        },
    );
    let mut stats_props: Vec<Property> = Vec::new();
    stats_props.push(
        Property {
            name: String::from_str("viewCount"),
            required: true,
            shape: Schema::StrShape(StringShape::Digits),
        },
    );
    let mut rating_props: Vec<Property> = Vec::new();
    rating_props.push(
        Property {
            name: String::from_str("ytRating"),
            required: false,
            shape: Schema::StrShape(StringShape::AnyText),
        },
    );
    let mut cd_props: Vec<Property> = Vec::new();
    cd_props.push(
        Property {
            name: String::from_str("contentRating"),
            required: false,
            shape: Schema::ObjectShape { properties: rating_props },
        },
    );
    let mut item_props: Vec<Property> = Vec::new();
    item_props.push(
        Property {
            name: String::from_str("snippet"),
            required: true,
            shape: Schema::ObjectShape { properties: snippet_props },
        },
    );
    item_props.push(
        Property {
            name: String::from_str("liveStreamingDetails"),
            required: false,
            shape: Schema::ObjectShape { properties: live_props },
        },
    );
    item_props.push(
        Property {
            name: String::from_str("statistics"),
            required: false,
            shape: Schema::ObjectShape { properties: stats_props },
        },
    );
    item_props.push(
        Property {
            name: String::from_str("contentDetails"),
            required: true,
            shape: Schema::ObjectShape { properties: cd_props },
        },
    );
    let mut pi_props: Vec<Property> = Vec::new();
    pi_props.push(
        Property {
            name: String::from_str("totalResults"),
            required: true,
            shape: Schema::IntShape,
        },
    );
    let mut props: Vec<Property> = Vec::new();
    props.push(
        Property {
            name: String::from_str("pageInfo"),
            required: false,
            shape: Schema::ObjectShape { properties: pi_props },
        },
    );
    props.push(
        Property {
            name: String::from_str("items"),
            required: false,
            shape: Schema::ArrayShape {
                item: Box::new(Schema::ObjectShape { properties: item_props }),
                min_items: 1,
            },
        },
    );
    Schema::ObjectShape { properties: props }
}

// One single-property object schema appears at several levels; this shared
// lemma covers a required string property.
proof fn lemma_single_required_prop(s: Schema, v: JsonValue)
    requires
        s matches Schema::ObjectShape { properties },
        s->ObjectShape_properties@.len() == 1,
    ensures
        schema_accepts(s, v) == (v is Object && {
            let p = s->ObjectShape_properties@[0];
            property_ok(p, v->Object_0@)
        }),
{
    let ps = s->ObjectShape_properties@;
    if v is Object {
        let fs = v->Object_0@;
        if property_ok(ps[0], fs) {
            assert forall|i: int| 0 <= i < ps.len() implies property_ok(#[trigger] ps[i], fs) by {
                assert(i == 0);
            }
        }
    }
}

proof fn lemma_medium_denotation(s: Schema, m: JsonValue)
    requires
        is_declared_medium_schema(s),
    ensures
        schema_accepts(s, m) == medium_ok(m),
{
    lemma_single_required_prop(s, m);
}

proof fn lemma_thumbnails_denotation(s: Schema, t: JsonValue)
    requires
        is_declared_thumbnails_schema(s),
    ensures
        schema_accepts(s, t) == thumbnails_ok(t),
{
    lemma_single_required_prop(s, t);
    if t is Object {
        match crate::json::obj_get(t->Object_0@, "medium"@) {
            Some(m) => {
                lemma_medium_denotation(s->ObjectShape_properties@[0].shape, m);
            },
            None => {},
        }
    }
}

proof fn lemma_snippet_denotation(s: Schema, sn: JsonValue)
    requires
        is_declared_snippet_schema(s),
    ensures
        schema_accepts(s, sn) == snippet_ok(sn),
{
    let ps = s->ObjectShape_properties@;
    if sn is Object {
        let fs = sn->Object_0@;
        match crate::json::obj_get(fs, "thumbnails"@) {
            Some(t) => {
                lemma_thumbnails_denotation(ps[1].shape, t);
            },
            None => {},
        }
        if schema_accepts(s, sn) {
            assert(property_ok(ps[0], fs));
            assert(property_ok(ps[1], fs));
        }
        if snippet_ok(sn) {
            assert forall|i: int| 0 <= i < ps.len() implies property_ok(#[trigger] ps[i], fs) by {
                assert(i == 0 || i == 1);
            }
        }
    }
}

proof fn lemma_live_details_denotation(s: Schema, d: JsonValue)
    requires
        is_declared_live_details_schema(s),
    ensures
        schema_accepts(s, d) == live_details_ok(d),
{
    lemma_single_required_prop(s, d);
}

proof fn lemma_statistics_denotation(s: Schema, st: JsonValue)
    requires
        is_declared_statistics_schema(s),
    ensures
        schema_accepts(s, st) == statistics_ok(st),
{
    lemma_single_required_prop(s, st);
}

proof fn lemma_rating_denotation(s: Schema, cr: JsonValue)
    requires
        is_declared_rating_schema(s),
    ensures
        schema_accepts(s, cr) == rating_ok(cr),
{
    lemma_single_required_prop(s, cr);
}

proof fn lemma_content_details_denotation(s: Schema, cd: JsonValue)
    requires
        is_declared_content_details_schema(s),
    ensures
        schema_accepts(s, cd) == content_details_ok(cd),
{
    lemma_single_required_prop(s, cd);
    if cd is Object {
        match crate::json::obj_get(cd->Object_0@, "contentRating"@) {
            Some(cr) => {
                lemma_rating_denotation(s->ObjectShape_properties@[0].shape, cr);
            },
            None => {},
        }
    }
}

proof fn lemma_item_denotation(s: Schema, it: JsonValue)
    requires
        is_declared_item_schema(s),
    ensures
        schema_accepts(s, it) == item_ok(it),
{
    let ps = s->ObjectShape_properties@;
    if it is Object {
        let fs = it->Object_0@;
        match crate::json::obj_get(fs, "snippet"@) {
            Some(sn) => {
                lemma_snippet_denotation(ps[0].shape, sn);
            },
            None => {},
        }
        match crate::json::obj_get(fs, "liveStreamingDetails"@) {
            Some(d) => {
                lemma_live_details_denotation(ps[1].shape, d);
            },
            None => {},
        }
        match crate::json::obj_get(fs, "statistics"@) {
            Some(st) => {
                lemma_statistics_denotation(ps[2].shape, st);
            },
            None => {},
        }
        match crate::json::obj_get(fs, "contentDetails"@) {
            Some(cd) => {
                lemma_content_details_denotation(ps[3].shape, cd);
            },
            None => {},
        }
        if schema_accepts(s, it) {
            assert(property_ok(ps[0], fs));
            assert(property_ok(ps[1], fs));
            assert(property_ok(ps[2], fs));
            assert(property_ok(ps[3], fs));
        }
        if item_ok(it) {
            assert forall|i: int| 0 <= i < ps.len() implies property_ok(#[trigger] ps[i], fs) by {
                assert(i == 0 || i == 1 || i == 2 || i == 3);
            }
        }
    }
}

proof fn lemma_page_info_denotation(s: Schema, pi: JsonValue)
    requires
        is_declared_page_info_schema(s),
    ensures
        schema_accepts(s, pi) == page_info_ok(pi),
{
    lemma_single_required_prop(s, pi);
}

proof fn lemma_declared_schema_denotation(s: Schema, v: JsonValue)
    requires
        is_declared_schema(s),
    ensures
        schema_accepts(s, v) == response_schema_ok(v),
{
    let ps = s->ObjectShape_properties@;
    let item = *ps[1].shape->ArrayShape_item;
    if v is Object {
        let fs = v->Object_0@;
        match crate::json::obj_get(fs, "pageInfo"@) {
            Some(pi) => {
                lemma_page_info_denotation(ps[0].shape, pi);
            },
            None => {},
        }
        match crate::json::obj_get(fs, "items"@) {
            Some(arr) => {
                if arr is Array {
                    let els = arr->Array_0@;
                    assert forall|i: int| 0 <= i < els.len() implies (schema_accepts(
                        item,
                        #[trigger] els[i],
                    ) == item_ok(els[i])) by {
                        lemma_item_denotation(item, els[i]);
                    }
                }
            },
            None => {},
        }
        if schema_accepts(s, v) {
            assert(property_ok(ps[0], fs));
            assert(property_ok(ps[1], fs));
        }
        if response_schema_ok(v) {
            assert forall|i: int| 0 <= i < ps.len() implies property_ok(#[trigger] ps[i], fs) by {
                assert(i == 0 || i == 1);
            }
        }
    }
}

// ---------------------------------------------------------------------------
// Decoding and interpretation.
// ---------------------------------------------------------------------------

/// The first record of the `items` array.
pub open spec fn first_item(v: JsonValue) -> JsonValue {
    get_field(v, "items"@)->Some_0->Array_0@[0]
}

/// The payload can be decoded into a [`VideosResult`]: `items` and
/// `pageInfo` are present with their required readings, and the first
/// item carries `id`, a full snippet, statistics and a content rating.
pub open spec fn decodable(v: JsonValue) -> bool {
    &&& get_field(v, "items"@) matches Some(arr) && arr matches JsonValue::Array(els) && els@.len()
        >= 1
    &&& get_field(v, "pageInfo"@) matches Some(pi) && int_field(pi, "totalResults"@) is Some
    &&& {
        let it = first_item(v);
        &&& str_field(it, "id"@) is Some
        &&& get_field(it, "snippet"@) matches Some(sn) && snippet_ok(sn)
        &&& get_field(it, "contentDetails"@) matches Some(cd) && get_field(
            cd,
            "contentRating"@,
        ) matches Some(cr) && (get_field(cr, "ytRating"@) matches Some(x) ==> x is Str)
        &&& get_field(it, "statistics"@) matches Some(st) && statistics_ok(st)
    }
}

/// The rating string of the first item: the bound `ytRating`, or empty when
/// it is absent.
pub open spec fn rating_of(v: JsonValue) -> Seq<char> {
    let cr = get_field(get_field(first_item(v), "contentDetails"@)->Some_0, "contentRating"@)->Some_0;
    match str_field(cr, "ytRating"@) {
        Some(s) => s,
        None => Seq::empty(),
    }
}

/// The view count digits of the first item.
pub open spec fn view_count_of(v: JsonValue) -> Seq<char> {
    str_field(get_field(first_item(v), "statistics"@)->Some_0, "viewCount"@)->Some_0
}

/// Whether the first item's view count fits a `u32`.
pub open spec fn viewers_fit(v: JsonValue) -> bool {
    digits_val(view_count_of(v)) <= u32::MAX
}

/// Reads a required string field of an object.
fn read_str_field(v: &JsonValue, key: &str) -> (r: Option<String>)
    ensures
        r is Some <==> str_field(*v, key@) is Some,
        r matches Some(s) ==> str_field(*v, key@) == Some(s@),
{
    match v.get(key) {
        Some(j) => {
            match j.as_str_value() {
                Some(s) => Some(s.clone()),
                None => None,
            }
        },
        None => None,
    }
}

/// Decodes a validated payload into the provider's first channel record,
/// with the view count required to fit a `u32`.
fn decode(v: &JsonValue) -> (r: Result<Channel, ApiError>)
    ensures
        r is Ok <==> decodable(*v) && viewers_fit(*v),
        r matches Ok(c) ==> {
            let it = first_item(*v);
            let sn = get_field(it, "snippet"@)->Some_0;
            &&& c.id@ == str_field(it, "id"@)->Some_0
            &&& c.snippet.title@ == str_field(sn, "title"@)->Some_0
            &&& c.snippet.thumbnails.medium.url@ == str_field(
                get_field(get_field(sn, "thumbnails"@)->Some_0, "medium"@)->Some_0,
                "url"@,
            )->Some_0
            &&& c.content_details.content_rating.yt_rating@ == rating_of(*v)
            &&& c.statistics.view_count@ == view_count_of(*v)
            &&& c.inv()
        },
        r matches Err(err) ==> err is UpstreamRequestFailure,
{
    let failure = "payload does not hold a decodable video record";
    let it = match v.get("items") {
        Some(arr) => {
            match arr.as_array() {
                Some(els) => {
                    if els.len() == 0 {
                        return Err(ApiError::UpstreamRequestFailure(String::from_str(failure)));
                    }
                    &els[0]
                },
                None => {
                    return Err(ApiError::UpstreamRequestFailure(String::from_str(failure)));
                },
            }
        },
        None => {
            return Err(ApiError::UpstreamRequestFailure(String::from_str(failure)));
        },
    };
    match v.get("pageInfo") {
        Some(pi) => {
            match pi.get("totalResults") {
                Some(tr) => {
                    match tr.as_int() {
                        Some(_) => {},
                        None => {
                            return Err(
                                ApiError::UpstreamRequestFailure(String::from_str(failure)),
                            );
                        },
                    }
                },
                None => {
                    return Err(ApiError::UpstreamRequestFailure(String::from_str(failure)));
                },
            }
        },
        None => {
            return Err(ApiError::UpstreamRequestFailure(String::from_str(failure)));
        },
    }
    let id = match read_str_field(it, "id") {
        Some(s) => s,
        None => {
            return Err(ApiError::UpstreamRequestFailure(String::from_str(failure)));
        },
    };
    let (title, medium_url) = match it.get("snippet") {
        Some(sn) => {
            let title = match read_str_field(sn, "title") {
                Some(s) => s,
                None => {
                    return Err(ApiError::UpstreamRequestFailure(String::from_str(failure)));
                },
            };
            let medium_url = match sn.get("thumbnails") {
                Some(t) => {
                    match t.get("medium") {
                        Some(m) => {
                            match read_str_field(m, "url") {
                                Some(s) => s,
                                None => {
                                    return Err(
                                        ApiError::UpstreamRequestFailure(
                                            String::from_str(failure),
                                        ),
                                    );
                                },
                            }
                        },
                        None => {
                            return Err(
                                ApiError::UpstreamRequestFailure(String::from_str(failure)),
                            );
                        },
                    }
                },
                None => {
                    return Err(ApiError::UpstreamRequestFailure(String::from_str(failure)));
                },
            };
            (title, medium_url)
        },
        None => {
            return Err(ApiError::UpstreamRequestFailure(String::from_str(failure)));
        },
    };
    let yt_rating = match it.get("contentDetails") {
        Some(cd) => {
            match cd.get("contentRating") {
                Some(cr) => {
                    match cr.get("ytRating") {
                        Some(x) => {
                            match x.as_str_value() {
                                Some(s) => s.clone(),
                                None => {
                                    return Err(
                                        ApiError::UpstreamRequestFailure(
                                            String::from_str(failure),
                                        ),
                                    );
                                },
                            }
                        },
                        None => String::new(),
                    }
                },
                None => {
                    return Err(ApiError::UpstreamRequestFailure(String::from_str(failure)));
                },
            }
        },
        None => {
            return Err(ApiError::UpstreamRequestFailure(String::from_str(failure)));
        },
    };
    let view_count = match it.get("statistics") {
        Some(st) => {
            match read_str_field(st, "viewCount") {
                Some(s) => s,
                None => {
                    return Err(ApiError::UpstreamRequestFailure(String::from_str(failure)));
                },
            }
        },
        None => {
            return Err(ApiError::UpstreamRequestFailure(String::from_str(failure)));
        },
    };
    match parse_u32(view_count.as_str()) {
        Some(_) => {},
        None => {
            return Err(
                ApiError::UpstreamRequestFailure(
                    String::from_str("view count is not a u32 digit string"),
                ),
            );
        },
    }
    Ok(
        Channel {
            id,
            snippet: Snippet { title, thumbnails: Thumbnails { medium: Medium { url: medium_url } } },
            content_details: ContentDetails { content_rating: ContentRating { yt_rating } },
            statistics: Statistics { view_count },
        },
    )
}

/// Interprets a raw provider payload: validates it against the declared
/// schema, then decodes the first item. A payload that fails the schema is
/// reported as `SchemaValidation` and never reaches decoding; a
/// post-validation decode failure is reported as `UpstreamRequestFailure`.
pub fn get_channel_from_response(v: &JsonValue) -> (r: Result<Channel, ApiError>)
    ensures
        r is Ok <==> response_schema_ok(*v) && decodable(*v) && viewers_fit(*v),
        r matches Ok(c) ==> {
            let it = first_item(*v);
            let sn = get_field(it, "snippet"@)->Some_0;
            &&& c.id@ == str_field(it, "id"@)->Some_0
            &&& c.snippet.title@ == str_field(sn, "title"@)->Some_0
            &&& c.snippet.thumbnails.medium.url@ == str_field(
                get_field(get_field(sn, "thumbnails"@)->Some_0, "medium"@)->Some_0,
                "url"@,
            )->Some_0
            &&& c.content_details.content_rating.yt_rating@ == rating_of(*v)
            &&& c.statistics.view_count@ == view_count_of(*v)
            &&& c.inv()
        },
        !response_schema_ok(*v) ==> (r matches Err(err) ==> err is SchemaValidation),
        response_schema_ok(*v) && !(decodable(*v) && viewers_fit(*v)) ==> (r matches Err(err)
            ==> err is UpstreamRequestFailure),
{
    let schema = get_schema();
    proof {
        lemma_declared_schema_denotation(schema, *v);
    }
    match validate_schema(v, &schema) {
        Ok(()) => decode(v),
        Err(e) => Err(e),
    }
}

impl ServiceChannel for Channel {
    /// The view count field decodes as a `u32`.
    open spec fn inv(&self) -> bool {
        digits_str(self.statistics.view_count@) && digits_val(self.statistics.view_count@)
            <= u32::MAX
    }

    open spec fn spec_live(&self) -> bool {
        true
    }

    open spec fn spec_nsfw(&self) -> bool {
        self.content_details.content_rating.yt_rating@ == "ytAgeRestricted"@
    }

    open spec fn spec_title(&self) -> Seq<char> {
        self.snippet.title@
    }

    open spec fn spec_thumbnail(&self) -> Seq<char> {
        self.snippet.thumbnails.medium.url@
    }

    open spec fn spec_viewers(&self) -> u32 {
        digits_val(self.statistics.view_count@) as u32
    }

    fn get_live(&self) -> (r: bool) {
        true
    }

    fn is_nsfw(&self) -> (r: bool) {
        str_eq(self.content_details.content_rating.yt_rating.as_str(), "ytAgeRestricted")
    }

    fn get_title(&self) -> (r: String) {
        self.snippet.title.clone()
    }

    fn get_thumbnail(&self) -> (r: String) {
        self.snippet.thumbnails.medium.url.clone()
    }

    fn get_viewers(&self) -> (r: u32) {
        match parse_u32(self.statistics.view_count.as_str()) {
            Some(n) => n,
            None => 0,
        }
    }
}

} // verus!
