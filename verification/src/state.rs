//! The fixed lookup table of provider adapters, resolved once at startup,
//! and the by-service dispatch of raw provider payloads to the adapter that
//! understands them.

use vstd::prelude::*;

use crate::config::Config;
use crate::errors::ApiError;
use crate::json::{bool_field, get_field, int_field, str_field, JsonValue};
use crate::mixer;
use crate::service::{canonicalize, CanonicalStreamMetadata, UpstreamRequest};
use crate::services::twitch;
use crate::services::youtube;
use crate::smashcast;
use crate::strutil::{digits_val, str_eq};

verus! {

/// One adapter per external platform, fixed at construction time.
#[derive(Debug, Clone, PartialEq)]
pub struct AppState {
    pub twitch: twitch::Client,
    pub mixer: mixer::Client,
    pub smashcast: smashcast::Client,
    pub youtube: youtube::Client,
}

/// The service tags that have an adapter.
pub open spec fn dispatchable(service: Seq<char>) -> bool {
    ||| service == "twitch"@
    ||| service == "mixer"@
    ||| service == "smashcast"@
    ||| service == "youtube"@
}

impl AppState {
    /// Builds the adapter table from the configuration. Fails only if the
    /// keyed video endpoint cannot be built from the configured token.
    pub fn new(config: &Config) -> (r: Result<AppState, ApiError>)
        ensures
            r is Ok <==> youtube::url_with_param(
                "https://www.googleapis.com/youtube/v3/videos"@,
                "key"@,
                config.youtube_token@,
            ) is Some,
            r matches Ok(s) ==> {
                &&& s.twitch.token@ == config.twitch_client_secret@
                &&& s.twitch.client_id@ == config.twitch_client_id@
                &&& Some(s.youtube.url@) == youtube::url_with_param(
                    "https://www.googleapis.com/youtube/v3/videos"@,
                    "key"@,
                    config.youtube_token@,
                )
            },
            r matches Err(e) ==> e is UpstreamRequestFailure,
    {
        let yt = match youtube::Client::new(config.youtube_token.clone()) {
            Ok(c) => c,
            Err(e) => {
                return Err(e);
            },
        };
        Ok(
            AppState {
                twitch: twitch::Client::new(
                    config.twitch_client_secret.clone(),
                    config.twitch_client_id.clone(),
                ),
                mixer: mixer::Client::new(),
                smashcast: smashcast::Client::new(),
                youtube: yt,
            },
        )
    }

    /// The upstream request for a `{service}/{name}` lookup, or `None` for a
    /// service tag no adapter handles (surfaced one layer above as a
    /// not-found).
    pub fn request_for(&self, service: &str, name: &str) -> (r: Option<UpstreamRequest>)
        ensures
            r is Some <==> dispatchable(service@),
            r matches Some(req) ==> {
                ||| (service@ == "twitch"@ && req.url@ == "https://api.twitch.tv/helix/"@ + name@)
                ||| (service@ == "mixer"@ && req.url@ == "https://mixer.com/api/v1/channels/"@
                    + name@)
                ||| (service@ == "smashcast"@ && req.url@
                    == "https://api.smashcast.tv/media/live/"@ + name@)
                ||| (service@ == "youtube"@ && req.url@ == self.youtube.url@)
            },
    {
        if str_eq(service, "twitch") {
            Some(self.twitch.request(name))
        } else if str_eq(service, "mixer") {
            Some(self.mixer.request(name))
        } else if str_eq(service, "smashcast") {
            Some(self.smashcast.request(name))
        } else if str_eq(service, "youtube") {
            Some(self.youtube.request(name))
        } else {
            None
        }
    }
}

/// Dispatches a raw provider payload to the adapter selected by `service`
/// and maps it to the canonical metadata: fetch has already happened, the
/// payload is validated against the adapter's declared schema, and mapping
/// never runs on a payload that failed validation.
pub fn interpret_channel_response(service: &str, v: &JsonValue) -> (r: Result<
    CanonicalStreamMetadata,
    ApiError,
>)
    ensures
        !dispatchable(service@) ==> ({
            &&& r matches Err(e)
            &&& e is NotFound
        }),
        service@ == "twitch"@ ==> {
            &&& r is Ok <==> twitch::response_schema_ok(*v) && twitch::viewers_fit(*v)
            &&& (r matches Ok(m) ==> {
                &&& m.live == true
                &&& m.nsfw == false
                &&& m.title@ == str_field(*v, "game"@)->Some_0
                &&& m.thumbnail@ == str_field(*v, "preview"@)->Some_0
                &&& m.viewers == int_field(*v, "viewers"@)->Some_0
            })
            &&& (!twitch::response_schema_ok(*v) ==> (r matches Err(e) ==> e
                is SchemaValidation))
        },
        service@ == "mixer"@ ==> {
            &&& r is Ok <==> mixer::response_schema_ok(*v) && mixer::viewers_fit(*v)
            &&& (r matches Ok(m) ==> {
                &&& m.live == bool_field(*v, "online"@)->Some_0
                &&& m.nsfw == (str_field(*v, "audience"@)->Some_0 == "18+!"@)
                &&& m.title@ == str_field(*v, "name"@)->Some_0
                &&& m.thumbnail@ == str_field(get_field(*v, "thumbnail"@)->Some_0, "url"@)->Some_0
                &&& m.viewers == int_field(*v, "viewersCurrent"@)->Some_0
            })
            &&& (!mixer::response_schema_ok(*v) ==> (r matches Err(e) ==> e is SchemaValidation))
        },
        service@ == "smashcast"@ ==> {
            &&& r is Ok <==> smashcast::response_schema_ok(*v) && smashcast::viewers_fit(*v)
            &&& (r matches Ok(m) ==> {
                let e = smashcast::first_entry(*v);
                &&& m.live == (str_field(e, "media_is_live"@)->Some_0 == "1"@)
                &&& m.nsfw == false
                &&& m.title@ == str_field(e, "media_status"@)->Some_0
                &&& m.thumbnail@ == "https://edge.sf.hitbox.tv"@ + str_field(
                    e,
                    "media_thumbnail"@,
                )->Some_0
                &&& m.viewers == digits_val(str_field(e, "media_views"@)->Some_0)
            })
            &&& (!smashcast::response_schema_ok(*v) ==> (r matches Err(e) ==> e
                is SchemaValidation))
        },
        service@ == "youtube"@ ==> {
            &&& r is Ok <==> youtube::response_schema_ok(*v) && youtube::decodable(*v)
                && youtube::viewers_fit(*v)
            &&& (r matches Ok(m) ==> {
                let it = youtube::first_item(*v);
                let sn = get_field(it, "snippet"@)->Some_0;
                &&& m.live == true
                &&& m.nsfw == (youtube::rating_of(*v) == "ytAgeRestricted"@)
                &&& m.title@ == str_field(sn, "title"@)->Some_0
                &&& m.thumbnail@ == str_field(
                    get_field(get_field(sn, "thumbnails"@)->Some_0, "medium"@)->Some_0,
                    "url"@,
                )->Some_0
                &&& m.viewers == digits_val(youtube::view_count_of(*v))
            })
            &&& (!youtube::response_schema_ok(*v) ==> (r matches Err(e) ==> e
                is SchemaValidation))
        },
{
    proof {
        reveal_strlit("twitch");
        reveal_strlit("mixer");
        reveal_strlit("smashcast");
        reveal_strlit("youtube");
        assert("twitch"@.len() == 6);
        assert("mixer"@.len() == 5);
        assert("smashcast"@.len() == 9);
        assert("youtube"@.len() == 7);
    }
    if str_eq(service, "twitch") {
        match twitch::get_channel_from_response(v) {
            Ok(c) => Ok(canonicalize(&c)),
            Err(e) => Err(e),
        }
    } else if str_eq(service, "mixer") {
        match mixer::get_channel_from_response(v) {
            Ok(c) => Ok(canonicalize(&c)),
            Err(e) => Err(e),
        }
    } else if str_eq(service, "smashcast") {
        match smashcast::get_channel_from_response(v) {
            Ok(c) => Ok(canonicalize(&c)),
            Err(e) => Err(e),
        }
    } else if str_eq(service, "youtube") {
        match youtube::get_channel_from_response(v) {
            Ok(c) => Ok(canonicalize(&c)),
            Err(e) => Err(e),
        }
    } else {
        Err(ApiError::NotFound(String::from_str("no adapter for this service")))
    }
}

} // verus!
