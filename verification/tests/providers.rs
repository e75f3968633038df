use livehub::config::Config;
use livehub::errors::ApiError;
use livehub::json::JsonValue;
use livehub::schema::{Property, Schema, StringShape};
use livehub::service::{validate_schema, CanonicalStreamMetadata};
use livehub::services::twitch;
use livehub::state::{interpret_channel_response, AppState};
use livehub::{mixer, smashcast};

fn s(text: &str) -> String {
    String::from(text)
}

fn obj(fields: Vec<(&str, JsonValue)>) -> JsonValue {
    JsonValue::Object(fields.into_iter().map(|(k, v)| (s(k), v)).collect())
}

fn smashcast_payload(is_live: &str, status: &str, views: &str, thumb: &str) -> JsonValue {
    obj(vec![(
        "livestream",
        JsonValue::Array(vec![obj(vec![
            ("media_is_live", JsonValue::Str(s(is_live))),
            ("media_status", JsonValue::Str(s(status))),
            ("media_views", JsonValue::Str(s(views))),
            ("media_thumbnail", JsonValue::Str(s(thumb))),
        ])]),
    )])
}

#[test]
fn smashcast_maps_a_live_channel() {
    let payload = smashcast_payload("1", "playing games", "42", "/static/img/t.jpg");
    let m = interpret_channel_response("smashcast", &payload).unwrap();
    assert_eq!(
        m,
        CanonicalStreamMetadata {
            live: true,
            nsfw: false,
            title: s("playing games"),
            thumbnail: s("https://edge.sf.hitbox.tv/static/img/t.jpg"),
            viewers: 42,
        }
    );
}

#[test]
fn smashcast_maps_an_offline_channel() {
    let payload = smashcast_payload("0", "zzz", "0", "/t.jpg");
    let m = interpret_channel_response("smashcast", &payload).unwrap();
    assert!(!m.live);
    assert_eq!(m.viewers, 0);
}

#[test]
fn smashcast_rejects_an_empty_livestream_array() {
    // The schema demands at least one record, so mapping is never reached.
    let payload = obj(vec![("livestream", JsonValue::Array(vec![]))]);
    let err = interpret_channel_response("smashcast", &payload).unwrap_err();
    assert!(matches!(err, ApiError::SchemaValidation(_)));
}

#[test]
fn smashcast_rejects_non_digit_views() {
    let payload = smashcast_payload("1", "t", "12a", "/t.jpg");
    let err = interpret_channel_response("smashcast", &payload).unwrap_err();
    assert!(matches!(err, ApiError::SchemaValidation(_)));
}

#[test]
fn smashcast_viewer_overflow_is_an_upstream_failure() {
    // Passes the schema (digits), fails the post-validation decode.
    let payload = smashcast_payload("1", "t", "4294967296", "/t.jpg");
    let err = interpret_channel_response("smashcast", &payload).unwrap_err();
    assert!(matches!(err, ApiError::UpstreamRequestFailure(_)));
}

fn mixer_payload(online: bool, audience: &str, viewers: i64) -> JsonValue {
    obj(vec![
        ("name", JsonValue::Str(s("some title"))),
        ("audience", JsonValue::Str(s(audience))),
        ("online", JsonValue::Bool(online)),
        ("thumbnail", obj(vec![("url", JsonValue::Str(s("https://t.example/x.png")))])),
        ("viewersCurrent", JsonValue::Int(viewers)),
    ])
}

#[test]
fn mixer_maps_the_flat_object() {
    let m = interpret_channel_response("mixer", &mixer_payload(true, "family", 7)).unwrap();
    assert_eq!(
        m,
        CanonicalStreamMetadata {
            live: true,
            nsfw: false,
            title: s("some title"),
            thumbnail: s("https://t.example/x.png"),
            viewers: 7,
        }
    );
}

#[test]
fn mixer_mature_audience_sentinel_sets_nsfw() {
    let m = interpret_channel_response("mixer", &mixer_payload(false, "18+!", 0)).unwrap();
    assert!(m.nsfw);
    assert!(!m.live);
}

#[test]
fn mixer_missing_required_field_fails_validation() {
    let payload = obj(vec![
        ("name", JsonValue::Str(s("t"))),
        ("online", JsonValue::Bool(true)),
        ("thumbnail", obj(vec![("url", JsonValue::Str(s("u")))])),
        ("viewersCurrent", JsonValue::Int(1)),
    ]);
    let err = interpret_channel_response("mixer", &payload).unwrap_err();
    assert!(matches!(err, ApiError::SchemaValidation(_)));
}

#[test]
fn mixer_negative_viewer_count_is_an_upstream_failure() {
    let err = interpret_channel_response("mixer", &mixer_payload(true, "family", -1)).unwrap_err();
    assert!(matches!(err, ApiError::UpstreamRequestFailure(_)));
}

fn twitch_payload(game: &str, viewers: i64) -> JsonValue {
    obj(vec![
        ("game", JsonValue::Str(s(game))),
        ("viewers", JsonValue::Int(viewers)),
        ("preview", JsonValue::Str(s("https://p.example/img.png"))),
        ("channel", obj(vec![("display_name", JsonValue::Str(s("JBPratt")))])),
    ])
}

#[test]
fn twitch_is_always_live_and_never_nsfw() {
    let m = interpret_channel_response("twitch", &twitch_payload("Tetris", 250)).unwrap();
    assert_eq!(
        m,
        CanonicalStreamMetadata {
            live: true,
            nsfw: false,
            title: s("Tetris"),
            thumbnail: s("https://p.example/img.png"),
            viewers: 250,
        }
    );
}

#[test]
fn twitch_wrong_type_fails_validation() {
    let payload = obj(vec![
        ("game", JsonValue::Int(5)),
        ("viewers", JsonValue::Int(1)),
        ("preview", JsonValue::Str(s("u"))),
        ("channel", obj(vec![("display_name", JsonValue::Str(s("x")))])),
    ]);
    let err = interpret_channel_response("twitch", &payload).unwrap_err();
    assert!(matches!(err, ApiError::SchemaValidation(_)));
}

fn youtube_item(rating: Option<&str>, view_count: &str) -> JsonValue {
    let content_details = match rating {
        Some(r) => obj(vec![(
            "contentRating",
            obj(vec![("ytRating", JsonValue::Str(s(r)))]),
        )]),
        None => obj(vec![("contentRating", obj(vec![]))]),
    };
    obj(vec![
        ("id", JsonValue::Str(s("dQw4w9WgXcQ"))),
        (
            "snippet",
            obj(vec![
                ("title", JsonValue::Str(s("a video"))),
                (
                    "thumbnails",
                    obj(vec![(
                        "medium",
                        obj(vec![("url", JsonValue::Str(s("https://i.example/m.jpg")))]),
                    )]),
                ),
            ]),
        ),
        ("contentDetails", content_details),
        ("statistics", obj(vec![("viewCount", JsonValue::Str(s(view_count)))])),
    ])
}

fn youtube_payload(rating: Option<&str>, view_count: &str) -> JsonValue {
    obj(vec![
        ("pageInfo", obj(vec![("totalResults", JsonValue::Int(1))])),
        ("items", JsonValue::Array(vec![youtube_item(rating, view_count)])),
    ])
}

#[test]
fn youtube_maps_the_first_item() {
    let m = interpret_channel_response("youtube", &youtube_payload(None, "12345")).unwrap();
    assert_eq!(
        m,
        CanonicalStreamMetadata {
            live: true,
            nsfw: false,
            title: s("a video"),
            thumbnail: s("https://i.example/m.jpg"),
            viewers: 12345,
        }
    );
}

#[test]
fn youtube_age_restriction_sets_nsfw() {
    let m = interpret_channel_response("youtube", &youtube_payload(Some("ytAgeRestricted"), "1"))
        .unwrap();
    assert!(m.nsfw);
    let tame = interpret_channel_response("youtube", &youtube_payload(Some("mpaaR"), "1")).unwrap();
    assert!(!tame.nsfw);
}

#[test]
fn youtube_empty_items_fails_validation() {
    let payload = obj(vec![
        ("pageInfo", obj(vec![("totalResults", JsonValue::Int(0))])),
        ("items", JsonValue::Array(vec![])),
    ]);
    let err = interpret_channel_response("youtube", &payload).unwrap_err();
    assert!(matches!(err, ApiError::SchemaValidation(_)));
}

#[test]
fn youtube_missing_items_is_an_upstream_failure() {
    // The declared schema leaves `items` optional, so validation passes and
    // the decode step reports the shortfall.
    let payload = obj(vec![("pageInfo", obj(vec![("totalResults", JsonValue::Int(0))]))]);
    let err = interpret_channel_response("youtube", &payload).unwrap_err();
    assert!(matches!(err, ApiError::UpstreamRequestFailure(_)));
}

#[test]
fn unknown_service_is_not_found() {
    let payload = obj(vec![]);
    let err = interpret_channel_response("ustream", &payload).unwrap_err();
    assert!(matches!(err, ApiError::NotFound(_)));
}

#[test]
fn validate_schema_checks_patterns_and_presence() {
    let schema = Schema::ObjectShape {
        properties: vec![
            Property { name: s("count"), required: true, shape: Schema::StrShape(StringShape::Digits) },
            Property { name: s("note"), required: false, shape: Schema::StrShape(StringShape::AnyText) },
        ],
    };
    let good = obj(vec![("count", JsonValue::Str(s("007")))]);
    assert!(validate_schema(&good, &schema).is_ok());
    let empty_digits = obj(vec![("count", JsonValue::Str(s("")))]);
    assert!(validate_schema(&empty_digits, &schema).is_err());
    let missing = obj(vec![("note", JsonValue::Str(s("x")))]);
    assert!(validate_schema(&missing, &schema).is_err());
    let wrong_note = obj(vec![
        ("count", JsonValue::Str(s("1"))),
        ("note", JsonValue::Int(3)),
    ]);
    assert!(matches!(
        validate_schema(&wrong_note, &schema).unwrap_err(),
        ApiError::SchemaValidation(_)
    ));
    let non_object = JsonValue::Str(s("1"));
    assert!(validate_schema(&non_object, &schema).is_err());
    let fraction = obj(vec![("count", JsonValue::NonIntegralNumber)]);
    assert!(validate_schema(&fraction, &schema).is_err());
}

#[test]
fn canonical_metadata_serializes_in_wire_order() {
    let m = CanonicalStreamMetadata {
        live: true,
        nsfw: false,
        title: s("t"),
        thumbnail: s("u"),
        viewers: 3,
    };
    match m.to_json() {
        JsonValue::Object(fields) => {
            let keys: Vec<&str> = fields.iter().map(|(k, _)| k.as_str()).collect();
            assert_eq!(keys, vec!["online", "nsfw", "title", "thumbnail", "viewers"]);
            assert_eq!(fields[0].1, JsonValue::Bool(true));
            assert_eq!(fields[4].1, JsonValue::Int(3));
        },
        other => panic!("expected an object, got {:?}", other),
    }
}

#[test]
fn twitch_request_carries_auth_headers() {
    let client = twitch::Client::new(s("sekrit"), s("client123"));
    let req = client.request("jbpratt");
    assert_eq!(req.url, "https://api.twitch.tv/helix/jbpratt");
    assert_eq!(
        req.headers,
        vec![
            (s("Authorization"), s("Bearer sekrit")),
            (s("Client-ID"), s("client123")),
            (s("Accept"), s("application/vnd.twitchtv.v5+json")),
        ]
    );
}

#[test]
fn app_state_builds_the_adapter_table() {
    let config = Config::new(s("yt-token"), s("cid"), s("csecret"), s("https://r.example"), s("jwtk"), 24);
    let state = AppState::new(&config).unwrap();
    assert_eq!(state.twitch.token, "csecret");
    assert_eq!(state.twitch.client_id, "cid");
    assert_eq!(
        state.youtube.url,
        "https://www.googleapis.com/youtube/v3/videos?key=yt-token"
    );
    let req = state.request_for("smashcast", "abc").unwrap();
    assert_eq!(req.url, "https://api.smashcast.tv/media/live/abc");
    assert!(state.request_for("chaturbate", "abc").is_none());
    let yt_req = state.request_for("youtube", "vid").unwrap();
    assert_eq!(yt_req.query, vec![
        (s("id"), s("vid")),
        (s("part"), s("liveStreamingDetails,snippet,statistics,contentDetails")),
    ]);
    let mixer_req = mixer::Client::new().request("chan");
    assert_eq!(mixer_req.url, "https://mixer.com/api/v1/channels/chan");
    let sc_req = smashcast::Client::new().request("chan");
    assert!(sc_req.headers.is_empty());
}
