use livehub::channel::{get_channel_id, to_ascii_lower, valid_basic_channel, valid_service, valid_stream_path, Channel};
use livehub::strutil::parse_u32;
use livehub::errors::ApiError;

#[test]
fn it_creates_a_valid_channel() {
    let response = Channel::new(
        String::from("jbpratt"),
        String::from("twitch"),
        String::from(""),
    )
    .unwrap();
    assert_eq!(response.stream_path, "/twitch/jbpratt");
}

#[test]
fn it_fails_to_create_an_invalid_channel_service() {
    let response = Channel::new(
        String::from("jbpratt"),
        String::from("chaturbate"),
        String::from(""),
    );

    let expected_err = ApiError::ChannelValidation(String::from("invalid service: chaturbate"));

    assert!(response.is_err());
    assert_eq!(response.unwrap_err(), expected_err);
}

#[test]
fn it_creates_a_valid_advanced_channel() {
    let response = Channel::new(
        String::from("https://api.new.livestream.com/accounts/1181452/events/8865379/live.m3u8"),
        String::from("advanced"),
        String::from(""),
    )
    .unwrap();
    assert_eq!(
        response.get_path(),
        "/advanced/https://api.new.livestream.com/accounts/1181452/events/8865379/live.m3u8"
    );
}

#[test]
fn it_fails_to_create_an_invalid_channel_advanced() {
    let response = Channel::new(
        String::from("m3u8://api.new.livestream.com/accounts/1181452/events/8865379/live"),
        String::from("advanced"),
        String::from(""),
    );
    let expected_err = ApiError::ChannelValidation(String::from(
        "invalid advanced url schema. must be http or https",
    ));

    assert!(response.is_err());
    assert_eq!(response.unwrap_err(), expected_err);
}

#[test]
fn it_hashes_a_channel() {
    let response = Channel::new(
        String::from("test1"),
        String::from("twitch"),
        String::from("test2"),
    )
    .unwrap();

    let chn_hash = get_channel_id(&response);
    assert_eq!(chn_hash, 205056930060635);
}

#[test]
fn channel_identity_is_pure_and_field_sensitive() {
    let a = Channel::new(
        String::from("test1"),
        String::from("twitch"),
        String::from("test2"),
    )
    .unwrap();
    let b = a.clone();
    assert_eq!(get_channel_id(&a), get_channel_id(&b));
    assert!(get_channel_id(&a) < 1u64 << 48);

    let other_channel = Channel::new(
        String::from("test2"),
        String::from("twitch"),
        String::from("test2"),
    )
    .unwrap();
    let other_service = Channel::new(
        String::from("test1"),
        String::from("vaughn"),
        String::from("test2"),
    )
    .unwrap();
    let other_path = Channel::new(
        String::from("test1"),
        String::from("twitch"),
        String::from("test3"),
    )
    .unwrap();
    assert_ne!(get_channel_id(&a), get_channel_id(&other_channel));
    assert_ne!(get_channel_id(&a), get_channel_id(&other_service));
    assert_ne!(get_channel_id(&a), get_channel_id(&other_path));
}

#[test]
fn normalize_is_idempotent_for_ordinary_channels() {
    let first = Channel::new(
        String::from("JBPratt"),
        String::from("angelthump"),
        String::from("somepath"),
    )
    .unwrap();
    let second = Channel::new(
        first.channel.clone(),
        first.service.clone(),
        first.stream_path.clone(),
    )
    .unwrap();
    assert_eq!(first, second);
}

#[test]
fn reserved_handle_is_lowercased() {
    // A handle equal to a provider tag passes through the lowercase
    // normalization; any other handle is kept verbatim.
    let chn = Channel::new(
        String::from("twitch"),
        String::from("angelthump"),
        String::from(""),
    )
    .unwrap();
    assert_eq!(chn.channel, "twitch");
    let mixed = Channel::new(
        String::from("JBPratt"),
        String::from("twitch"),
        String::from(""),
    )
    .unwrap();
    assert_eq!(mixed.channel, "JBPratt");
}

#[test]
fn invalid_handle_is_rejected() {
    let bad = Channel::new(
        String::from("has space"),
        String::from("twitch"),
        String::from(""),
    );
    assert_eq!(
        bad.unwrap_err(),
        ApiError::ChannelValidation(String::from("invalid channel"))
    );
    let too_long = "a".repeat(65);
    assert!(Channel::new(too_long, String::from("twitch"), String::from("")).is_err());
    let max_len = "a".repeat(64);
    assert!(Channel::new(max_len, String::from("twitch"), String::from("")).is_ok());
}

#[test]
fn stream_path_grammar_bounds() {
    assert!(valid_stream_path(""));
    assert!(!valid_stream_path("ab"));
    assert!(valid_stream_path("abc"));
    assert!(valid_stream_path("abc_123"));
    assert!(valid_stream_path(&"a".repeat(32)));
    assert!(!valid_stream_path(&"a".repeat(33)));
    assert!(!valid_stream_path("ABC"));
    assert!(!valid_stream_path("a/b"));
    let bad_path = Channel::new(
        String::from("jbpratt"),
        String::from("twitch"),
        String::from("Bad Path"),
    );
    assert_eq!(
        bad_path.unwrap_err(),
        ApiError::ChannelValidation(String::from("invalid stream path: Bad Path"))
    );
}

#[test]
fn service_enumeration_is_exact() {
    for tag in [
        "advanced",
        "angelthump",
        "facebook",
        "m3u8",
        "smashcast",
        "twitch",
        "twitch-vod",
        "ustream",
        "vaughn",
        "youtube",
        "youtube-playlist",
    ] {
        assert!(valid_service(tag));
    }
    assert!(!valid_service("twitter"));
    assert!(!valid_service("Twitch"));
    assert!(!valid_service(""));
}

#[test]
fn handle_grammar_accepts_hyphen_and_underscore() {
    assert!(valid_basic_channel("a-b_c9"));
    assert!(valid_basic_channel("A"));
    assert!(!valid_basic_channel(""));
    assert!(!valid_basic_channel("a.b"));
}

#[test]
fn m3u8_service_takes_urls() {
    let chn = Channel::new(
        String::from("http://example.org/stream"),
        String::from("m3u8"),
        String::from(""),
    )
    .unwrap();
    assert_eq!(chn.channel, "http://example.org/stream");
    assert_eq!(chn.stream_path, "/m3u8/http://example.org/stream");

    let unparsable = Channel::new(
        String::from("not a url"),
        String::from("advanced"),
        String::from(""),
    );
    assert!(matches!(
        unparsable.unwrap_err(),
        ApiError::ChannelNormalization(_)
    ));
}

#[test]
fn advanced_urls_are_canonicalized() {
    // The canonical serialization differs from the raw input: scheme and
    // host are lowercased and the empty path becomes a slash.
    let chn = Channel::new(
        String::from("HTTPS://Example.ORG"),
        String::from("advanced"),
        String::from(""),
    )
    .unwrap();
    assert_eq!(chn.channel, "https://example.org/");
}

#[test]
fn lowercasing_is_ascii_only() {
    assert_eq!(to_ascii_lower("AbC-9_z"), "abc-9_z");
    assert_eq!(to_ascii_lower(""), "");
}

#[test]
fn digit_strings_parse_exactly() {
    assert_eq!(parse_u32("0"), Some(0));
    assert_eq!(parse_u32("007"), Some(7));
    assert_eq!(parse_u32("4294967295"), Some(u32::MAX));
    assert_eq!(parse_u32("4294967296"), None);
    assert_eq!(parse_u32(""), None);
    assert_eq!(parse_u32("12a"), None);
    assert_eq!(parse_u32("-1"), None);
}
