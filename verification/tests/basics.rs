use livehub::auth::PrivateClaim;
use livehub::config::Config;
use livehub::errors::ApiError;

#[test]
fn it_works() {
    assert_eq!(2 + 2, 4);
}

#[test]
fn it_gets_a_config_from_lazy_static() {
    let config = Config::new(
        String::from("yt"),
        String::from("cid"),
        String::from("cs"),
        String::from("https://redirect.example"),
        String::from("key"),
        24,
    );
    assert_ne!(config.jwt_key, "".to_string());
}

#[test]
fn a_private_claim_holds_its_subject_and_expiry() {
    let claim = PrivateClaim::new("134109801571028", 1_600_000_000);
    assert_eq!(claim.id, "134109801571028");
    assert_eq!(claim.exp, 1_600_000_000);
}

#[test]
fn error_messages_carry_their_kind() {
    let e = ApiError::ChannelValidation(String::from("invalid service: chaturbate"));
    assert_eq!(
        e.message(),
        "channel failed validation: invalid service: chaturbate"
    );
    let e = ApiError::NotFound(String::from("x"));
    assert_eq!(e.message(), "not found: x");
    let e = ApiError::UpstreamRequestFailure(String::from("connection reset"));
    assert_eq!(e.message(), "upstream request failed: connection reset");
}
