//! Process-wide configuration, constructed once at startup from explicit
//! values and passed by reference into the aggregation framework.

use vstd::prelude::*;

verus! {

/// The credentials and settings the process runs with.
#[derive(Debug, Clone, PartialEq)]
pub struct Config {
    pub youtube_token: String,
    pub twitch_client_id: String,
    pub twitch_client_secret: String,
    pub twitch_redirect_url: String,
    pub jwt_key: String,
    pub jwt_ttl: i64,
}

impl Config {
    /// A configuration holding exactly the given values.
    pub fn new(
        youtube_token: String,
        twitch_client_id: String,
        twitch_client_secret: String,
        twitch_redirect_url: String,
        jwt_key: String,
        jwt_ttl: i64,
    ) -> (r: Config)
        ensures
            r.youtube_token@ == youtube_token@,
            r.twitch_client_id@ == twitch_client_id@,
            r.twitch_client_secret@ == twitch_client_secret@,
            r.twitch_redirect_url@ == twitch_redirect_url@,
            r.jwt_key@ == jwt_key@,
            r.jwt_ttl == jwt_ttl,
    {
        Config {
            youtube_token,
            twitch_client_id,
            twitch_client_secret,
            twitch_redirect_url,
            jwt_key,
            jwt_ttl,
        }
    }
}

} // verus!
