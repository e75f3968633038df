//! The error taxonomy of the crate.

use vstd::prelude::*;

verus! {

/// Every failure surfaced by the library.
///
/// `ChannelValidation` and `SchemaValidation` are local, expected failures
/// with descriptive messages; `UpstreamRequestFailure` covers network
/// failures, non-2xx statuses and post-validation decode failures from a
/// provider; `StorageFailure` covers pool exhaustion or backing-store
/// errors reported by the storage collaborator.
#[derive(Debug, Clone, PartialEq)]
pub enum ApiError {
    StorageFailure(String),
    CannotEncodeSessionToken(String),
    CannotDecodeSessionToken(String),
    SchemaValidation(String),
    ChannelValidation(String),
    ChannelNormalization(String),
    NotFound(String),
    CannotParseUuid(String),
    CannotParseIPAddr(String),
    InvalidService(String),
    UpstreamRequestFailure(String),
}

impl ApiError {
    /// The human-readable description carried by this error, prefixed by its
    /// kind.
    pub fn message(&self) -> (r: String)
        ensures
            r@ == self.message_spec(),
    {
        let (prefix, detail): (&str, &String) = match self {
            ApiError::StorageFailure(m) => ("storage error: ", m),
            ApiError::CannotEncodeSessionToken(m) => ("failed to encode session token: ", m),
            ApiError::CannotDecodeSessionToken(m) => ("failed to decode session token: ", m),
            ApiError::SchemaValidation(m) => ("response failed schema validation: ", m),
            ApiError::ChannelValidation(m) => ("channel failed validation: ", m),
            ApiError::ChannelNormalization(m) => ("channel failed normalization: ", m),
            ApiError::NotFound(m) => ("not found: ", m),
            ApiError::CannotParseUuid(m) => ("failed to parse uuid: ", m),
            ApiError::CannotParseIPAddr(m) => ("failed to parse ipaddr: ", m),
            ApiError::InvalidService(m) => ("invalid service: ", m),
            ApiError::UpstreamRequestFailure(m) => ("upstream request failed: ", m),
        };
        let mut out = String::from_str(prefix);
        out.append(detail.as_str());
        out
    }

    /// The message produced by [`Self::message`].
    pub open spec fn message_spec(&self) -> Seq<char> {
        match self {
            ApiError::StorageFailure(m) => "storage error: "@ + m@,
            ApiError::CannotEncodeSessionToken(m) => "failed to encode session token: "@ + m@,
            ApiError::CannotDecodeSessionToken(m) => "failed to decode session token: "@ + m@,
            ApiError::SchemaValidation(m) => "response failed schema validation: "@ + m@,
            ApiError::ChannelValidation(m) => "channel failed validation: "@ + m@,
            ApiError::ChannelNormalization(m) => "channel failed normalization: "@ + m@,
            ApiError::NotFound(m) => "not found: "@ + m@,
            ApiError::CannotParseUuid(m) => "failed to parse uuid: "@ + m@,
            ApiError::CannotParseIPAddr(m) => "failed to parse ipaddr: "@ + m@,
            ApiError::InvalidService(m) => "invalid service: "@ + m@,
            ApiError::UpstreamRequestFailure(m) => "upstream request failed: "@ + m@,
        }
    }
}

} // verus!
