//! Channel identity: validation and normalization of a raw
//! (channel, service, path) triple, and the stable 48-bit identity derived
//! from a normalized `Channel`.

use vstd::prelude::*;

use crate::errors::ApiError;
use crate::strutil::str_eq;

verus! {

// ---------------------------------------------------------------------------
// The service enumeration.
// ---------------------------------------------------------------------------

/// The fixed enumeration of provider tags.
pub open spec fn valid_service_spec(s: Seq<char>) -> bool {
    ||| s == "advanced"@
    ||| s == "angelthump"@
    ||| s == "facebook"@
    ||| s == "m3u8"@
    ||| s == "smashcast"@
    ||| s == "twitch"@
    ||| s == "twitch-vod"@
    ||| s == "ustream"@
    ||| s == "vaughn"@
    ||| s == "youtube"@
    ||| s == "youtube-playlist"@
}

/// The two providers whose channel is a raw URL rather than a handle.
pub open spec fn url_based_service(s: Seq<char>) -> bool {
    s == "advanced"@ || s == "m3u8"@
}

/// Whether `service` belongs to the fixed provider enumeration.
pub fn valid_service(service: &str) -> (b: bool)
    ensures
        b == valid_service_spec(service@),
{
    str_eq(service, "advanced") || str_eq(service, "angelthump") || str_eq(service, "facebook")
        || str_eq(service, "m3u8") || str_eq(service, "smashcast") || str_eq(service, "twitch")
        || str_eq(service, "twitch-vod") || str_eq(service, "ustream") || str_eq(
        service,
        "vaughn",
    ) || str_eq(service, "youtube") || str_eq(service, "youtube-playlist")
}

fn url_service(service: &str) -> (b: bool)
    ensures
        b == url_based_service(service@),
{
    str_eq(service, "advanced") || str_eq(service, "m3u8")
}

// ---------------------------------------------------------------------------
// Grammars for stream paths and ordinary channel handles.
// ---------------------------------------------------------------------------

/// Characters allowed in a caller-supplied stream path.
pub open spec fn is_path_char(c: char) -> bool {
    ('a' <= c && c <= 'z') || ('0' <= c && c <= '9') || c == '_'
}

/// A stream path is either empty or a token of 3 to 32 path characters.
pub open spec fn valid_stream_path_spec(s: Seq<char>) -> bool {
    s.len() == 0 || (3 <= s.len() && s.len() <= 32 && forall|i: int|
        0 <= i < s.len() ==> is_path_char(s[i]))
}

/// Characters allowed in an ordinary provider channel handle.
pub open spec fn is_handle_char(c: char) -> bool {
    ('a' <= c && c <= 'z') || ('A' <= c && c <= 'Z') || ('0' <= c && c <= '9') || c == '-' || c
        == '_'
}

/// An ordinary channel handle is 1 to 64 handle characters.
pub open spec fn valid_basic_channel_spec(s: Seq<char>) -> bool {
    1 <= s.len() && s.len() <= 64 && forall|i: int| 0 <= i < s.len() ==> is_handle_char(s[i])
}

fn is_path_char_exec(c: char) -> (b: bool)
    ensures
        b == is_path_char(c),
{
    ('a' <= c && c <= 'z') || ('0' <= c && c <= '9') || c == '_'
}

fn is_handle_char_exec(c: char) -> (b: bool)
    ensures
        b == is_handle_char(c),
{
    ('a' <= c && c <= 'z') || ('A' <= c && c <= 'Z') || ('0' <= c && c <= '9') || c == '-' || c
        == '_'
}

/// Whether `path` satisfies the stream-path grammar (the empty path is valid).
pub fn valid_stream_path(path: &str) -> (b: bool)
    ensures
        b == valid_stream_path_spec(path@),
{
    let n = path.unicode_len();
    if n == 0 {
        return true;
    }
    if n < 3 || n > 32 {
        return false;
    }
    let mut i: usize = 0;
    while i < n
        invariant
            i <= n,
            n == path@.len(),
            forall|j: int| 0 <= j < i ==> is_path_char(path@[j]),
        decreases n - i,
    {
        if !is_path_char_exec(path.get_char(i)) {
            return false;
        }
        i = i + 1;
    }
    true
}

/// Whether `channel` satisfies the ordinary handle grammar.
pub fn valid_basic_channel(channel: &str) -> (b: bool)
    ensures
        b == valid_basic_channel_spec(channel@),
{
    let n = channel.unicode_len();
    if n < 1 || n > 64 {
        return false;
    }
    let mut i: usize = 0;
    while i < n
        invariant
            i <= n,
            n == channel@.len(),
            forall|j: int| 0 <= j < i ==> is_handle_char(channel@[j]),
        decreases n - i,
    {
        if !is_handle_char_exec(channel.get_char(i)) {
            return false;
        }
        i = i + 1;
    }
    true
}

// ---------------------------------------------------------------------------
// ASCII lowercasing (applied when a handle collides with a provider tag).
// ---------------------------------------------------------------------------

/// ASCII lowercase of a single character.
pub open spec fn lower_char(c: char) -> char {
    if 'A' <= c && c <= 'Z' {
        (((c as u8) + 32) as u8) as char
    } else {
        c
    }
}

/// ASCII lowercase of a character sequence.
pub open spec fn lower_seq(s: Seq<char>) -> Seq<char> {
    s.map_values(|c: char| lower_char(c))
}

/// ASCII-lowercases a string.
pub fn to_ascii_lower(s: &str) -> (r: String)
    ensures
        r@ == lower_seq(s@),
{
    let n = s.unicode_len();
    let mut out = String::new();
    let mut i: usize = 0;
    while i < n
        invariant
            i <= n,
            n == s@.len(),
            out@ == lower_seq(s@.subrange(0, i as int)),
        decreases n - i,
    {
        let c = s.get_char(i);
        let lc: char = if 'A' <= c && c <= 'Z' {
            ((c as u8) + 32) as char
        } else {
            c
        };
        out.append(char_to_str(lc).as_str());
        proof {
            assert(lower_seq(s@.subrange(0, i + 1 as int)) =~= lower_seq(
                s@.subrange(0, i as int),
            ).push(lower_char(s@[i as int])));
        }
        i = i + 1;
    }
    proof {
        assert(s@.subrange(0, n as int) =~= s@);
    }
    out
}

/// A one-character string.
fn char_to_str(c: char) -> (r: String)
    ensures
        r@ == seq![c],
{
    let mut out = String::new();
    char_push(&mut out, c);
    proof {
        assert(Seq::<char>::empty().push(c) =~= seq![c]);
    }
    out
}

/// Relies on `String::push` from std: appends exactly one character.
#[verifier::external_body]
fn char_push(s: &mut String, c: char)
    ensures
        final(s)@ == old(s)@.push(c),
{
    s.push(c);
}

// ---------------------------------------------------------------------------
// URL parsing for the two URL-based providers (through the `url` crate).
// ---------------------------------------------------------------------------

/// Scheme and canonical string form of `s` parsed as an absolute URL, or
/// `None` when `s` does not parse. The result depends on `s` alone.
pub uninterp spec fn parsed_url(s: Seq<char>) -> Option<(Seq<char>, Seq<char>)>;

/// Relies on `url::Url::parse`, `Url::scheme` and `Url::to_string`: parses an
/// absolute URL and yields its scheme and its canonical serialization.
#[verifier::external_body]
fn parse_absolute_url(s: &str) -> (r: Option<(String, String)>)
    ensures
        r is Some <==> parsed_url(s@) is Some,
        r matches Some(p) ==> parsed_url(s@) == Some((p.0@, p.1@)),
{
    match url::Url::parse(s) {
        Ok(u) => {
            let scheme = String::from(u.scheme());
            Some((scheme, u.to_string()))
        },
        Err(_) => None,
    }
}

// ---------------------------------------------------------------------------
// The Channel value and its validating constructor.
// ---------------------------------------------------------------------------

/// A normalized (channel, service, path) triple identifying a stream source.
#[derive(Debug, Clone, PartialEq)]
pub struct Channel {
    pub channel: String,
    pub service: String,
    pub stream_path: String,
}

/// Normalized form of the channel field for an ordinary provider: a handle
/// equal to a provider tag is lowercased, any other handle passes through.
pub open spec fn normalized_handle(channel: Seq<char>) -> Seq<char> {
    if valid_service_spec(channel) {
        lower_seq(channel)
    } else {
        channel
    }
}

/// The normalized channel field for `service`, when normalization succeeds.
pub open spec fn normalized_channel_spec(service: Seq<char>, channel: Seq<char>) -> Seq<char> {
    if url_based_service(service) {
        parsed_url(channel)->Some_0.1
    } else {
        normalized_handle(channel)
    }
}

/// Whether the channel field of a raw triple is accepted for `service`.
pub open spec fn channel_field_ok(service: Seq<char>, channel: Seq<char>) -> bool {
    if url_based_service(service) {
        parsed_url(channel) matches Some(p) && (p.0 == "http"@ || p.0 == "https"@)
    } else {
        valid_basic_channel_spec(channel)
    }
}

/// Whether a raw (channel, service, path) triple is accepted as a whole.
pub open spec fn channel_new_ok(channel: Seq<char>, service: Seq<char>, path: Seq<char>) -> bool {
    &&& valid_service_spec(service)
    &&& channel_field_ok(service, channel)
    &&& valid_stream_path_spec(path)
}

/// The finalized stream path: the caller's path when non-empty, else
/// `/{service}/{channel}`.
pub open spec fn final_path(service: Seq<char>, channel: Seq<char>, path: Seq<char>) -> Seq<char> {
    if path.len() == 0 {
        "/"@ + service + "/"@ + channel
    } else {
        path
    }
}

/// The `Channel` value produced for an accepted raw triple.
pub open spec fn channel_new_spec(channel: Seq<char>, service: Seq<char>, path: Seq<char>) -> (
    Seq<char>,
    Seq<char>,
    Seq<char>,
) {
    let norm = normalized_channel_spec(service, channel);
    (norm, service, final_path(service, norm, path))
}

impl Channel {
    /// What the validating constructor establishes: the service belongs to
    /// the enumeration, and an ordinary provider's channel satisfies the
    /// handle grammar.
    pub open spec fn wf(&self) -> bool {
        &&& valid_service_spec(self.service@)
        &&& !url_based_service(self.service@) ==> valid_basic_channel_spec(self.channel@)
    }

    /// Validates and normalizes a raw triple into a `Channel`.
    ///
    /// The service must belong to the provider enumeration; for URL-based
    /// providers the channel must parse as an absolute http(s) URL and is
    /// canonicalized, for ordinary providers it must match the handle
    /// grammar; the path must match the path grammar and, when empty, is
    /// finalized to `/{service}/{channel}`.
    pub fn new(channel: String, service: String, stream_path: String) -> (r: Result<
        Self,
        ApiError,
    >)
        ensures
            r is Ok <==> channel_new_ok(channel@, service@, stream_path@),
            r matches Ok(c) ==> {
                let (ch, sv, p) = channel_new_spec(channel@, service@, stream_path@);
                c.channel@ == ch && c.service@ == sv && c.stream_path@ == p && c.wf()
            },
            r matches Err(e) ==> {
                ||| {
                    &&& !valid_service_spec(service@)
                    &&& e matches ApiError::ChannelValidation(m)
                    &&& m@ == "invalid service: "@ + service@
                }
                ||| {
                    &&& valid_service_spec(service@)
                    &&& url_based_service(service@)
                    &&& parsed_url(channel@) is None
                    &&& e is ChannelNormalization
                }
                ||| {
                    &&& valid_service_spec(service@)
                    &&& url_based_service(service@)
                    &&& parsed_url(channel@) is Some
                    &&& !channel_field_ok(service@, channel@)
                    &&& e matches ApiError::ChannelValidation(m)
                    &&& m@ == "invalid advanced url schema. must be http or https"@
                }
                ||| {
                    &&& valid_service_spec(service@)
                    &&& !url_based_service(service@)
                    &&& !valid_basic_channel_spec(channel@)
                    &&& e matches ApiError::ChannelValidation(m)
                    &&& m@ == "invalid channel"@
                }
                ||| {
                    &&& valid_service_spec(service@)
                    &&& channel_field_ok(service@, channel@)
                    &&& !valid_stream_path_spec(stream_path@)
                    &&& e matches ApiError::ChannelValidation(m)
                    &&& m@ == "invalid stream path: "@ + stream_path@
                }
            },
    {
        if !valid_service(service.as_str()) {
            let mut msg = String::from_str("invalid service: ");
            msg.append(service.as_str());
            return Err(ApiError::ChannelValidation(msg));
        }
        let normalized_channel = match normalize_channel(service.as_str(), channel.as_str()) {
            Ok(chn) => chn,
            Err(e) => {
                return Err(e);
            },
        };
        if !valid_stream_path(stream_path.as_str()) {
            let mut msg = String::from_str("invalid stream path: ");
            msg.append(stream_path.as_str());
            return Err(ApiError::ChannelValidation(msg));
        }
        let mut chn = Self { channel: normalized_channel, service, stream_path };
        chn.stream_path = chn.get_path();
        proof {
            if !url_based_service(chn.service@) && valid_service_spec(channel@) {
                lemma_service_tags_lowercase(channel@);
            }
        }
        Ok(chn)
    }

    /// The finalized stream path: the stored path when non-empty, else
    /// `/{service}/{channel}`.
    pub fn get_path(&self) -> (r: String)
        ensures
            r@ == final_path(self.service@, self.channel@, self.stream_path@),
    {
        if !self.stream_path.as_str().is_empty() {
            self.stream_path.clone()
        } else {
            let mut out = String::from_str("/");
            out.append(self.service.as_str());
            out.append("/");
            out.append(self.channel.as_str());
            out
        }
    }
}

// ---------------------------------------------------------------------------
// Stable channel identity.
//
// The identity of a channel is a 48-bit value derived from a 64-bit FNV-1a
// style fold over the code points of the three normalized fields, in the
// order channel, service, path, each terminated by the separator 0x110000
// (one past the largest code point, so field boundaries cannot collide with
// content). This definition is the durable storage key and must not change
// across versions.
// ---------------------------------------------------------------------------

pub const FNV_OFFSET: u64 = 0xcbf2_9ce4_8422_2325;

pub const FNV_PRIME: u64 = 0x100_0000_01b3;

pub const FIELD_SEPARATOR: u64 = 0x11_0000;

/// One folding step: xor the next value in, multiply by the prime mod 2^64.
pub open spec fn fnv_step(h: u64, v: u64) -> u64 {
    vstd::wrapping::u64_specs::wrapping_mul(h ^ v, FNV_PRIME)
}

/// Folds the code points of `s` into `h`, left to right.
pub open spec fn fnv_chars(h: u64, s: Seq<char>) -> u64
    decreases s.len(),
{
    if s.len() == 0 {
        h
    } else {
        fnv_step(fnv_chars(h, s.drop_last()), s.last() as u64)
    }
}

/// Folds one field: its characters, then the field separator.
pub open spec fn fnv_field(h: u64, s: Seq<char>) -> u64 {
    fnv_step(fnv_chars(h, s), FIELD_SEPARATOR)
}

/// The full 64-bit hash of a channel triple.
pub open spec fn channel_hash_spec(channel: Seq<char>, service: Seq<char>, path: Seq<char>) -> u64 {
    fnv_field(fnv_field(fnv_field(FNV_OFFSET, channel), service), path)
}

/// The 48-bit identity of a channel triple.
pub open spec fn channel_id_spec(channel: Seq<char>, service: Seq<char>, path: Seq<char>) -> u64 {
    channel_hash_spec(channel, service, path) & 0xffff_ffff_ffff
}

/// Folds the characters of `s` into `h`.
fn fnv_fold_str(h: u64, s: &str) -> (r: u64)
    ensures
        r == fnv_chars(h, s@),
{
    let n = s.unicode_len();
    let mut acc = h;
    let mut i: usize = 0;
    while i < n
        invariant
            i <= n,
            n == s@.len(),
            acc == fnv_chars(h, s@.subrange(0, i as int)),
        decreases n - i,
    {
        let c = s.get_char(i);
        acc = (acc ^ (c as u64)).wrapping_mul(FNV_PRIME);
        proof {
            assert(s@.subrange(0, i + 1 as int).drop_last() =~= s@.subrange(0, i as int));
        }
        i = i + 1;
    }
    proof {
        assert(s@.subrange(0, n as int) =~= s@);
    }
    acc
}

/// The full 64-bit hash of a channel.
pub fn calc_channel_hash(chn: &Channel) -> (r: u64)
    ensures
        r == channel_hash_spec(chn.channel@, chn.service@, chn.stream_path@),
{
    let mut h = FNV_OFFSET;
    h = fnv_fold_str(h, chn.channel.as_str());
    h = (h ^ FIELD_SEPARATOR).wrapping_mul(FNV_PRIME);
    h = fnv_fold_str(h, chn.service.as_str());
    h = (h ^ FIELD_SEPARATOR).wrapping_mul(FNV_PRIME);
    h = fnv_fold_str(h, chn.stream_path.as_str());
    h = (h ^ FIELD_SEPARATOR).wrapping_mul(FNV_PRIME);
    h
}

/// The stable 48-bit identity of a channel: a pure function of its three
/// fields.
pub fn get_channel_id(chn: &Channel) -> (r: u64)
    ensures
        r == channel_id_spec(chn.channel@, chn.service@, chn.stream_path@),
        r < 0x1_0000_0000_0000,
{
    let h = calc_channel_hash(chn);
    let id = h & 0xffff_ffff_ffff;
    proof {
        assert(h & 0xffff_ffff_ffff < 0x1_0000_0000_0000) by (bit_vector);
    }
    id
}

/// The identity is a pure function of the channel value: equal fields give
/// equal identities, in every process and on every run.
pub proof fn lemma_identity_of_pure(a: Channel, b: Channel)
    requires
        a.channel@ == b.channel@,
        a.service@ == b.service@,
        a.stream_path@ == b.stream_path@,
    ensures
        channel_id_spec(a.channel@, a.service@, a.stream_path@) == channel_id_spec(
            b.channel@,
            b.service@,
            b.stream_path@,
        ),
{
}

/// Every provider tag is already lowercase, so lowercasing one changes
/// nothing.
proof fn lemma_service_tags_lowercase(s: Seq<char>)
    requires
        valid_service_spec(s),
    ensures
        lower_seq(s) == s,
{
    reveal_strlit("advanced");
    reveal_strlit("angelthump");
    reveal_strlit("facebook");
    reveal_strlit("m3u8");
    reveal_strlit("smashcast");
    reveal_strlit("twitch");
    reveal_strlit("twitch-vod");
    reveal_strlit("ustream");
    reveal_strlit("vaughn");
    reveal_strlit("youtube");
    reveal_strlit("youtube-playlist");
    assert(lower_seq("advanced"@) =~= "advanced"@);
    assert(lower_seq("angelthump"@) =~= "angelthump"@);
    assert(lower_seq("facebook"@) =~= "facebook"@);
    assert(lower_seq("m3u8"@) =~= "m3u8"@);
    assert(lower_seq("smashcast"@) =~= "smashcast"@);
    assert(lower_seq("twitch"@) =~= "twitch"@);
    assert(lower_seq("twitch-vod"@) =~= "twitch-vod"@);
    assert(lower_seq("ustream"@) =~= "ustream"@);
    assert(lower_seq("vaughn"@) =~= "vaughn"@);
    assert(lower_seq("youtube"@) =~= "youtube"@);
    assert(lower_seq("youtube-playlist"@) =~= "youtube-playlist"@);
}

/// Normalization is idempotent for ordinary providers: when a raw triple
/// with a non-empty path is accepted, feeding the resulting channel's own
/// fields back through validation accepts them and returns them unchanged.
///
/// (With an empty raw path the finalized path `/{service}/{channel}` holds
/// slashes, which the path grammar rejects, so a second round rejects it;
/// the law therefore speaks of triples whose path was caller-supplied.)
pub proof fn lemma_normalize_idempotent(channel: Seq<char>, service: Seq<char>, path: Seq<char>)
    requires
        !url_based_service(service),
        path.len() > 0,
        channel_new_ok(channel, service, path),
    ensures
        ({
            let (ch, sv, p) = channel_new_spec(channel, service, path);
            &&& channel_new_ok(ch, sv, p)
            &&& channel_new_spec(ch, sv, p) == (ch, sv, p)
        }),
{
    let (ch, sv, p) = channel_new_spec(channel, service, path);
    if valid_service_spec(channel) {
        lemma_service_tags_lowercase(channel);
        assert(ch == channel);
        lemma_service_tags_lowercase(ch);
    }
    assert(valid_basic_channel_spec(ch));
    assert(normalized_handle(ch) == ch);
}

/// Normalizes the channel field for `service`: URL-based providers parse and
/// canonicalize an absolute http(s) URL, ordinary providers validate the
/// handle grammar and lowercase a handle that collides with a provider tag.
pub fn normalize_channel(service: &str, channel: &str) -> (r: Result<String, ApiError>)
    requires
        valid_service_spec(service@),
    ensures
        r is Ok <==> channel_field_ok(service@, channel@),
        r matches Ok(s) ==> s@ == normalized_channel_spec(service@, channel@),
        r matches Err(e) ==> {
            ||| {
                &&& url_based_service(service@)
                &&& parsed_url(channel@) is None
                &&& e is ChannelNormalization
            }
            ||| {
                &&& url_based_service(service@)
                &&& parsed_url(channel@) is Some
                &&& !channel_field_ok(service@, channel@)
                &&& e matches ApiError::ChannelValidation(m)
                &&& m@ == "invalid advanced url schema. must be http or https"@
            }
            ||| {
                &&& !url_based_service(service@)
                &&& !valid_basic_channel_spec(channel@)
                &&& e matches ApiError::ChannelValidation(m)
                &&& m@ == "invalid channel"@
            }
        },
{
    if url_service(service) {
        match parse_absolute_url(channel) {
            Some(p) => {
                let (scheme, canonical) = p;
                if !str_eq(scheme.as_str(), "http") && !str_eq(scheme.as_str(), "https") {
                    return Err(
                        ApiError::ChannelValidation(
                            String::from_str("invalid advanced url schema. must be http or https"),
                        ),
                    );
                }
                Ok(canonical)
            },
            None => Err(
                ApiError::ChannelNormalization(String::from_str("relative URL without a base")),
            ),
        }
    } else {
        if !valid_basic_channel(channel) {
            return Err(ApiError::ChannelValidation(String::from_str("invalid channel")));
        }
        if valid_service(channel) {
            return Ok(to_ascii_lower(channel));
        }
        Ok(String::from_str(channel))
    }
}

} // verus!
