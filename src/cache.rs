use vstd::prelude::*;

use vstd::utf8::encode_utf8;

use crate::error::WeatherError;
use crate::text::{append_replacing, push_char, replaced};

verus! {

#[verifier::external_type_specification]
#[verifier::external_body]
pub struct ExUrl(url::Url);

#[verifier::external_type_specification]
#[verifier::external_body]
pub struct ExUrlParseError(url::ParseError);

/// Whether a text parses as an absolute URL.
pub uninterp spec fn url_accepts(text: Seq<char>) -> bool;

/// The SHA-256 digest of some bytes.
pub uninterp spec fn sha256_of(data: Seq<u8>) -> Seq<u8>;

/// How long a cached response stays fresh: one hour, in nanoseconds.
pub const CACHE_TTL_NANOS: u128 = 3600000000000;

/// Characters that are never left in a file name.
pub open spec fn unsafe_in_file_name(c: char) -> bool {
    c == '/' || c == '?' || c == '<' || c == '>' || c == '\\' || c == ':' || c == '*' || c == '|'
        || c == '"' || (c as int) < 0x20 || (0x80 <= (c as int) && (c as int) <= 0x9f)
}

/// No character of the text is unsafe in a file name.
pub open spec fn file_name_safe(s: Seq<char>) -> bool {
    forall|i: int| 0 <= i < s.len() ==> !unsafe_in_file_name(#[trigger] s[i])
}

/// The lower-case hexadecimal digit of a value below 16.
pub open spec fn hex_digit(v: int) -> char {
    seq!['0', '1', '2', '3', '4', '5', '6', '7', '8', '9', 'a', 'b', 'c', 'd', 'e', 'f'][v]
}

/// Two lower-case hexadecimal digits per byte, high half first.
pub open spec fn hex_lower(b: Seq<u8>) -> Seq<char> {
    Seq::new(
        2 * b.len(),
        |i: int|
            if i % 2 == 0 {
                hex_digit(b[i / 2] as int / 16)
            } else {
                hex_digit(b[i / 2] as int % 16)
            },
    )
}

/// Relies on url::Url::parse: parses an absolute URL, or fails.
#[verifier::external_body]
fn parse_url(text: &str) -> (r: Result<url::Url, url::ParseError>)
    ensures
        r is Ok == url_accepts(text@),
{
    url::Url::parse(text)
}

/// Relies on url::Url::host_str: the host of the URL, if it has one.
pub assume_specification[ url::Url::host_str ](u: &url::Url) -> Option<&str>;

/// Relies on url::Url::path: the path of the URL.
pub assume_specification[ url::Url::path ](u: &url::Url) -> &str;

/// Relies on url::Url::query: the query of the URL, if it has one.
pub assume_specification[ url::Url::query ](u: &url::Url) -> Option<&str>;

/// Relies on sanitize_filename::sanitize: the text with the characters that
/// are illegal in file names and the control characters removed (and, on
/// some systems, more), cut to a bounded length.
#[verifier::external_body]
fn sanitize_file_name(name: &str) -> (r: String)
    ensures
        file_name_safe(r@),
{
    sanitize_filename::sanitize(name)
}

/// Relies on sha2::Sha256::digest: the 32-byte SHA-256 digest of the bytes.
#[verifier::external_body]
fn sha256_digest(data: &[u8]) -> (r: Vec<u8>)
    ensures
        r@ == sha256_of(data@),
        r@.len() == 32,
{
    <sha2::Sha256 as sha2::Digest>::digest(data).to_vec()
}

/// Relies on hex::encode: two lower-case hexadecimal digits per byte.
#[verifier::external_body]
fn hex_encode(data: &[u8]) -> (r: String)
    ensures
        r@ == hex_lower(data@),
{
    hex::encode(data)
}

} // verus!

verus! {

/// The readable part of a cache file name: host (or `unknown`), `_`, the
/// path with `/` turned into `_`, and `_` and the query when there is one.
pub open spec fn readable_base(host: Option<Seq<char>>, path: Seq<char>, query: Option<Seq<char>>) -> Seq<char> {
    let h = match host {
        Some(h) => h,
        None => "unknown"@,
    };
    let b = h + seq!['_'] + replaced(path, '/', '_');
    match query {
        Some(q) => b + seq!['_'] + q,
        None => b,
    }
}

/// The first 100 characters of a text, or all of it when shorter.
pub open spec fn bounded_prefix(s: Seq<char>) -> Seq<char> {
    s.subrange(0, if s.len() > 100 { 100 } else { s.len() as int })
}

/// The cache file name: the bounded readable part, `_`, the first 16 hex
/// digits of the digest, and `.json`.
pub open spec fn cache_name(readable: Seq<char>, digest: Seq<u8>) -> Seq<char> {
    bounded_prefix(readable) + seq!['_'] + hex_lower(digest).subrange(0, 16) + ".json"@
}

/// Builds the readable part of a cache file name from the parts of a URL.
pub fn readable_base_of(host: Option<&str>, path: &str, query: Option<&str>) -> (r: String)
    ensures
        r@ == readable_base(
            match host {
                Some(h) => Some(h@),
                None => None,
            },
            path@,
            match query {
                Some(q) => Some(q@),
                None => None,
            },
        ),
{
    let mut out = String::new();
    match host {
        Some(h) => out.append(h),
        None => out.append("unknown"),
    }
    push_char(&mut out, '_');
    append_replacing(&mut out, path, '/', '_');
    if let Some(q) = query {
        push_char(&mut out, '_');
        out.append(q);
    }
    out
}

/// The cache file name for a sanitized readable part and a URL digest.
pub fn cache_file_name_from_parts(sanitized: &str, digest: &[u8]) -> (r: String)
    requires
        digest@.len() >= 8,
    ensures
        r@ == cache_name(sanitized@, digest@),
{
    let n = sanitized.unicode_len();
    let keep = if n > 100 {
        100
    } else {
        n
    };
    let prefix = sanitized.substring_char(0, keep);
    let hex = hex_encode(digest);
    let short = hex.as_str().substring_char(0, 16);
    let mut name = String::new();
    name.append(prefix);
    push_char(&mut name, '_');
    name.append(short);
    name.append(".json");
    name
}

/// The cache file name for a request URL: a readable part made safe for
/// file names, then the first 16 hex digits of the SHA-256 of the URL.
pub fn cache_file_name(url: &str) -> (r: Result<String, WeatherError>)
    ensures
        match r {
            Ok(name) => url_accepts(url@) && exists|s: Seq<char>|
                file_name_safe(s) && name@ == cache_name(s, sha256_of(encode_utf8(url@))),
            Err(e) => !url_accepts(url@) && e is InvalidUrl && e->InvalidUrl_0@ == url@,
        },
{
    let parsed = match parse_url(url) {
        Ok(parsed) => parsed,
        Err(_) => {
            return Err(WeatherError::InvalidUrl(url.to_owned()));
        },
    };
    let base = readable_base_of(parsed.host_str(), parsed.path(), parsed.query());
    let sanitized = sanitize_file_name(base.as_str());
    let digest = sha256_digest(url.as_bytes());
    Ok(cache_file_name_from_parts(sanitized.as_str(), digest.as_slice()))
}

/// Equal cache names come from digests that agree on their first 8 bytes:
/// the readable parts, however they compare, cannot make two names equal.
pub proof fn lemma_names_differ_by_digest(s1: Seq<char>, d1: Seq<u8>, s2: Seq<char>, d2: Seq<u8>)
    requires
        d1.len() >= 8,
        d2.len() >= 8,
        d1.subrange(0, 8) != d2.subrange(0, 8),
    ensures
        cache_name(s1, d1) != cache_name(s2, d2),
{
    reveal_strlit(".json");
    let h1 = hex_lower(d1).subrange(0, 16);
    let h2 = hex_lower(d2).subrange(0, 16);
    if cache_name(s1, d1) == cache_name(s2, d2) {
        let n1 = cache_name(s1, d1);
        let n2 = cache_name(s2, d2);
        let l = n1.len();
        assert(n1.subrange(l - 21, l - 5) =~= h1);
        assert(n2.subrange(l - 21, l - 5) =~= h2);
        assert(h1 == h2);
        assert forall|k: int| 0 <= k < 8 implies d1[k] == d2[k] by {
            assert(h1[2 * k] == h2[2 * k]);
            assert(h1[2 * k + 1] == h2[2 * k + 1]);
            lemma_hex_digit_injective(d1[k] as int / 16, d2[k] as int / 16);
            lemma_hex_digit_injective(d1[k] as int % 16, d2[k] as int % 16);
        }
        assert(d1.subrange(0, 8) =~= d2.subrange(0, 8));
    }
}

/// Different values below 16 have different digits.
proof fn lemma_hex_digit_injective(a: int, b: int)
    requires
        0 <= a < 16,
        0 <= b < 16,
        hex_digit(a) == hex_digit(b),
    ensures
        a == b,
{
}

/// Two different URLs whose SHA-256 digests differ in their first 8 bytes get
/// different cache file names, whatever their readable parts are.
pub proof fn lemma_cache_names_differ(u1: Seq<u8>, u2: Seq<u8>, s1: Seq<char>, s2: Seq<char>)
    requires
        u1 != u2,
        sha256_of(u1).len() == 32,
        sha256_of(u2).len() == 32,
        sha256_of(u1).subrange(0, 8) != sha256_of(u2).subrange(0, 8),
    ensures
        cache_name(s1, sha256_of(u1)) != cache_name(s2, sha256_of(u2)),
{
    lemma_names_differ_by_digest(s1, sha256_of(u1), s2, sha256_of(u2));
}

} // verus!

verus! {

/// An entry modified at `modified` is fresh at `now`: it is not from the
/// future, and less than the time-to-live old.
pub open spec fn is_fresh_at(modified: int, now: int) -> bool {
    modified <= now && now - modified < CACHE_TTL_NANOS
}

/// Whether a cache entry last modified at `modified` (nanoseconds since the
/// Unix epoch) is fresh at `now`. An entry dated after `now` is stale.
pub fn is_fresh(modified: u128, now: u128) -> (r: bool)
    ensures
        r == is_fresh_at(modified as int, now as int),
{
    modified <= now && now - modified < CACHE_TTL_NANOS
}

/// An entry written at `t` is fresh at every `t2` from `t` on that comes
/// before `t + TTL`, and stale from `t + TTL` on.
pub proof fn lemma_fresh_until_ttl(t: int, t2: int)
    requires
        t <= t2,
    ensures
        is_fresh_at(t, t2) <==> t2 < t + CACHE_TTL_NANOS,
{
}

/// What looking for a URL's cache file found.
pub enum CacheLookup {
    /// No file.
    Missing,
    /// A file whose metadata or contents could not be read.
    Unreadable,
    /// A file, with its contents and its modification time.
    Found { body: String, modified: u128 },
}

/// What happened at the last step of a cached fetch.
pub enum FetchEvent {
    /// The cache was looked at, at time `now`.
    Looked { lookup: CacheLookup, now: u128 },
    /// The HTTP request ended: the body, or why it failed.
    Fetched(Result<String, WeatherError>),
    /// The fetched body was written to the cache, or writing failed.
    Stored { body: String, written: bool },
}

/// What to do next in a cached fetch.
pub enum FetchAction {
    /// Send the HTTP request.
    Request,
    /// Write this body to the cache file.
    Store(String),
    /// End the fetch with this result.
    Deliver(Result<String, WeatherError>),
}

/// The decision after each event: a fresh cache entry is delivered without a
/// request; a missing, unreadable or stale one leads to a request; a fetched
/// body is stored, and then delivered whether or not the write succeeded; a
/// failed request is delivered as its error.
pub open spec fn fetch_step(event: FetchEvent) -> FetchAction {
    match event {
        FetchEvent::Looked { lookup, now } => match lookup {
            CacheLookup::Found { body, modified } => if is_fresh_at(modified as int, now as int) {
                FetchAction::Deliver(Ok(body))
            } else {
                FetchAction::Request
            },
            _ => FetchAction::Request,
        },
        FetchEvent::Fetched(result) => match result {
            Ok(body) => FetchAction::Store(body),
            Err(e) => FetchAction::Deliver(Err(e)),
        },
        FetchEvent::Stored { body, written } => FetchAction::Deliver(Ok(body)),
    }
}

/// Decides the next step of a cached fetch.
pub fn next_fetch_action(event: FetchEvent) -> (r: FetchAction)
    ensures
        r == fetch_step(event),
{
    match event {
        FetchEvent::Looked { lookup, now } => match lookup {
            CacheLookup::Found { body, modified } => if is_fresh(modified, now) {
                FetchAction::Deliver(Ok(body))
            } else {
                FetchAction::Request
            },
            _ => FetchAction::Request,
        },
        FetchEvent::Fetched(result) => match result {
            Ok(body) => FetchAction::Store(body),
            Err(e) => FetchAction::Deliver(Err(e)),
        },
        FetchEvent::Stored { body, written: _ } => FetchAction::Deliver(Ok(body)),
    }
}

/// The number of HTTP requests a fetch makes when its cache lookup at `now`
/// finds `lookup`.
pub open spec fn requests_made(lookup: CacheLookup, now: u128) -> nat {
    if fetch_step(FetchEvent::Looked { lookup, now }) is Request {
        1
    } else {
        0
    }
}

/// A fetch that finds no fresh entry requests the URL and stores the body;
/// a second fetch of the same URL, while the stored entry is fresh, delivers
/// that body without a request. Two such fetches make one request at most,
/// and exactly one when the first finds the cache empty.
pub proof fn lemma_repeat_within_ttl_requests_once(
    first: CacheLookup,
    t1: u128,
    body: String,
    written_at: u128,
    t2: u128,
)
    requires
        t1 <= written_at <= t2,
        t2 < written_at + CACHE_TTL_NANOS,
    ensures
        fetch_step(FetchEvent::Fetched(Ok(body))) == FetchAction::Store(body),
        fetch_step(FetchEvent::Stored { body, written: true }) == FetchAction::Deliver(Ok(body)),
        fetch_step(FetchEvent::Looked { lookup: CacheLookup::Found { body, modified: written_at }, now: t2 })
            == FetchAction::Deliver(Ok(body)),
        requests_made(CacheLookup::Found { body, modified: written_at }, t2) == 0,
        requests_made(first, t1) + requests_made(
            CacheLookup::Found { body, modified: written_at },
            t2,
        ) <= 1,
        first is Missing ==> requests_made(first, t1) + requests_made(
            CacheLookup::Found { body, modified: written_at },
            t2,
        ) == 1,
{
}

} // verus!
