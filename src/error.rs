use vstd::prelude::*;

verus! {

/// What can go wrong while fetching or decoding weather data. Each variant
/// carries the URL, field name or message that explains it.
#[derive(Debug, Clone, PartialEq, Eq)]
pub enum WeatherError {
    /// The HTTP request failed or returned a non-success status.
    NetworkFailure(String),
    /// The cache directory or a cache file could not be used.
    CacheIoFailure(String),
    /// The body is not JSON, or lacks the expected `daily` structure.
    MalformedResponse(String),
    /// No known model is a suffix of this field name.
    UnresolvableFieldKey(String),
    /// A known model ends this field name but no `_` comes before it.
    MissingKeySeparator(String),
    /// The request URL could not be parsed.
    InvalidUrl(String),
}

} // verus!
