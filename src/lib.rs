//! Precipitation data retrieval: a resolver for the API's `<measure>_<model>`
//! field names, a decoder for its columnar daily payload, and the decisions of
//! a time-limited disk cache for its responses.

pub mod error;
pub mod text;
pub mod models;
pub mod resolver;
pub mod json;
pub mod decode;
pub mod cache;
pub mod request;
pub mod geocoding;
pub mod precipitation;
