//! Builds HTTP requests from declarative descriptions and normalises the
//! responses into a string-safe envelope.
pub mod error;
pub mod headers;
pub mod laws;
pub mod outside;
pub mod request;
pub mod response;
pub mod text;
