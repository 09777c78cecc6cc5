//! Typed mappings for a document-oriented search backend, and the request that
//! installs them.

pub mod error;
pub mod json;
pub mod mapping;
pub mod text;
pub mod document;
pub mod client;
pub mod response;
