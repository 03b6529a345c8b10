//! Client-side logic for a real-time session/track signaling HTTP API.
//!
//! The library builds the requests (URLs, JSON bodies, validation) and
//! interprets the responses (status handling, JSON parsing); the HTTP
//! transport itself lives outside the library.

pub mod schema;
pub mod wire;
pub mod text;
pub mod json;
pub mod parse;
pub mod client;
pub mod laws;


