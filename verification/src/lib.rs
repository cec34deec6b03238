//! Normalization and media-URL recovery core for a shape-inconsistent
//! upstream music-catalog API.
//!
//! The library turns the upstream's ambiguous JSON into canonical entities
//! (`Song`, `Album`, `Artist`, `Playlist`), recovers playable stream URLs
//! from encrypted tokens, and classifies raw upstream responses.  All logic
//! is verified; HTTP transport and routing live outside the library.

pub mod api;
pub mod client;
pub mod encryption;
pub mod formatting;
pub mod json;
pub mod models;
pub mod text;

pub use models::stream_urls::StreamUrls;
