//! Canonical entities produced by the normalizer, and the raw upstream
//! shapes they are read from.

pub mod album;
pub mod artist;
pub mod error;
pub mod images;
pub mod playlist;
pub mod song;
pub mod stream_urls;
