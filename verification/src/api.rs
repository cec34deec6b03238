//! Entity normalization and the per-endpoint decision logic that the
//! transport layer drives.

pub mod albums;
pub mod charts;
pub mod newreleases;
pub mod artists;
pub mod base;
pub mod playlists;
pub mod songs;
pub mod trending;
