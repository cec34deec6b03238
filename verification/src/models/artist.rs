use vstd::prelude::*;

use crate::json::JsonValue;
use crate::models::images::Images;
use crate::models::song::Song;

verus! {

/// The canonical artist entity; `seokey` and `name` are required.
#[derive(Debug, Clone)]
pub struct Artist {
    pub seokey: String,
    pub artist_id: String,
    pub name: String,
    pub language: Option<String>,
    pub play_count: Option<String>,
    pub favorite_count: Option<i32>,
    pub artist_url: String,
    pub images: Option<Images>,
    pub top_tracks: Option<Vec<Song>>,
}

/// A raw upstream artist record, borrowed from the response tree.
pub struct GaanaArtist<'a> {
    pub seokey: Option<String>,
    pub artist_id: Option<&'a JsonValue>,
    pub name: Option<String>,
    pub language: Option<String>,
    pub play_ct: Option<String>,
    pub favorite_count: Option<&'a JsonValue>,
    pub artwork: Option<String>,
    pub artwork_large: Option<String>,
    pub artwork_web: Option<String>,
    pub gen_url: Option<String>,
}

} // verus!
