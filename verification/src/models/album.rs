use vstd::prelude::*;

use crate::json::JsonValue;
use crate::models::images::Images;
use crate::models::song::Song;

verus! {

/// The canonical album entity; `seokey` and `title` are required.  `tracks`
/// is populated only when the caller requests detail expansion.
#[derive(Debug, Clone)]
pub struct Album {
    pub seokey: String,
    pub album_id: String,
    pub title: String,
    pub artists: String,
    pub artist_seokeys: String,
    pub artist_ids: String,
    pub language: Option<String>,
    pub label: Option<String>,
    pub release_date: Option<String>,
    pub play_count: Option<String>,
    pub favorite_count: Option<i32>,
    pub album_url: String,
    pub images: Option<Images>,
    pub total_tracks: Option<i32>,
    pub tracks: Option<Vec<Song>>,
}

/// A raw upstream album record, borrowed from the response tree.
pub struct GaanaAlbum<'a> {
    pub seokey: Option<String>,
    pub album_id: Option<&'a JsonValue>,
    pub title: Option<String>,
    pub artist: Option<&'a JsonValue>,
    pub language: Option<String>,
    pub label: Option<String>,
    pub release_date: Option<String>,
    pub play_ct: Option<String>,
    pub favorite_count: Option<&'a JsonValue>,
    pub artwork: Option<String>,
    pub artwork_large: Option<String>,
    pub artwork_web: Option<String>,
    pub gen_url: Option<String>,
    pub total_tracks: Option<&'a JsonValue>,
}

} // verus!
