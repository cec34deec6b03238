use vstd::prelude::*;

use crate::json::JsonValue;
use crate::models::images::Images;
use crate::models::stream_urls::StreamUrls;

verus! {

/// The canonical song entity.  `seokey` and `title` are required: a track
/// record lacking either is discarded, never returned partially filled.
/// `artists`, `artist_seokeys` and `artist_ids` are parallel comma-joined
/// lists in upstream order.
#[derive(Debug, Clone)]
pub struct Song {
    pub seokey: String,
    pub album_seokey: Option<String>,
    pub track_id: String,
    pub title: String,
    pub artists: String,
    pub artist_seokeys: String,
    pub artist_ids: String,
    pub artist_image: Option<String>,
    pub album: Option<String>,
    pub album_id: Option<String>,
    pub duration: Option<String>,
    pub popularity: Option<String>,
    pub genres: Option<String>,
    pub is_explicit: Option<i32>,
    pub language: Option<String>,
    pub label: Option<String>,
    pub release_date: Option<String>,
    pub play_count: Option<String>,
    pub favorite_count: Option<i32>,
    pub song_url: String,
    pub album_url: Option<String>,
    pub images: Option<Images>,
    pub stream_urls: Option<StreamUrls>,
}

/// A raw upstream track as one detail response carries it: typed views of
/// the fields the normalizer reads, borrowed from the response tree.
/// Upstream names differ from the field names where noted.
pub struct GaanaTrack<'a> {
    pub seokey: Option<String>,
    /// Upstream `albumseokey`.
    pub album_seokey: Option<String>,
    pub track_id: Option<&'a JsonValue>,
    /// Upstream `track_title`.
    pub title: Option<String>,
    pub artist: Option<&'a JsonValue>,
    pub artist_detail: Option<&'a Vec<JsonValue>>,
    pub album_title: Option<String>,
    pub album_id: Option<&'a JsonValue>,
    pub duration: Option<String>,
    pub popularity: Option<String>,
    /// Upstream `gener`.
    pub genre: Option<&'a JsonValue>,
    /// Upstream `parental_warning`.
    pub explicit_content: Option<&'a JsonValue>,
    pub language: Option<String>,
    /// Upstream `vendor_name`.
    pub label: Option<String>,
    pub release_date: Option<String>,
    pub play_ct: Option<String>,
    /// Upstream `total_favourite_count`.
    pub favorite_count: Option<&'a JsonValue>,
    pub artwork: Option<String>,
    pub artwork_large: Option<String>,
    pub artwork_web: Option<String>,
    pub gen_url: Option<String>,
    pub album_url: Option<String>,
    pub urls: Option<GaanaStreamUrls>,
}

/// The raw per-quality delivery block of a track.
pub struct GaanaStreamUrls {
    pub medium: Option<GaanaStreamUrlQuality>,
    pub high: Option<GaanaStreamUrlQuality>,
    pub low: Option<GaanaStreamUrlQuality>,
}

/// One quality tier's delivery field; `message` is the encrypted token.
pub struct GaanaStreamUrlQuality {
    pub message: Option<String>,
}

} // verus!
