use vstd::prelude::*;

use crate::json::JsonValue;
use crate::models::images::Images;
use crate::models::song::Song;

verus! {

/// The canonical playlist entity; `seokey` and `title` are required.
#[derive(Debug, Clone)]
pub struct Playlist {
    pub seokey: String,
    pub playlist_id: String,
    pub title: String,
    pub description: Option<String>,
    pub language: Option<String>,
    pub play_count: Option<String>,
    pub favorite_count: Option<i32>,
    pub playlist_url: String,
    pub images: Option<Images>,
    pub total_tracks: Option<i32>,
    pub tracks: Option<Vec<Song>>,
}

/// A raw upstream playlist record, borrowed from the response tree.
pub struct GaanaPlaylist<'a> {
    pub seokey: Option<String>,
    pub playlist_id: Option<&'a JsonValue>,
    pub title: Option<String>,
    pub description: Option<String>,
    pub language: Option<String>,
    pub play_ct: Option<String>,
    pub favorite_count: Option<&'a JsonValue>,
    pub artwork: Option<String>,
    pub artwork_large: Option<String>,
    pub artwork_web: Option<String>,
    pub gen_url: Option<String>,
    pub total_tracks: Option<&'a JsonValue>,
}

/// The raw charts response: a list of chart entities.
pub struct GaanaChartsResponse<'a> {
    pub entities: Option<Vec<GaanaChartEntity<'a>>>,
}

/// One raw chart entity, borrowed from the response tree.
pub struct GaanaChartEntity<'a> {
    pub seokey: Option<String>,
    pub entity_id: Option<&'a JsonValue>,
    pub name: Option<String>,
    pub language: Option<String>,
    pub favorite_count: Option<&'a JsonValue>,
    pub entity_info: Option<Vec<GaanaEntityInfo<'a>>>,
    /// The artwork URL.
    pub atwj: Option<String>,
}

/// One entry of a chart entity's `entity_info` list.
pub struct GaanaEntityInfo<'a> {
    pub value: Option<&'a JsonValue>,
}

} // verus!
