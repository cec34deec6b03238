//! Song search and lookup: URL construction and the decisions around the
//! transport layer's fetches.

use vstd::prelude::*;
use vstd::string::StrSliceExecFns;
use vstd::string::StringExecFns;
use vstd::string::StringSliceAdditionalSpecFns;

use crate::api::base::{
    extract_search_keys, first_song_in_response, songs_from_details, spec_batch_songs,
    spec_limit, spec_percent_encoded, spec_search_keys, spec_song_of_value,
    spec_track_yields_song, url_encode,
};
use crate::json::JsonValue;
use crate::models::error::ApiError;
use crate::models::song::Song;

verus! {

/// Parameters of a song search.
pub struct SearchSongsQuery {
    pub query: String,
    pub limit: Option<usize>,
}

/// Parameters of a single-song lookup.
pub struct SongInfoQuery {
    pub seokey: String,
}

/// What a song endpoint hands back: a list, a single record, or an error.
pub enum SongResponse {
    Songs(Vec<Song>),
    Song(Song),
    Error(ApiError),
}

/// The search URL for a song query.
pub fn search_songs_url(query: &str) -> (r: String)
    ensures
        r@ == "https://gaana.com/apiv2?country=IN&page=0&secType=track&type=search&keyword="@
            + spec_percent_encoded(query.spec_bytes()),
{
    let mut u = String::from_str(
        "https://gaana.com/apiv2?country=IN&page=0&secType=track&type=search&keyword=",
    );
    let enc = url_encode(query);
    u.append(enc.as_str());
    u
}

/// The detail URL for one track seokey.
pub fn song_detail_url(seokey: &str) -> (r: String)
    ensures
        r@ == "https://gaana.com/apiv2?type=songDetail&seokey="@ + spec_percent_encoded(
            seokey.spec_bytes(),
        ),
{
    let mut u = String::from_str("https://gaana.com/apiv2?type=songDetail&seokey=");
    let enc = url_encode(seokey);
    u.append(enc.as_str());
    u
}

/// Extract the track keys of a song search response, or report the terminal
/// "no results" outcome when none can be extracted.
pub fn search_songs_keys(response: &JsonValue, limit: Option<usize>) -> (r: Result<
    Vec<String>,
    ApiError,
>)
    ensures
        match r {
            Ok(keys) => keys.deep_view() == spec_search_keys(*response, spec_limit(limit, 10))
                && keys@.len() > 0,
            Err(e) => spec_search_keys(*response, spec_limit(limit, 10)).len() == 0 && e.error@
                == "No results found"@ && e.message@
                == "No search results for the given query: No songs found for the given query"@,
        },
{
    let lim: usize = match limit {
        Some(l) => l,
        None => 10,
    };
    let keys = extract_search_keys(response, lim);
    if keys.len() == 0 {
        proof {
            reveal_strlit("No search results for the given query: ");
            reveal_strlit("No songs found for the given query");
            reveal_strlit(
                "No search results for the given query: No songs found for the given query",
            );
            assert("No search results for the given query: "@ + "No songs found for the given query"@
                =~= "No search results for the given query: No songs found for the given query"@);
        }
        Err(ApiError::not_found("No songs found for the given query"))
    } else {
        Ok(keys)
    }
}

/// Assemble the per-key detail responses of a song search into the final
/// song list; the search fails only when zero songs were assembled.
pub fn assemble_songs(details: &Vec<Option<JsonValue>>) -> (r: Result<Vec<Song>, ApiError>)
    ensures
        match r {
            Ok(songs) => songs@.len() > 0 && spec_batch_songs(details@, songs@),
            Err(e) => spec_batch_songs(details@, Seq::<Song>::empty()) && e.error@
                == "No results found"@ && e.message@
                == "No search results for the given query: No valid song data found"@,
        },
{
    let songs = songs_from_details(details);
    if songs.len() == 0 {
        proof {
            assert(songs@ =~= Seq::<Song>::empty());
            reveal_strlit("No search results for the given query: ");
            reveal_strlit("No valid song data found");
            reveal_strlit("No search results for the given query: No valid song data found");
            assert("No search results for the given query: "@ + "No valid song data found"@
                =~= "No search results for the given query: No valid song data found"@);
        }
        Err(ApiError::not_found("No valid song data found"))
    } else {
        Ok(songs)
    }
}

/// The outcome of a single-song lookup on its classified detail response:
/// the first track of the `tracks` array, normalized, or the invalid-key
/// error — never a partially-populated song.
pub fn song_info_outcome(response: &JsonValue, seokey: &str) -> (r: Result<Song, ApiError>)
    ensures
        match r {
            Ok(song) => (match response.spec_get("tracks"@) {
                Some(JsonValue::Arr(items)) => items@.len() > 0 && spec_track_yields_song(
                    items@[0],
                ) && spec_song_of_value(items@[0], song),
                _ => false,
            }),
            Err(e) => {
                &&& (match response.spec_get("tracks"@) {
                    Some(JsonValue::Arr(items)) => items@.len() == 0 || !spec_track_yields_song(
                        items@[0],
                    ),
                    _ => true,
                })
                &&& e.error@ == "Invalid seokey"@
                &&& e.message@ == "The provided seokey is invalid or not found: "@ + seokey@
            },
        },
{
    match first_song_in_response(response) {
        Some(song) => Ok(song),
        None => Err(ApiError::invalid_seokey(seokey)),
    }
}

} // verus!
