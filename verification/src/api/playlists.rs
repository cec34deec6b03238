//! Playlist lookup: a playlist detail response lists track seokeys; each
//! track is then looked up individually and only the first record of each
//! detail response counts.

use vstd::prelude::*;
use vstd::string::StrSliceExecFns;
use vstd::string::StringExecFns;
use vstd::string::StringSliceAdditionalSpecFns;

use crate::api::base::{
    first_song_in_response, spec_percent_encoded, spec_song_of_value, spec_track_yields_song,
    url_encode,
};
use crate::formatting::spec_str_fields;
use crate::json::JsonValue;
use crate::models::error::ApiError;
use crate::models::song::Song;

verus! {

/// Parameters of a playlist lookup.
pub struct PlaylistInfoQuery {
    pub seokey: String,
}

/// The detail URL for one playlist seokey.
pub fn playlist_detail_url(seokey: &str) -> (r: String)
    ensures
        r@ == "https://gaana.com/apiv2?type=playlistDetail&seokey="@ + spec_percent_encoded(
            seokey.spec_bytes(),
        ),
{
    let mut u = String::from_str("https://gaana.com/apiv2?type=playlistDetail&seokey=");
    let enc = url_encode(seokey);
    u.append(enc.as_str());
    u
}

/// The seokeys of every track of a playlist detail response, in order,
/// without a cap.
pub open spec fn spec_playlist_track_keys(response: JsonValue) -> Seq<Seq<char>> {
    match response.spec_get("tracks"@) {
        Some(JsonValue::Arr(items)) => spec_str_fields(items@, "seokey"@),
        _ => Seq::empty(),
    }
}

/// Extract every track seokey of a playlist detail response, or report the
/// playlist as without tracks.
pub fn playlist_track_keys(response: &JsonValue, seokey: &str) -> (r: Result<Vec<String>, ApiError>)
    ensures
        match r {
            Ok(keys) => keys.deep_view() == spec_playlist_track_keys(*response) && keys@.len() > 0,
            Err(e) => spec_playlist_track_keys(*response).len() == 0 && e.error@
                == "No results found"@ && e.message@
                == "No search results for the given query: No tracks found for playlist '"@
                + seokey@ + "'"@,
        },
{
    let empty: Vec<String> = Vec::new();
    proof {
        assert(empty.deep_view() =~= Seq::<Seq<char>>::empty());
    }
    let keys = match response.get("tracks") {
        Some(JsonValue::Arr(items)) => crate::formatting::collect_str_fields(items, "seokey"),
        _ => empty,
    };
    if keys.len() == 0 {
        let mut q = String::from_str("No tracks found for playlist '");
        q.append(seokey);
        q.append("'");
        let e = ApiError::not_found(q.as_str());
        proof {
            assert("No search results for the given query: "@ + ("No tracks found for playlist '"@
                + seokey@ + "'"@) =~= "No search results for the given query: No tracks found for playlist '"@
                + seokey@ + "'"@) by {
                reveal_strlit("No search results for the given query: ");
                reveal_strlit("No tracks found for playlist '");
                reveal_strlit("No search results for the given query: No tracks found for playlist '");
                reveal_strlit("'");
            }
        }
        Err(e)
    } else {
        Ok(keys)
    }
}

/// How the per-track detail responses of a playlist assemble into its song
/// list: only the first record of each response counts, failed fetches and
/// unusable records are skipped.
pub open spec fn spec_batch_first_songs(details: Seq<Option<JsonValue>>, songs: Seq<Song>) -> bool
    decreases details.len(),
{
    if details.len() == 0 {
        songs.len() == 0
    } else {
        let contributes = match details.last() {
            Some(v) => match v.spec_get("tracks"@) {
                Some(JsonValue::Arr(items)) => items@.len() > 0 && spec_track_yields_song(
                    items@[0],
                ),
                _ => false,
            },
            None => false,
        };
        if contributes {
            songs.len() > 0 && spec_song_of_value(
                (details.last()->0).spec_get("tracks"@)->0->Arr_0@[0],
                songs.last(),
            ) && spec_batch_first_songs(
                details.take(details.len() - 1),
                songs.take(songs.len() - 1),
            )
        } else {
            spec_batch_first_songs(details.take(details.len() - 1), songs)
        }
    }
}

/// Normalize the first song of each track detail response, in batch order.
pub fn first_songs_from_details(details: &Vec<Option<JsonValue>>) -> (r: Vec<Song>)
    ensures
        spec_batch_first_songs(details@, r@),
{
    let mut songs: Vec<Song> = Vec::new();
    let mut i: usize = 0;
    proof {
        assert(details@.take(0) =~= Seq::<Option<JsonValue>>::empty());
    }
    while i < details.len()
        invariant
            i <= details@.len(),
            spec_batch_first_songs(details@.take(i as int), songs@),
        decreases details@.len() - i,
    {
        let ghost pre = songs@;
        match &details[i] {
            Some(response) => {
                match first_song_in_response(response) {
                    Some(song) => songs.push(song),
                    None => {},
                }
            },
            None => {},
        }
        proof {
            let d1 = details@.take(i + 1);
            assert(d1.take(i as int) =~= details@.take(i as int));
            assert(d1.last() == details@[i as int]);
            if songs@.len() > pre.len() {
                assert(songs@.take(songs@.len() - 1) =~= pre);
            }
        }
        i = i + 1;
    }
    proof {
        assert(details@.take(details@.len() as int) =~= details@);
    }
    songs
}

/// Assemble the playlist's track detail responses; the lookup fails only
/// when zero songs were assembled.
pub fn assemble_playlist_songs(details: &Vec<Option<JsonValue>>, seokey: &str) -> (r: Result<
    Vec<Song>,
    ApiError,
>)
    ensures
        match r {
            Ok(songs) => songs@.len() > 0 && spec_batch_first_songs(details@, songs@),
            Err(e) => spec_batch_first_songs(details@, Seq::<Song>::empty()) && e.error@
                == "No results found"@ && e.message@
                == "No search results for the given query: No valid song data found for playlist '"@
                + seokey@ + "'"@,
        },
{
    let songs = first_songs_from_details(details);
    if songs.len() == 0 {
        proof {
            assert(songs@ =~= Seq::<Song>::empty());
        }
        let mut q = String::from_str("No valid song data found for playlist '");
        q.append(seokey);
        q.append("'");
        let e = ApiError::not_found(q.as_str());
        proof {
            assert("No search results for the given query: "@
                + ("No valid song data found for playlist '"@ + seokey@ + "'"@)
                =~= "No search results for the given query: No valid song data found for playlist '"@
                + seokey@ + "'"@) by {
                reveal_strlit("No search results for the given query: ");
                reveal_strlit("No valid song data found for playlist '");
                reveal_strlit(
                    "No search results for the given query: No valid song data found for playlist '",
                );
                reveal_strlit("'");
            }
        }
        Err(e)
    } else {
        Ok(songs)
    }
}

} // verus!
