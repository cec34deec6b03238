//! Artist search and lookup.

use vstd::prelude::*;
use vstd::string::StrSliceExecFns;
use vstd::string::StringExecFns;
use vstd::string::StringSliceAdditionalSpecFns;

use crate::api::base::{
    extract_search_keys, process_gaana_artist_response, spec_artist_of_response,
    spec_artist_response_ok, spec_limit, spec_percent_encoded, spec_search_keys, url_encode,
};
use crate::json::JsonValue;
use crate::models::artist::Artist;
use crate::models::error::ApiError;

verus! {

/// Parameters of an artist search.
pub struct SearchArtistsQuery {
    pub query: String,
    pub limit: Option<usize>,
}

/// Parameters of a single-artist lookup.
pub struct ArtistInfoQuery {
    pub seokey: String,
}

/// What an artist endpoint hands back: a list, a single record, or an error.
pub enum ArtistResponse {
    Artists(Vec<Artist>),
    Artist(Artist),
    Error(ApiError),
}

/// The search URL for an artist query.
pub fn search_artists_url(query: &str) -> (r: String)
    ensures
        r@ == "https://gaana.com/apiv2?country=IN&page=0&secType=artist&type=search&keyword="@
            + spec_percent_encoded(query.spec_bytes()),
{
    let mut u = String::from_str(
        "https://gaana.com/apiv2?country=IN&page=0&secType=artist&type=search&keyword=",
    );
    let enc = url_encode(query);
    u.append(enc.as_str());
    u
}

/// The detail URL for one artist seokey.
pub fn artist_detail_url(seokey: &str) -> (r: String)
    ensures
        r@ == "https://gaana.com/apiv2?type=artistDetail&seokey="@ + spec_percent_encoded(
            seokey.spec_bytes(),
        ),
{
    let mut u = String::from_str("https://gaana.com/apiv2?type=artistDetail&seokey=");
    let enc = url_encode(seokey);
    u.append(enc.as_str());
    u
}

/// Extract the artist keys of an artist search response, or report the
/// terminal "no results" outcome when none can be extracted.
pub fn search_artists_keys(response: &JsonValue, limit: Option<usize>) -> (r: Result<
    Vec<String>,
    ApiError,
>)
    ensures
        match r {
            Ok(keys) => keys.deep_view() == spec_search_keys(*response, spec_limit(limit, 10))
                && keys@.len() > 0,
            Err(e) => spec_search_keys(*response, spec_limit(limit, 10)).len() == 0 && e.error@
                == "No results found"@ && e.message@
                == "No search results for the given query: No artists found for the given query"@,
        },
{
    let lim: usize = match limit {
        Some(l) => l,
        None => 10,
    };
    let keys = extract_search_keys(response, lim);
    if keys.len() == 0 {
        proof {
            reveal_strlit("No search results for the given query: ");
            reveal_strlit("No artists found for the given query");
            reveal_strlit(
                "No search results for the given query: No artists found for the given query",
            );
            assert("No search results for the given query: "@
                + "No artists found for the given query"@
                =~= "No search results for the given query: No artists found for the given query"@);
        }
        Err(ApiError::not_found("No artists found for the given query"))
    } else {
        Ok(keys)
    }
}

/// How a batch of per-key artist detail responses assembles into the artist
/// list, in batch order, skipping failed fetches and unusable records.
pub open spec fn spec_batch_artists(details: Seq<Option<JsonValue>>, artists: Seq<Artist>) -> bool
    decreases details.len(),
{
    if details.len() == 0 {
        artists.len() == 0
    } else {
        let contributes = match details.last() {
            Some(v) => spec_artist_response_ok(v),
            None => false,
        };
        if contributes {
            artists.len() > 0 && spec_artist_of_response(details.last()->0, artists.last())
                && spec_batch_artists(
                details.take(details.len() - 1),
                artists.take(artists.len() - 1),
            )
        } else {
            spec_batch_artists(details.take(details.len() - 1), artists)
        }
    }
}

/// Normalize a batch of artist detail responses, in batch order.
pub fn artists_from_details(details: &Vec<Option<JsonValue>>) -> (r: Vec<Artist>)
    ensures
        spec_batch_artists(details@, r@),
{
    let mut artists: Vec<Artist> = Vec::new();
    let mut i: usize = 0;
    proof {
        assert(details@.take(0) =~= Seq::<Option<JsonValue>>::empty());
    }
    while i < details.len()
        invariant
            i <= details@.len(),
            spec_batch_artists(details@.take(i as int), artists@),
        decreases details@.len() - i,
    {
        let ghost pre = artists@;
        match &details[i] {
            Some(response) => {
                match process_gaana_artist_response(response, false) {
                    Some(artist) => artists.push(artist),
                    None => {},
                }
            },
            None => {},
        }
        proof {
            let d1 = details@.take(i + 1);
            assert(d1.take(i as int) =~= details@.take(i as int));
            assert(d1.last() == details@[i as int]);
            if artists@.len() > pre.len() {
                assert(artists@.take(artists@.len() - 1) =~= pre);
            }
        }
        i = i + 1;
    }
    proof {
        assert(details@.take(details@.len() as int) =~= details@);
    }
    artists
}

/// Assemble the artist search's detail responses; the search fails only
/// when zero artists were assembled.
pub fn assemble_artists(details: &Vec<Option<JsonValue>>) -> (r: Result<Vec<Artist>, ApiError>)
    ensures
        match r {
            Ok(artists) => artists@.len() > 0 && spec_batch_artists(details@, artists@),
            Err(e) => spec_batch_artists(details@, Seq::<Artist>::empty()) && e.error@
                == "No results found"@ && e.message@
                == "No search results for the given query: No valid artist data found"@,
        },
{
    let artists = artists_from_details(details);
    if artists.len() == 0 {
        proof {
            assert(artists@ =~= Seq::<Artist>::empty());
            reveal_strlit("No search results for the given query: ");
            reveal_strlit("No valid artist data found");
            reveal_strlit("No search results for the given query: No valid artist data found");
            assert("No search results for the given query: "@ + "No valid artist data found"@
                =~= "No search results for the given query: No valid artist data found"@);
        }
        Err(ApiError::not_found("No valid artist data found"))
    } else {
        Ok(artists)
    }
}

/// The outcome of a single-artist lookup.
pub fn artist_info_outcome(response: &JsonValue, seokey: &str) -> (r: Result<Artist, ApiError>)
    ensures
        match r {
            Ok(artist) => spec_artist_response_ok(*response) && spec_artist_of_response(
                *response,
                artist,
            ),
            Err(e) => !spec_artist_response_ok(*response) && e.error@ == "Invalid seokey"@
                && e.message@ == "The provided seokey is invalid or not found: "@ + seokey@,
        },
{
    match process_gaana_artist_response(response, true) {
        Some(artist) => Ok(artist),
        None => Err(ApiError::invalid_seokey(seokey)),
    }
}

} // verus!
