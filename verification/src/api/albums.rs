//! Album search and lookup.

use vstd::prelude::*;
use vstd::string::StrSliceExecFns;
use vstd::string::StringExecFns;
use vstd::string::StringSliceAdditionalSpecFns;

use crate::api::base::{
    extract_search_keys, process_gaana_album_response, spec_album_of_response,
    spec_album_response_ok, spec_limit, spec_percent_encoded, spec_search_keys, url_encode,
};
use crate::json::JsonValue;
use crate::models::album::Album;
use crate::models::error::ApiError;

verus! {

/// Parameters of an album search.
pub struct SearchAlbumsQuery {
    pub query: String,
    pub limit: Option<usize>,
}

/// Parameters of a single-album lookup.
pub struct AlbumInfoQuery {
    pub seokey: String,
}

/// What an album endpoint hands back: a list, a single record, or an error.
pub enum AlbumResponse {
    Albums(Vec<Album>),
    Album(Album),
    Error(ApiError),
}

/// The search URL for an album query.
pub fn search_albums_url(query: &str) -> (r: String)
    ensures
        r@ == "https://gaana.com/apiv2?country=IN&page=0&secType=album&type=search&keyword="@
            + spec_percent_encoded(query.spec_bytes()),
{
    let mut u = String::from_str(
        "https://gaana.com/apiv2?country=IN&page=0&secType=album&type=search&keyword=",
    );
    let enc = url_encode(query);
    u.append(enc.as_str());
    u
}

/// The detail URL for one album seokey.
pub fn album_detail_url(seokey: &str) -> (r: String)
    ensures
        r@ == "https://gaana.com/apiv2?type=albumDetail&seokey="@ + spec_percent_encoded(
            seokey.spec_bytes(),
        ),
{
    let mut u = String::from_str("https://gaana.com/apiv2?type=albumDetail&seokey=");
    let enc = url_encode(seokey);
    u.append(enc.as_str());
    u
}

/// Extract the album keys of an album search response, or report the
/// terminal "no results" outcome when none can be extracted.
pub fn search_albums_keys(response: &JsonValue, limit: Option<usize>) -> (r: Result<
    Vec<String>,
    ApiError,
>)
    ensures
        match r {
            Ok(keys) => keys.deep_view() == spec_search_keys(*response, spec_limit(limit, 10))
                && keys@.len() > 0,
            Err(e) => spec_search_keys(*response, spec_limit(limit, 10)).len() == 0 && e.error@
                == "No results found"@ && e.message@
                == "No search results for the given query: No albums found for the given query"@,
        },
{
    let lim: usize = match limit {
        Some(l) => l,
        None => 10,
    };
    let keys = extract_search_keys(response, lim);
    if keys.len() == 0 {
        proof {
            reveal_strlit("No search results for the given query: ");
            reveal_strlit("No albums found for the given query");
            reveal_strlit(
                "No search results for the given query: No albums found for the given query",
            );
            assert("No search results for the given query: "@
                + "No albums found for the given query"@
                =~= "No search results for the given query: No albums found for the given query"@);
        }
        Err(ApiError::not_found("No albums found for the given query"))
    } else {
        Ok(keys)
    }
}

/// How a batch of per-key album detail responses assembles into the album
/// list: each usable response contributes its album in order; a failed
/// fetch or an unusable record is skipped.  Search results never expand
/// tracks.
pub open spec fn spec_batch_albums(details: Seq<Option<JsonValue>>, albums: Seq<Album>) -> bool
    decreases details.len(),
{
    if details.len() == 0 {
        albums.len() == 0
    } else {
        let contributes = match details.last() {
            Some(v) => spec_album_response_ok(v),
            None => false,
        };
        if contributes {
            albums.len() > 0 && spec_album_of_response(details.last()->0, false, albums.last())
                && spec_batch_albums(details.take(details.len() - 1), albums.take(albums.len() - 1))
        } else {
            spec_batch_albums(details.take(details.len() - 1), albums)
        }
    }
}

/// Normalize a batch of album detail responses, in batch order.
pub fn albums_from_details(details: &Vec<Option<JsonValue>>) -> (r: Vec<Album>)
    ensures
        spec_batch_albums(details@, r@),
{
    let mut albums: Vec<Album> = Vec::new();
    let mut i: usize = 0;
    proof {
        assert(details@.take(0) =~= Seq::<Option<JsonValue>>::empty());
    }
    while i < details.len()
        invariant
            i <= details@.len(),
            spec_batch_albums(details@.take(i as int), albums@),
        decreases details@.len() - i,
    {
        let ghost pre = albums@;
        match &details[i] {
            Some(response) => {
                match process_gaana_album_response(response, false) {
                    Some(album) => albums.push(album),
                    None => {},
                }
            },
            None => {},
        }
        proof {
            let d1 = details@.take(i + 1);
            assert(d1.take(i as int) =~= details@.take(i as int));
            assert(d1.last() == details@[i as int]);
            if albums@.len() > pre.len() {
                assert(albums@.take(albums@.len() - 1) =~= pre);
            }
        }
        i = i + 1;
    }
    proof {
        assert(details@.take(details@.len() as int) =~= details@);
    }
    albums
}

/// Assemble the album search's detail responses; the search fails only
/// when zero albums were assembled.
pub fn assemble_albums(details: &Vec<Option<JsonValue>>) -> (r: Result<Vec<Album>, ApiError>)
    ensures
        match r {
            Ok(albums) => albums@.len() > 0 && spec_batch_albums(details@, albums@),
            Err(e) => spec_batch_albums(details@, Seq::<Album>::empty()) && e.error@
                == "No results found"@ && e.message@
                == "No search results for the given query: No valid album data found"@,
        },
{
    let albums = albums_from_details(details);
    if albums.len() == 0 {
        proof {
            assert(albums@ =~= Seq::<Album>::empty());
            reveal_strlit("No search results for the given query: ");
            reveal_strlit("No valid album data found");
            reveal_strlit("No search results for the given query: No valid album data found");
            assert("No search results for the given query: "@ + "No valid album data found"@
                =~= "No search results for the given query: No valid album data found"@);
        }
        Err(ApiError::not_found("No valid album data found"))
    } else {
        Ok(albums)
    }
}

/// The outcome of a single-album lookup: the album with its track list
/// expanded, or the invalid-key error.
pub fn album_info_outcome(response: &JsonValue, seokey: &str) -> (r: Result<Album, ApiError>)
    ensures
        match r {
            Ok(album) => spec_album_response_ok(*response) && spec_album_of_response(
                *response,
                true,
                album,
            ),
            Err(e) => !spec_album_response_ok(*response) && e.error@ == "Invalid seokey"@
                && e.message@ == "The provided seokey is invalid or not found: "@ + seokey@,
        },
{
    match process_gaana_album_response(response, true) {
        Some(album) => Ok(album),
        None => Err(ApiError::invalid_seokey(seokey)),
    }
}

} // verus!
