//! Trending songs: an entity list of track seokeys, each then looked up in
//! detail.

use vstd::prelude::*;
use vstd::string::StringExecFns;

use crate::api::base::{
    extract_entity_keys, songs_from_details, spec_batch_songs, spec_entity_keys, spec_limit,
};
use crate::json::JsonValue;
use crate::models::error::ApiError;
use crate::models::song::Song;

verus! {

/// Parameters of a trending listing.
pub struct TrendingQuery {
    pub language: Option<String>,
    pub limit: Option<usize>,
}

/// What the trending endpoint hands back.
pub enum TrendingResponse {
    Songs(Vec<Song>),
    Error(ApiError),
}

/// The trending listing URL.  The language rides in a cookie, not here.
pub fn trending_url() -> (r: String)
    ensures
        r@ == "https://gaana.com/apiv2?type=miscTrendingSongs"@,
{
    String::from_str("https://gaana.com/apiv2?type=miscTrendingSongs")
}

/// Extract the trending track keys, at most `limit` of them (twenty when
/// unspecified), or report that nothing is trending.
pub fn extract_trending_keys(response: &JsonValue, limit: Option<usize>) -> (r: Result<
    Vec<String>,
    ApiError,
>)
    ensures
        match r {
            Ok(keys) => keys.deep_view() == spec_entity_keys(*response, spec_limit(limit, 20))
                && keys@.len() > 0,
            Err(e) => spec_entity_keys(*response, spec_limit(limit, 20)).len() == 0 && e.error@
                == "No results found"@ && e.message@
                == "No search results for the given query: No trending songs found"@,
        },
{
    let lim: usize = match limit {
        Some(l) => l,
        None => 20,
    };
    let keys = extract_entity_keys(response, lim);
    if keys.len() == 0 {
        proof {
            reveal_strlit("No search results for the given query: ");
            reveal_strlit("No trending songs found");
            reveal_strlit("No search results for the given query: No trending songs found");
            assert("No search results for the given query: "@ + "No trending songs found"@
                =~= "No search results for the given query: No trending songs found"@);
        }
        Err(ApiError::not_found("No trending songs found"))
    } else {
        Ok(keys)
    }
}

/// Assemble the trending tracks' detail responses; the listing fails only
/// when zero songs were assembled.
pub fn assemble_trending_songs(details: &Vec<Option<JsonValue>>) -> (r: Result<Vec<Song>, ApiError>)
    ensures
        match r {
            Ok(songs) => songs@.len() > 0 && spec_batch_songs(details@, songs@),
            Err(e) => spec_batch_songs(details@, Seq::<Song>::empty()) && e.error@
                == "No results found"@ && e.message@
                == "No search results for the given query: No valid trending song data found"@,
        },
{
    let songs = songs_from_details(details);
    if songs.len() == 0 {
        proof {
            assert(songs@ =~= Seq::<Song>::empty());
            reveal_strlit("No search results for the given query: ");
            reveal_strlit("No valid trending song data found");
            reveal_strlit(
                "No search results for the given query: No valid trending song data found",
            );
            assert("No search results for the given query: "@
                + "No valid trending song data found"@
                =~= "No search results for the given query: No valid trending song data found"@);
        }
        Err(ApiError::not_found("No valid trending song data found"))
    } else {
        Ok(songs)
    }
}

} // verus!
