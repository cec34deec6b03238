//! New releases: an entity list mixing tracks and albums, keyed by an
//! `entity_type` discriminator, each then looked up in detail.

use vstd::prelude::*;
use vstd::string::StrSliceExecFns;
use vstd::string::StringExecFns;
use vstd::string::StringSliceAdditionalSpecFns;

use crate::api::albums::{albums_from_details, spec_batch_albums};
use crate::api::base::{songs_from_details, spec_batch_songs, spec_limit, spec_percent_encoded, url_encode};
use crate::formatting::{spec_valid_language, validate_language};
use crate::json::JsonValue;
use crate::models::album::Album;
use crate::models::error::ApiError;
use crate::models::song::Song;
use crate::text::str_eq;

verus! {

/// Parameters of a new-releases listing.
pub struct NewReleasesQuery {
    pub language: Option<String>,
    pub limit: Option<usize>,
}

/// What the new-releases endpoint hands back: the new songs and the new
/// albums.  Either list may be empty, but the assembled outcome is never
/// both empty: that is the "no results" failure.
#[derive(Debug)]
pub struct NewReleasesResponse {
    pub songs: Vec<Song>,
    pub albums: Vec<Album>,
}

/// The language the listing is fetched for: the validated parameter, or the
/// default when none was given.
pub fn new_releases_language(language: Option<&str>) -> (r: String)
    ensures
        r@ == (match language {
            Some(l) => if spec_valid_language(l@) {
                l@
            } else {
                "Hindi"@
            },
            None => "Hindi"@,
        }),
{
    match language {
        Some(l) => validate_language(l),
        None => String::from_str("Hindi"),
    }
}

/// The new-releases listing URL for a validated language.
pub fn new_releases_url(language: &str) -> (r: String)
    ensures
        r@ == "https://gaana.com/apiv2?page=0&type=miscNewRelease&language="@
            + spec_percent_encoded(language.spec_bytes()),
{
    let mut u = String::from_str("https://gaana.com/apiv2?page=0&type=miscNewRelease&language=");
    let enc = url_encode(language);
    u.append(enc.as_str());
    u
}

/// The seokeys of the entities of one kind (`TR` tracks, `AL` albums) among
/// `items`: those whose `entity_type` and `seokey` both hold strings and
/// whose type matches, in order.
pub open spec fn spec_typed_keys(items: Seq<JsonValue>, kind: Seq<char>) -> Seq<Seq<char>>
    decreases items.len(),
{
    if items.len() == 0 {
        Seq::empty()
    } else {
        let rest = spec_typed_keys(items.skip(1), kind);
        match (items[0].spec_str_field("entity_type"@), items[0].spec_str_field("seokey"@)) {
            (Some(t), Some(k)) => if t == kind {
                seq![k] + rest
            } else {
                rest
            },
            _ => rest,
        }
    }
}

/// The track and album keys of a new-releases response, scanning at most
/// `limit` entities.
pub open spec fn spec_release_keys(response: JsonValue, limit: int) -> (
    Seq<Seq<char>>,
    Seq<Seq<char>>,
) {
    match response.spec_get("entities"@) {
        Some(JsonValue::Arr(items)) => {
            let taken = items@.take(vstd::math::min(limit, items@.len() as int));
            (spec_typed_keys(taken, "TR"@), spec_typed_keys(taken, "AL"@))
        },
        _ => (Seq::empty(), Seq::empty()),
    }
}

/// Extract the track and album seokeys of a new-releases response from its
/// first `limit` entities (ten when unspecified), preserving order.
pub fn extract_release_keys(response: &JsonValue, limit: Option<usize>) -> (r: (
    Vec<String>,
    Vec<String>,
))
    ensures
        r.0.deep_view() == spec_release_keys(*response, spec_limit(limit, 10)).0,
        r.1.deep_view() == spec_release_keys(*response, spec_limit(limit, 10)).1,
{
    let lim: usize = match limit {
        Some(l) => l,
        None => 10,
    };
    let mut track_keys: Vec<String> = Vec::new();
    let mut album_keys: Vec<String> = Vec::new();
    match response.get("entities") {
        Some(JsonValue::Arr(items)) => {
            let m: usize = if lim < items.len() {
                lim
            } else {
                items.len()
            };
            let ghost taken = items@.take(m as int);
            let mut i: usize = 0;
            proof {
                assert(taken.skip(0) =~= taken);
                assert(track_keys.deep_view() + spec_typed_keys(taken, "TR"@) =~= spec_typed_keys(
                    taken,
                    "TR"@,
                ));
                assert(album_keys.deep_view() + spec_typed_keys(taken, "AL"@) =~= spec_typed_keys(
                    taken,
                    "AL"@,
                ));
            }
            while i < m
                invariant
                    i <= m <= items@.len(),
                    taken == items@.take(m as int),
                    track_keys.deep_view() + spec_typed_keys(taken.skip(i as int), "TR"@)
                        == spec_typed_keys(taken, "TR"@),
                    album_keys.deep_view() + spec_typed_keys(taken.skip(i as int), "AL"@)
                        == spec_typed_keys(taken, "AL"@),
                decreases m - i,
            {
                let ghost tail = taken.skip(i as int);
                let ghost tdv0 = track_keys.deep_view();
                let ghost adv0 = album_keys.deep_view();
                proof {
                    assert(tail[0] == taken[i as int]);
                    assert(taken[i as int] == items@[i as int]);
                    assert(tail.skip(1) =~= taken.skip(i + 1));
                    reveal_strlit("TR");
                    reveal_strlit("AL");
                    assert(("TR"@).len() == 2);
                    assert(("TR"@)[0] == 'T');
                    assert(("AL"@)[0] == 'A');
                    assert("TR"@ != "AL"@);
                }
                let entity = &items[i];
                let entity_type = match entity.get("entity_type") {
                    Some(JsonValue::Str(t)) => Some(t),
                    _ => None,
                };
                let seo = match entity.get("seokey") {
                    Some(JsonValue::Str(k)) => Some(k),
                    _ => None,
                };
                match (entity_type, seo) {
                    (Some(t), Some(k)) => {
                        if str_eq(t.as_str(), "TR") {
                            track_keys.push(k.clone());
                            proof {
                                assert(track_keys.deep_view() =~= tdv0 + seq![k@]);
                                assert(tdv0 + (seq![k@] + spec_typed_keys(taken.skip(i + 1), "TR"@))
                                    =~= (tdv0 + seq![k@]) + spec_typed_keys(
                                    taken.skip(i + 1),
                                    "TR"@,
                                ));
                            }
                        } else if str_eq(t.as_str(), "AL") {
                            album_keys.push(k.clone());
                            proof {
                                assert(album_keys.deep_view() =~= adv0 + seq![k@]);
                                assert(adv0 + (seq![k@] + spec_typed_keys(taken.skip(i + 1), "AL"@))
                                    =~= (adv0 + seq![k@]) + spec_typed_keys(
                                    taken.skip(i + 1),
                                    "AL"@,
                                ));
                            }
                        }
                    },
                    _ => {},
                }
                i = i + 1;
            }
            proof {
                assert(taken.skip(m as int) =~= Seq::<JsonValue>::empty());
                assert(track_keys.deep_view() + Seq::<Seq<char>>::empty() =~= track_keys.deep_view());
                assert(album_keys.deep_view() + Seq::<Seq<char>>::empty() =~= album_keys.deep_view());
            }
        },
        _ => {
            proof {
                assert(track_keys.deep_view() =~= Seq::<Seq<char>>::empty());
                assert(album_keys.deep_view() =~= Seq::<Seq<char>>::empty());
            }
        },
    }
    (track_keys, album_keys)
}

/// Decide whether a new-releases response has anything to fetch: the
/// listing is "not found" exactly when it yields neither track nor album
/// keys.
pub fn release_keys_outcome(response: &JsonValue, limit: Option<usize>, language: &str) -> (r:
    Result<(Vec<String>, Vec<String>), ApiError>)
    ensures
        match r {
            Ok(keys) => (keys.0@.len() > 0 || keys.1@.len() > 0) && keys.0.deep_view()
                == spec_release_keys(*response, spec_limit(limit, 10)).0 && keys.1.deep_view()
                == spec_release_keys(*response, spec_limit(limit, 10)).1,
            Err(e) => spec_release_keys(*response, spec_limit(limit, 10)).0.len() == 0
                && spec_release_keys(*response, spec_limit(limit, 10)).1.len() == 0 && e.error@
                == "No results found"@ && e.message@
                == "No search results for the given query: new releases in "@ + language@,
        },
{
    let (track_keys, album_keys) = extract_release_keys(response, limit);
    if track_keys.len() == 0 && album_keys.len() == 0 {
        let mut q = String::from_str("new releases in ");
        q.append(language);
        let e = ApiError::not_found(q.as_str());
        proof {
            assert("No search results for the given query: "@ + ("new releases in "@ + language@)
                =~= "No search results for the given query: new releases in "@ + language@) by {
                reveal_strlit("No search results for the given query: ");
                reveal_strlit("new releases in ");
                reveal_strlit("No search results for the given query: new releases in ");
            }
        }
        Err(e)
    } else {
        Ok((track_keys, album_keys))
    }
}

/// Assemble the new-releases listing from the per-key track and album
/// detail responses, each batch in its own order, skipping failed fetches
/// and unusable records.  The aggregate fails exactly when zero records of
/// either kind were normalized: that terminal outcome is the "no results"
/// failure for the listing's language, never a success with two empty
/// lists.
pub fn assemble_new_releases(
    track_details: &Vec<Option<JsonValue>>,
    album_details: &Vec<Option<JsonValue>>,
    language: &str,
) -> (r: Result<NewReleasesResponse, ApiError>)
    ensures
        match r {
            Ok(resp) => (resp.songs@.len() > 0 || resp.albums@.len() > 0) && spec_batch_songs(
                track_details@,
                resp.songs@,
            ) && spec_batch_albums(album_details@, resp.albums@),
            Err(e) => spec_batch_songs(track_details@, Seq::<Song>::empty()) && spec_batch_albums(
                album_details@,
                Seq::<Album>::empty(),
            ) && e.error@ == "No results found"@ && e.message@
                == "No search results for the given query: new releases in "@ + language@,
        },
{
    let songs = songs_from_details(track_details);
    let albums = albums_from_details(album_details);
    if songs.len() == 0 && albums.len() == 0 {
        proof {
            assert(songs@ =~= Seq::<Song>::empty());
            assert(albums@ =~= Seq::<Album>::empty());
        }
        let mut q = String::from_str("new releases in ");
        q.append(language);
        let e = ApiError::not_found(q.as_str());
        proof {
            assert("No search results for the given query: "@ + ("new releases in "@ + language@)
                =~= "No search results for the given query: new releases in "@ + language@) by {
                reveal_strlit("No search results for the given query: ");
                reveal_strlit("new releases in ");
                reveal_strlit("No search results for the given query: new releases in ");
            }
        }
        Err(e)
    } else {
        Ok(NewReleasesResponse { songs, albums })
    }
}

} // verus!
