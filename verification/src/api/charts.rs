//! Top charts: a list of chart entities republished as playlists.

use vstd::prelude::*;
use vstd::string::StrSliceExecFns;
use vstd::string::StringExecFns;

use crate::formatting::{extract_id, extract_int, spec_extract_id, spec_extract_int, spec_opt_val};
use crate::json::JsonValue;
use crate::models::error::ApiError;
use crate::models::images::Images;
use crate::models::playlist::{GaanaChartEntity, GaanaChartsResponse, GaanaEntityInfo, Playlist};
use crate::text::{replace_str, spec_replaced};

verus! {

/// Parameters of a charts listing.
pub struct ChartsQuery {
    pub limit: Option<usize>,
}

/// What the charts endpoint hands back.
pub enum ChartsResponse {
    Playlists(Vec<Playlist>),
    Error(ApiError),
}

/// The charts listing URL.
pub fn charts_url() -> (r: String)
    ensures
        r@ == "https://gaana.com/apiv2?page=0&type=miscTopCharts"@,
{
    String::from_str("https://gaana.com/apiv2?page=0&type=miscTopCharts")
}

/// Whether one raw chart entity is well-typed.
pub open spec fn spec_chart_entity_ok(v: JsonValue) -> bool {
    &&& v is Obj
    &&& v.spec_str_field_ok("seokey"@)
    &&& v.spec_str_field_ok("name"@)
    &&& v.spec_str_field_ok("language"@)
    &&& v.spec_str_field_ok("atwj"@)
    &&& v.spec_arr_field_ok("entity_info"@)
    &&& (match v.spec_arr_field("entity_info"@) {
        Some(items) => forall|j: int| 0 <= j < items.len() ==> #[trigger] (items[j]) is Obj,
        None => true,
    })
}

/// How a decoded chart entity relates to its raw value, field by field.
pub open spec fn spec_chart_entity_rel(v: JsonValue, e: GaanaChartEntity) -> bool {
    &&& e.seokey.deep_view() == v.spec_str_field("seokey"@)
    &&& e.name.deep_view() == v.spec_str_field("name"@)
    &&& e.language.deep_view() == v.spec_str_field("language"@)
    &&& e.atwj.deep_view() == v.spec_str_field("atwj"@)
    &&& spec_opt_val(e.entity_id) == v.spec_val_field("entity_id"@)
    &&& spec_opt_val(e.favorite_count) == v.spec_val_field("favorite_count"@)
    &&& (match e.entity_info {
        Some(infos) => v.spec_arr_field("entity_info"@) matches Some(items) && infos@.len()
            == items.len() && (forall|j: int|
            0 <= j < items.len() ==> spec_opt_val(#[trigger] (infos@[j]).value) == items[j].spec_val_field(
                "value"@,
            )),
        None => v.spec_arr_field("entity_info"@) is None,
    })
}

fn entity_info_from_json<'a>(v: &'a JsonValue) -> (r: Option<GaanaEntityInfo<'a>>)
    ensures
        (r is Some) == (v is Obj),
        r matches Some(info) ==> spec_opt_val(info.value) == v.spec_val_field("value"@),
{
    if !v.is_obj() {
        return None;
    }
    Some(GaanaEntityInfo { value: v.get_opt_value("value") })
}

/// Decode one raw chart entity, or nothing when a typed field breaks its
/// rule.
pub fn chart_entity_from_json<'a>(v: &'a JsonValue) -> (r: Option<GaanaChartEntity<'a>>)
    ensures
        (r is Some) == spec_chart_entity_ok(*v),
        r matches Some(e) ==> spec_chart_entity_rel(*v, e),
{
    if !v.is_obj() {
        return None;
    }
    let seokey = match v.get_opt_str("seokey") {
        Some(f) => f,
        None => {
            return None;
        },
    };
    let name = match v.get_opt_str("name") {
        Some(f) => f,
        None => {
            return None;
        },
    };
    let language = match v.get_opt_str("language") {
        Some(f) => f,
        None => {
            return None;
        },
    };
    let atwj = match v.get_opt_str("atwj") {
        Some(f) => f,
        None => {
            return None;
        },
    };
    let entity_info = match v.get_opt_arr("entity_info") {
        Some(Some(items)) => {
            let mut infos: Vec<GaanaEntityInfo<'a>> = Vec::new();
            let mut i: usize = 0;
            while i < items.len()
                invariant
                    v is Obj,
                    v.spec_arr_field("entity_info"@) == Some(items@),
                    i <= items@.len(),
                    infos@.len() == i,
                    forall|j: int| 0 <= j < i ==> #[trigger] (items@[j]) is Obj,
                    forall|j: int|
                        0 <= j < i ==> spec_opt_val(#[trigger] (infos@[j]).value)
                            == items@[j].spec_val_field("value"@),
                decreases items@.len() - i,
            {
                match entity_info_from_json(&items[i]) {
                    Some(info) => infos.push(info),
                    None => {
                        return None;
                    },
                }
                i = i + 1;
            }
            Some(infos)
        },
        Some(None) => None,
        None => {
            return None;
        },
    };
    Some(
        GaanaChartEntity {
            seokey,
            entity_id: v.get_opt_value("entity_id"),
            name,
            language,
            favorite_count: v.get_opt_value("favorite_count"),
            entity_info,
            atwj,
        },
    )
}

/// Whether a raw charts response is well-typed: an object whose `entities`
/// field, when present, is an array of well-typed entities.
pub open spec fn spec_charts_ok(v: JsonValue) -> bool {
    &&& v is Obj
    &&& (match v.spec_val_field("entities"@) {
        None => true,
        Some(JsonValue::Arr(items)) => forall|j: int|
            0 <= j < items@.len() ==> spec_chart_entity_ok(#[trigger] (items@[j])),
        Some(_) => false,
    })
}

/// Decode a raw charts response, or nothing when it is ill-typed.
pub fn charts_response_from_json<'a>(v: &'a JsonValue) -> (r: Option<GaanaChartsResponse<'a>>)
    ensures
        (r is Some) == spec_charts_ok(*v),
        r matches Some(cr) ==> (match cr.entities {
            Some(es) => v.spec_val_field("entities"@) matches Some(JsonValue::Arr(items))
                && es@.len() == items@.len() && (forall|j: int|
                0 <= j < items@.len() ==> spec_chart_entity_rel(items@[j], #[trigger] (es@[j]))),
            None => v.spec_val_field("entities"@) is None,
        }),
{
    if !v.is_obj() {
        return None;
    }
    match v.get_opt_value("entities") {
        Some(ev) => match ev {
            JsonValue::Arr(items) => {
                let mut es: Vec<GaanaChartEntity<'a>> = Vec::new();
                let mut i: usize = 0;
                while i < items.len()
                    invariant
                        v is Obj,
                        v.spec_val_field("entities"@) == Some(JsonValue::Arr(*items)),
                        i <= items@.len(),
                        es@.len() == i,
                        forall|j: int| 0 <= j < i ==> spec_chart_entity_ok(#[trigger] (items@[j])),
                        forall|j: int|
                            0 <= j < i ==> spec_chart_entity_rel(items@[j], #[trigger] (es@[j])),
                    decreases items@.len() - i,
                {
                    match chart_entity_from_json(&items[i]) {
                        Some(e) => es.push(e),
                        None => {
                            proof {
                                assert(!spec_chart_entity_ok(items@[i as int]));
                                if spec_charts_ok(*v) {
                                    let its = (*v).spec_val_field("entities"@)->0->Arr_0;
                                    assert(its == *items);
                                    assert(spec_chart_entity_ok(its@[i as int]));
                                    assert(false);
                                }
                                assert(!spec_charts_ok(*v));
                            }
                            return None;
                        },
                    }
                    i = i + 1;
                }
                Some(GaanaChartsResponse { entities: Some(es) })
            },
            _ => None,
        },
        None => Some(GaanaChartsResponse { entities: None }),
    }
}

/// The play count a chart entity carries: the last `entity_info` entry's
/// value, when that is a string.
pub open spec fn spec_chart_play_count(e: GaanaChartEntity) -> Option<Seq<char>> {
    match e.entity_info {
        Some(infos) => if infos@.len() > 0 {
            match spec_opt_val(infos@.last().value) {
                Some(JsonValue::Str(s)) => Some(s@),
                _ => None,
            }
        } else {
            None
        },
        None => None,
    }
}

/// The playlist a decoded chart entity formats to, field by field.
pub open spec fn spec_formatted_chart(entity: GaanaChartEntity, p: Playlist) -> bool {
    &&& p.seokey@ == entity.seokey->0@
    &&& p.playlist_id@ == spec_extract_id(spec_opt_val(entity.entity_id))
    &&& p.title@ == entity.name->0@
    &&& p.description is None
    &&& p.language == entity.language
    &&& p.play_count.deep_view() == spec_chart_play_count(entity)
    &&& p.favorite_count == spec_extract_int(spec_opt_val(entity.favorite_count))
    &&& p.playlist_url@ == "https://gaana.com/playlist/"@ + entity.seokey->0@
    &&& (match p.images {
        Some(im) => entity.atwj matches Some(art) && im.large_artwork.deep_view() == Some(
            spec_replaced(art@, "size_m.jpg"@, "size_l.jpg"@),
        ) && im.medium_artwork.deep_view() == Some(art@) && im.small_artwork.deep_view() == Some(
            spec_replaced(art@, "size_m.jpg"@, "size_s.jpg"@),
        ),
        None => entity.atwj is None,
    })
    &&& p.total_tracks is None
    &&& p.tracks is None
}

/// Format one decoded chart entity as a playlist.  Entities lacking their
/// identity fields are dropped, never partially filled.
pub fn format_chart_entity(entity: &GaanaChartEntity) -> (r: Option<Playlist>)
    ensures
        (r is Some) == (entity.seokey is Some && entity.name is Some),
        r matches Some(p) ==> spec_formatted_chart(*entity, p),
{
    let seokey = match &entity.seokey {
        Some(s) => s.clone(),
        None => {
            return None;
        },
    };
    let title = match &entity.name {
        Some(s) => s.clone(),
        None => {
            return None;
        },
    };
    let playlist_id = extract_id(entity.entity_id);
    let play_count = match &entity.entity_info {
        Some(infos) => {
            if infos.len() > 0 {
                match infos[infos.len() - 1].value {
                    Some(JsonValue::Str(s)) => Some(s.clone()),
                    _ => None,
                }
            } else {
                None
            }
        },
        None => None,
    };
    let images = match &entity.atwj {
        Some(artwork) => {
            proof {
                reveal_strlit("size_m.jpg");
            }
            Some(
                Images::new(
                    Some(replace_str(artwork.as_str(), "size_m.jpg", "size_l.jpg")),
                    Some(artwork.clone()),
                    Some(replace_str(artwork.as_str(), "size_m.jpg", "size_s.jpg")),
                ),
            )
        },
        None => None,
    };
    let mut playlist_url = String::from_str("https://gaana.com/playlist/");
    playlist_url.append(seokey.as_str());
    Some(
        Playlist {
            seokey,
            playlist_id,
            title,
            description: None,
            language: match &entity.language {
                Some(l) => Some(l.clone()),
                None => None,
            },
            play_count,
            favorite_count: extract_int(entity.favorite_count),
            playlist_url,
            images,
            total_tracks: None,
            tracks: None,
        },
    )
}

} // verus!

verus! {

/// A chart entity value that yields a playlist: both identity fields hold
/// strings.
pub open spec fn spec_chart_entity_yields(v: JsonValue) -> bool {
    v.spec_str_field("seokey"@) is Some && v.spec_str_field("name"@) is Some
}

/// The playlist one well-typed chart entity value yields, field by field.
pub open spec fn spec_chart_playlist_of(v: JsonValue, p: Playlist) -> bool {
    &&& Some(p.seokey@) == v.spec_str_field("seokey"@)
    &&& p.playlist_id@ == spec_extract_id(v.spec_val_field("entity_id"@))
    &&& Some(p.title@) == v.spec_str_field("name"@)
    &&& p.description is None
    &&& p.language.deep_view() == v.spec_str_field("language"@)
    &&& p.play_count.deep_view() == (match v.spec_arr_field("entity_info"@) {
        Some(infos) => if infos.len() > 0 {
            match infos.last().spec_val_field("value"@) {
                Some(JsonValue::Str(s)) => Some(s@),
                _ => None,
            }
        } else {
            None
        },
        None => None,
    })
    &&& p.favorite_count == spec_extract_int(v.spec_val_field("favorite_count"@))
    &&& p.playlist_url@ == "https://gaana.com/playlist/"@ + p.seokey@
    &&& (match p.images {
        Some(im) => v.spec_str_field("atwj"@) matches Some(art) && im.large_artwork.deep_view()
            == Some(spec_replaced(art, "size_m.jpg"@, "size_l.jpg"@)) && im.medium_artwork.deep_view()
            == Some(art) && im.small_artwork.deep_view() == Some(
            spec_replaced(art, "size_m.jpg"@, "size_s.jpg"@),
        ),
        None => v.spec_str_field("atwj"@) is None,
    })
    &&& p.total_tracks is None
    &&& p.tracks is None
}

proof fn lemma_chart_playlist_compose(v: JsonValue, e: GaanaChartEntity, p: Playlist)
    requires
        spec_chart_entity_rel(v, e),
        spec_formatted_chart(e, p),
        e.seokey is Some,
        e.name is Some,
    ensures
        spec_chart_playlist_of(v, p),
{
    match e.entity_info {
        Some(infos) => {
            if infos@.len() > 0 {
                assert(spec_opt_val(infos@[infos@.len() - 1].value) == v.spec_arr_field(
                    "entity_info"@,
                )->0[infos@.len() - 1].spec_val_field("value"@));
            }
        },
        None => {},
    }
}

/// How the capped prefix of a charts entity list maps to playlists: each
/// entity with its identity fields contributes one, in order.
pub open spec fn spec_charts_match(items: Seq<JsonValue>, pls: Seq<Playlist>) -> bool
    decreases items.len(),
{
    if items.len() == 0 {
        pls.len() == 0
    } else if spec_chart_entity_yields(items.last()) {
        pls.len() > 0 && spec_chart_playlist_of(items.last(), pls.last()) && spec_charts_match(
            items.take(items.len() - 1),
            pls.take(pls.len() - 1),
        )
    } else {
        spec_charts_match(items.take(items.len() - 1), pls)
    }
}

/// The outcome of a charts listing on its classified response: the first
/// `limit` entities (ten when unspecified) formatted as playlists.  An
/// ill-typed response is a parse failure; one without entities, or one
/// yielding zero playlists, is a "no results" outcome.
pub fn charts_outcome(response: &JsonValue, limit: Option<usize>) -> (r: Result<
    Vec<Playlist>,
    ApiError,
>)
    ensures
        match r {
            Ok(pls) => spec_charts_ok(*response) && (match response.spec_val_field("entities"@) {
                Some(JsonValue::Arr(items)) => pls@.len() > 0 && spec_charts_match(
                    items@.take(
                        vstd::math::min(
                            match limit {
                                Some(l) => l as int,
                                None => 10,
                            },
                            items@.len() as int,
                        ),
                    ),
                    pls@,
                ),
                _ => false,
            }),
            Err(e) => {
                ||| (!spec_charts_ok(*response) && e.error@ == "Internal server error"@
                    && e.message@ == "Failed to parse charts response"@)
                ||| (spec_charts_ok(*response) && response.spec_val_field("entities"@) is None
                    && e.error@ == "No results found"@ && e.message@
                    == "No search results for the given query: top charts entities"@)
                ||| (spec_charts_ok(*response) && (match response.spec_val_field("entities"@) {
                    Some(JsonValue::Arr(items)) => spec_charts_match(
                        items@.take(
                            vstd::math::min(
                                match limit {
                                    Some(l) => l as int,
                                    None => 10,
                                },
                                items@.len() as int,
                            ),
                        ),
                        Seq::<Playlist>::empty(),
                    ),
                    _ => false,
                }) && e.error@ == "No results found"@ && e.message@
                    == "No search results for the given query: top charts"@)
            },
        },
{
    let cr = match charts_response_from_json(response) {
        Some(c) => c,
        None => {
            return Err(ApiError::internal_error("Failed to parse charts response"));
        },
    };
    let entities = match cr.entities {
        Some(es) => es,
        None => {
            proof {
                reveal_strlit("No search results for the given query: ");
                reveal_strlit("top charts entities");
                reveal_strlit("No search results for the given query: top charts entities");
                assert("No search results for the given query: "@ + "top charts entities"@
                    =~= "No search results for the given query: top charts entities"@);
            }
            return Err(ApiError::not_found("top charts entities"));
        },
    };
    let ghost items_seq = response.spec_val_field("entities"@)->0->Arr_0@;
    let lim: usize = match limit {
        Some(l) => l,
        None => 10,
    };
    let m: usize = if lim < entities.len() {
        lim
    } else {
        entities.len()
    };
    let ghost taken = items_seq.take(m as int);
    let mut pls: Vec<Playlist> = Vec::new();
    let mut i: usize = 0;
    proof {
        assert(taken.take(0) =~= Seq::<JsonValue>::empty());
    }
    while i < m
        invariant
            i <= m <= entities@.len(),
            entities@.len() == items_seq.len(),
            forall|j: int|
                0 <= j < items_seq.len() ==> spec_chart_entity_rel(
                    items_seq[j],
                    #[trigger] (entities@[j]),
                ),
            taken == items_seq.take(m as int),
            spec_charts_match(taken.take(i as int), pls@),
        decreases m - i,
    {
        let ghost pre = pls@;
        match format_chart_entity(&entities[i]) {
            Some(p) => {
                proof {
                    lemma_chart_playlist_compose(items_seq[i as int], entities@[i as int], p);
                }
                pls.push(p);
            },
            None => {},
        }
        proof {
            assert(taken.take(i + 1).take(i as int) =~= taken.take(i as int));
            assert(taken.take(i + 1).last() == taken[i as int]);
            assert(taken[i as int] == items_seq[i as int]);
            if pls@.len() > pre.len() {
                assert(pls@.take(pls@.len() - 1) =~= pre);
            }
        }
        i = i + 1;
    }
    proof {
        assert(taken.take(m as int) =~= taken);
    }
    if pls.len() == 0 {
        proof {
            assert(pls@ =~= Seq::<Playlist>::empty());
            reveal_strlit("No search results for the given query: ");
            reveal_strlit("top charts");
            reveal_strlit("No search results for the given query: top charts");
            assert("No search results for the given query: "@ + "top charts"@
                =~= "No search results for the given query: top charts"@);
        }
        Err(ApiError::not_found("top charts"))
    } else {
        Ok(pls)
    }
}

} // verus!
