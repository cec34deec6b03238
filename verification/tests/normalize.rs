use gaana_core::api::albums::{album_detail_url, assemble_albums, search_albums_url};
use gaana_core::api::artists::artist_detail_url;
use gaana_core::api::base::{
    extract_entity_keys, extract_search_keys, first_song_in_response,
    process_gaana_album_response, process_gaana_artist_response, process_song_response,
    song_from_value, songs_from_details,
};
use gaana_core::api::charts::charts_outcome;
use gaana_core::api::newreleases::{extract_release_keys, new_releases_language};
use gaana_core::api::playlists::{playlist_detail_url, playlist_track_keys};
use gaana_core::api::songs::{
    assemble_songs, search_songs_keys, search_songs_url, song_detail_url, song_info_outcome,
};
use gaana_core::json::JsonValue;

fn obj_n(pairs: Vec<(&str, JsonValue)>) -> JsonValue {
    JsonValue::Obj(pairs.into_iter().map(|(k, v)| (k.to_string(), v)).collect())
}

fn s_n(text: &str) -> JsonValue {
    JsonValue::Str(text.to_string())
}

fn n_n(text: &str) -> JsonValue {
    JsonValue::Num(text.to_string())
}

fn seo_item(key: &str) -> JsonValue {
    obj_n(vec![("seo", s_n(key))])
}

#[test]
fn search_traversal_respects_limit_and_order() {
    let response = obj_n(vec![(
        "gr",
        JsonValue::Arr(vec![obj_n(vec![(
            "gd",
            JsonValue::Arr(vec![seo_item("x"), seo_item("y"), seo_item("z")]),
        )])]),
    )]);
    let keys = extract_search_keys(&response, 2);
    assert_eq!(keys, vec!["x".to_string(), "y".to_string()]);
    let all = extract_search_keys(&response, 10);
    assert_eq!(all, vec!["x".to_string(), "y".to_string(), "z".to_string()]);
    assert_eq!(extract_search_keys(&JsonValue::Null, 2).len(), 0);
}

#[test]
fn search_keys_failure_is_no_results() {
    let empty = obj_n(vec![("gr", JsonValue::Arr(vec![]))]);
    let err = search_songs_keys(&empty, None).unwrap_err();
    assert_eq!(err.error, "No results found");
}

#[test]
fn album_artist_fallback_chain() {
    // Album without an artist field; first track carries one.
    let response = obj_n(vec![
        (
            "album",
            obj_n(vec![("seokey", s_n("alb")), ("title", s_n("An Album"))]),
        ),
        (
            "tracks",
            JsonValue::Arr(vec![obj_n(vec![(
                "artist",
                JsonValue::Arr(vec![obj_n(vec![("name", s_n("C"))])]),
            )])]),
        ),
    ]);
    let album = process_gaana_album_response(&response, false).unwrap();
    assert_eq!(album.artists, "C");

    // No tracks either: empty artist strings.
    let bare = obj_n(vec![(
        "album",
        obj_n(vec![("seokey", s_n("alb")), ("title", s_n("An Album"))]),
    )]);
    let album = process_gaana_album_response(&bare, false).unwrap();
    assert_eq!(album.artists, "");
    assert_eq!(album.artist_seokeys, "");
    assert_eq!(album.artist_ids, "");
}

#[test]
fn album_level_artist_wins_over_tracks() {
    let response = obj_n(vec![
        (
            "album",
            obj_n(vec![
                ("seokey", s_n("alb")),
                ("title", s_n("An Album")),
                ("artist", JsonValue::Arr(vec![obj_n(vec![("name", s_n("Own"))])])),
            ]),
        ),
        (
            "tracks",
            JsonValue::Arr(vec![obj_n(vec![(
                "artist",
                JsonValue::Arr(vec![obj_n(vec![("name", s_n("C"))])]),
            )])]),
        ),
    ]);
    let album = process_gaana_album_response(&response, false).unwrap();
    assert_eq!(album.artists, "Own");
}

#[test]
fn album_response_fields_and_images() {
    let response = obj_n(vec![(
        "album",
        obj_n(vec![
            ("seokey", s_n("alb")),
            ("album_id", n_n("77")),
            ("title", s_n("An Album")),
            ("language", s_n("Hindi")),
            ("recordlevel", s_n("A Label")),
            ("artwork", s_n("https://img/alb/size_s.jpg")),
            ("trackcount", s_n("12")),
        ]),
    )]);
    let album = process_gaana_album_response(&response, false).unwrap();
    assert_eq!(album.album_id, "77");
    assert_eq!(album.language.as_deref(), Some("Hindi"));
    assert_eq!(album.label.as_deref(), Some("A Label"));
    assert_eq!(album.album_url, "https://gaana.com/album/alb");
    assert_eq!(album.total_tracks, Some(12));
    let images = album.images.unwrap();
    assert_eq!(images.large_artwork.as_deref(), Some("https://img/alb/size_l.jpg"));
    assert_eq!(images.medium_artwork.as_deref(), Some("https://img/alb/size_s.jpg"));
    assert_eq!(images.small_artwork.as_deref(), Some("https://img/alb/size_m.jpg"));
    assert!(album.tracks.is_none());
}

#[test]
fn missing_identity_yields_not_found_outcome() {
    // A track record without a seokey is dropped, so the lookup reports an
    // invalid key rather than a partially-populated song.
    let response = obj_n(vec![(
        "tracks",
        JsonValue::Arr(vec![obj_n(vec![("track_title", s_n("Nameless"))])]),
    )]);
    let err = song_info_outcome(&response, "some-key").unwrap_err();
    assert_eq!(err.error, "Invalid seokey");
    assert_eq!(
        err.message,
        "The provided seokey is invalid or not found: some-key"
    );
}

#[test]
fn song_normalization_fills_fallbacks() {
    let track = obj_n(vec![
        ("seokey", s_n("song-key")),
        ("track_title", s_n("A Song")),
        ("artist", JsonValue::Arr(vec![obj_n(vec![
            ("name", s_n("A")),
            ("seokey", s_n("a")),
            ("artist_id", n_n("1")),
        ])])),
        ("album_title", s_n("An Album")),
        ("gener", s_n("Pop")),
        ("parental_warning", n_n("1")),
        ("total_favourite_count", s_n("250")),
    ]);
    let song = song_from_value(&track).unwrap();
    assert_eq!(song.seokey, "song-key");
    assert_eq!(song.title, "A Song");
    assert_eq!(song.track_id, "0");
    assert_eq!(song.artists, "A");
    assert_eq!(song.artist_ids, "1");
    assert_eq!(song.album.as_deref(), Some("An Album"));
    assert_eq!(song.album_id.as_deref(), Some("0"));
    assert_eq!(song.genres.as_deref(), Some("Pop"));
    assert_eq!(song.is_explicit, Some(1));
    assert_eq!(song.favorite_count, Some(250));
    assert_eq!(song.song_url, "https://gaana.com/song/song-key");
    assert!(song.images.is_none());
    assert!(song.stream_urls.is_none());
}

#[test]
fn ill_typed_track_is_dropped_whole() {
    // A numeric seokey is a type error: the record is skipped, not coerced.
    let response = obj_n(vec![(
        "tracks",
        JsonValue::Arr(vec![
            obj_n(vec![("seokey", n_n("5")), ("track_title", s_n("Bad"))]),
            obj_n(vec![("seokey", s_n("ok")), ("track_title", s_n("Good"))]),
        ]),
    )]);
    let songs = process_song_response(&response);
    assert_eq!(songs.len(), 1);
    assert_eq!(songs[0].seokey, "ok");
}

#[test]
fn artist_detail_overrides_artist_image() {
    let track = obj_n(vec![
        ("seokey", s_n("k")),
        ("track_title", s_n("T")),
        ("artist", JsonValue::Arr(vec![obj_n(vec![
            ("name", s_n("A")),
            ("artwork", s_n("from-artist")),
        ])])),
        ("artist_detail", JsonValue::Arr(vec![obj_n(vec![("atw", s_n("from-detail"))])])),
    ]);
    let song = song_from_value(&track).unwrap();
    assert_eq!(song.artist_image.as_deref(), Some("from-detail"));
}

#[test]
fn artist_response_reads_first_of_wrapper_array() {
    let response = obj_n(vec![(
        "artist",
        JsonValue::Arr(vec![obj_n(vec![
            ("seokey", s_n("art")),
            ("artist_id", s_n("3")),
            ("name", s_n("Someone")),
            ("atw", s_n("https://img/size_m/art.jpg")),
        ])]),
    )]);
    let artist = process_gaana_artist_response(&response, true).unwrap();
    assert_eq!(artist.seokey, "art");
    assert_eq!(artist.artist_id, "3");
    assert_eq!(artist.name, "Someone");
    assert_eq!(artist.artist_url, "https://gaana.com/artist/art");
    let images = artist.images.unwrap();
    assert_eq!(images.large_artwork.as_deref(), Some("https://img/size_l/art.jpg"));
    assert_eq!(images.small_artwork.as_deref(), Some("https://img/size_s/art.jpg"));
    assert!(artist.top_tracks.is_none());

    let empty = obj_n(vec![("artist", JsonValue::Arr(vec![]))]);
    assert!(process_gaana_artist_response(&empty, false).is_none());
}

#[test]
fn batch_assembly_skips_failures_and_fails_only_on_zero() {
    let detail = obj_n(vec![(
        "tracks",
        JsonValue::Arr(vec![obj_n(vec![
            ("seokey", s_n("k1")),
            ("track_title", s_n("T1")),
        ])]),
    )]);
    let details = vec![None, Some(detail), Some(JsonValue::Null)];
    let songs = songs_from_details(&details);
    assert_eq!(songs.len(), 1);
    assert_eq!(songs[0].seokey, "k1");
    assert!(assemble_songs(&details).is_ok());

    let nothing = vec![None, Some(JsonValue::Null)];
    let err = assemble_songs(&nothing).unwrap_err();
    assert_eq!(err.error, "No results found");
    assert_eq!(
        err.message,
        "No search results for the given query: No valid song data found"
    );
}

#[test]
fn first_song_takes_only_the_first_record() {
    let response = obj_n(vec![(
        "tracks",
        JsonValue::Arr(vec![
            obj_n(vec![("seokey", s_n("one")), ("track_title", s_n("One"))]),
            obj_n(vec![("seokey", s_n("two")), ("track_title", s_n("Two"))]),
        ]),
    )]);
    let song = first_song_in_response(&response).unwrap();
    assert_eq!(song.seokey, "one");
}

#[test]
fn playlist_keys_are_uncapped() {
    let response = obj_n(vec![(
        "tracks",
        JsonValue::Arr(vec![
            obj_n(vec![("seokey", s_n("a"))]),
            obj_n(vec![("seokey", s_n("b"))]),
            obj_n(vec![("seokey", s_n("c"))]),
        ]),
    )]);
    let keys = playlist_track_keys(&response, "pl").unwrap();
    assert_eq!(keys, vec!["a".to_string(), "b".to_string(), "c".to_string()]);

    let err = playlist_track_keys(&JsonValue::Null, "pl").unwrap_err();
    assert_eq!(
        err.message,
        "No search results for the given query: No tracks found for playlist 'pl'"
    );
}

#[test]
fn entity_keys_respect_limit() {
    let response = obj_n(vec![(
        "entities",
        JsonValue::Arr(vec![
            obj_n(vec![("seokey", s_n("t1"))]),
            obj_n(vec![("seokey", s_n("t2"))]),
            obj_n(vec![("seokey", s_n("t3"))]),
        ]),
    )]);
    assert_eq!(
        extract_entity_keys(&response, 2),
        vec!["t1".to_string(), "t2".to_string()]
    );
}

#[test]
fn release_keys_split_by_entity_type() {
    let response = obj_n(vec![(
        "entities",
        JsonValue::Arr(vec![
            obj_n(vec![("entity_type", s_n("TR")), ("seokey", s_n("t1"))]),
            obj_n(vec![("entity_type", s_n("AL")), ("seokey", s_n("a1"))]),
            obj_n(vec![("entity_type", s_n("PL")), ("seokey", s_n("p1"))]),
            obj_n(vec![("entity_type", s_n("TR")), ("seokey", s_n("t2"))]),
        ]),
    )]);
    let (tracks, albums) = extract_release_keys(&response, None);
    assert_eq!(tracks, vec!["t1".to_string(), "t2".to_string()]);
    assert_eq!(albums, vec!["a1".to_string()]);

    let (tracks, albums) = extract_release_keys(&response, Some(1));
    assert_eq!(tracks, vec!["t1".to_string()]);
    assert_eq!(albums.len(), 0);
}

#[test]
fn new_releases_language_defaults() {
    assert_eq!(new_releases_language(Some("Punjabi")), "Punjabi");
    assert_eq!(new_releases_language(Some("punjabi")), "Hindi");
    assert_eq!(new_releases_language(None), "Hindi");
}

#[test]
fn charts_entities_become_playlists() {
    let response = obj_n(vec![(
        "entities",
        JsonValue::Arr(vec![
            obj_n(vec![
                ("seokey", s_n("chart-1")),
                ("entity_id", n_n("11")),
                ("name", s_n("Top Today")),
                ("language", s_n("Hindi")),
                ("atwj", s_n("https://img/size_m.jpg")),
                (
                    "entity_info",
                    JsonValue::Arr(vec![
                        obj_n(vec![("value", n_n("0"))]),
                        obj_n(vec![("value", s_n("12345 plays"))]),
                    ]),
                ),
            ]),
            obj_n(vec![("entity_id", n_n("12"))]),
        ]),
    )]);
    let playlists = charts_outcome(&response, None).unwrap();
    assert_eq!(playlists.len(), 1);
    let p = &playlists[0];
    assert_eq!(p.seokey, "chart-1");
    assert_eq!(p.playlist_id, "11");
    assert_eq!(p.title, "Top Today");
    assert_eq!(p.play_count.as_deref(), Some("12345 plays"));
    assert_eq!(p.playlist_url, "https://gaana.com/playlist/chart-1");
    let images = p.images.as_ref().unwrap();
    assert_eq!(images.large_artwork.as_deref(), Some("https://img/size_l.jpg"));
    assert_eq!(images.small_artwork.as_deref(), Some("https://img/size_s.jpg"));
}

#[test]
fn charts_error_kinds() {
    let err = charts_outcome(&JsonValue::Null, None).unwrap_err();
    assert_eq!(err.error, "Internal server error");
    assert_eq!(err.message, "Failed to parse charts response");

    let no_entities = obj_n(vec![("page", n_n("0"))]);
    let err = charts_outcome(&no_entities, None).unwrap_err();
    assert_eq!(err.error, "No results found");
    assert_eq!(
        err.message,
        "No search results for the given query: top charts entities"
    );

    let empty = obj_n(vec![("entities", JsonValue::Arr(vec![]))]);
    let err = charts_outcome(&empty, None).unwrap_err();
    assert_eq!(
        err.message,
        "No search results for the given query: top charts"
    );
}

#[test]
fn url_builders_percent_encode() {
    assert_eq!(
        search_songs_url("hello world"),
        "https://gaana.com/apiv2?country=IN&page=0&secType=track&type=search&keyword=hello%20world"
    );
    assert_eq!(
        search_albums_url("a&b"),
        "https://gaana.com/apiv2?country=IN&page=0&secType=album&type=search&keyword=a%26b"
    );
    assert_eq!(
        song_detail_url("key-1"),
        "https://gaana.com/apiv2?type=songDetail&seokey=key-1"
    );
    assert_eq!(
        album_detail_url("alb"),
        "https://gaana.com/apiv2?type=albumDetail&seokey=alb"
    );
    assert_eq!(
        artist_detail_url("art"),
        "https://gaana.com/apiv2?type=artistDetail&seokey=art"
    );
    assert_eq!(
        playlist_detail_url("pl"),
        "https://gaana.com/apiv2?type=playlistDetail&seokey=pl"
    );
}

#[test]
fn assemble_albums_fails_only_on_zero() {
    let good = obj_n(vec![(
        "album",
        obj_n(vec![("seokey", s_n("alb")), ("title", s_n("T"))]),
    )]);
    let details = vec![Some(good), None];
    let albums = assemble_albums(&details).unwrap();
    assert_eq!(albums.len(), 1);
    assert_eq!(albums[0].seokey, "alb");

    let err = assemble_albums(&vec![None]).unwrap_err();
    assert_eq!(
        err.message,
        "No search results for the given query: No valid album data found"
    );
}

#[test]
fn new_releases_assembly_fails_only_on_zero() {
    let track_detail = || {
        obj_n(vec![(
            "tracks",
            JsonValue::Arr(vec![obj_n(vec![
                ("seokey", s_n("t1")),
                ("track_title", s_n("T1")),
            ])]),
        )])
    };
    let album_detail = obj_n(vec![(
        "album",
        obj_n(vec![("seokey", s_n("a1")), ("title", s_n("A1"))]),
    )]);

    let result = gaana_core::api::newreleases::assemble_new_releases(
        &vec![Some(track_detail()), None],
        &vec![Some(album_detail)],
        "Hindi",
    )
    .unwrap();
    assert_eq!(result.songs.len(), 1);
    assert_eq!(result.songs[0].seokey, "t1");
    assert_eq!(result.albums.len(), 1);
    assert_eq!(result.albums[0].seokey, "a1");

    // One side empty is still a success.
    let result = gaana_core::api::newreleases::assemble_new_releases(
        &vec![Some(track_detail())],
        &vec![None],
        "Hindi",
    )
    .unwrap();
    assert_eq!(result.songs.len(), 1);
    assert_eq!(result.albums.len(), 0);

    // Zero records of either kind is the terminal "no results" outcome.
    let err = gaana_core::api::newreleases::assemble_new_releases(
        &vec![None, Some(JsonValue::Null)],
        &vec![None],
        "Punjabi",
    )
    .unwrap_err();
    assert_eq!(err.error, "No results found");
    assert_eq!(
        err.message,
        "No search results for the given query: new releases in Punjabi"
    );
}
