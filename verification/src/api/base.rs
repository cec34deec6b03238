//! Shared normalization: raw-shape decoding, canonical entity construction,
//! search traversal and batch assembly.

use vstd::prelude::*;
use vstd::string::StrSliceExecFns;
use vstd::string::StringSliceAdditionalSpecFns;
use vstd::string::StringExecFns;

use crate::encryption::{decrypt_stream_url, spec_stream_urls_of};
use crate::formatting::{
    extract_id, extract_int, process_album_artists, process_artists, process_genres,
    spec_extract_id, spec_extract_int, spec_opt_val, spec_process_artists, spec_process_genres,
    spec_str_fields,
};
use crate::json::JsonValue;
use crate::models::album::{Album, GaanaAlbum};
use crate::models::artist::{Artist, GaanaArtist};
use crate::models::images::Images;
use crate::models::playlist::{GaanaPlaylist, Playlist};
use crate::models::song::{GaanaStreamUrlQuality, GaanaStreamUrls, GaanaTrack, Song};
use crate::text::{replace_str, spec_replaced};

verus! {

/// One hexadecimal digit, upper case.
pub open spec fn spec_hex_digit(v: u8) -> char
    recommends
        v < 16,
{
    if v < 10 {
        (48 + v) as char
    } else {
        (55 + v) as char
    }
}

/// How the URL encoder renders one byte: ASCII alphanumerics and
/// `-`, `.`, `_`, `~` pass through; every other byte becomes a percent
/// escape with two upper-case hex digits.
pub open spec fn spec_percent_byte(b: u8) -> Seq<char> {
    if (48 <= b <= 57) || (65 <= b <= 90) || (97 <= b <= 122) || b == 45 || b == 46 || b == 95
        || b == 126 {
        seq![b as char]
    } else {
        seq!['%', spec_hex_digit(b / 16), spec_hex_digit(b % 16)]
    }
}

/// A byte string percent-encoded for use in a URL query.
pub open spec fn spec_percent_encoded(bytes: Seq<u8>) -> Seq<char>
    decreases bytes.len(),
{
    if bytes.len() == 0 {
        Seq::empty()
    } else {
        spec_percent_byte(bytes[0]) + spec_percent_encoded(bytes.skip(1))
    }
}

/// Relies on `urlencoding::encode`: percent-encodes every byte of the
/// string's UTF-8 form except ASCII alphanumerics and `-`, `.`, `_`, `~`,
/// using upper-case hex digits.
#[verifier::external_body]
pub(crate) fn url_encode(s: &str) -> (r: String)
    ensures
        r@ == spec_percent_encoded(s.spec_bytes()),
{
    urlencoding::encode(s).into_owned()
}

/// The key-extraction cap: the caller's limit, or the endpoint's default
/// when unspecified.
pub open spec fn spec_limit(limit: Option<usize>, default: int) -> int {
    match limit {
        Some(l) => l as int,
        None => default,
    }
}

/// The token of one quality tier of a raw delivery block.
pub open spec fn spec_tier_token(u: JsonValue, tier: Seq<char>) -> Option<Seq<char>> {
    match u.spec_val_field(tier) {
        Some(q) => q.spec_str_field("message"@),
        None => None,
    }
}

/// Whether one tier of a raw delivery block is well-typed: absent, null, or
/// an object whose `message` is absent, null or a string.
pub open spec fn spec_tier_ok(u: JsonValue, tier: Seq<char>) -> bool {
    match u.spec_val_field(tier) {
        Some(q) => q is Obj && q.spec_str_field_ok("message"@),
        None => true,
    }
}

/// Whether a track's `urls` field is well-typed.
pub open spec fn spec_track_urls_ok(v: JsonValue) -> bool {
    match v.spec_val_field("urls"@) {
        Some(u) => u is Obj && spec_tier_ok(u, "medium"@) && spec_tier_ok(u, "high"@)
            && spec_tier_ok(u, "low"@),
        None => true,
    }
}

/// The medium-quality encrypted token of a raw track value, when present:
/// the one field stream-URL recovery starts from.
pub open spec fn spec_track_token(v: JsonValue) -> Option<Seq<char>> {
    match v.spec_val_field("urls"@) {
        Some(u) => spec_tier_token(u, "medium"@),
        None => None,
    }
}

/// The message carried by one decoded quality tier.
pub open spec fn spec_quality_message(q: Option<GaanaStreamUrlQuality>) -> Option<Seq<char>> {
    match q {
        Some(x) => match x.message {
            Some(m) => Some(m@),
            None => None,
        },
        None => None,
    }
}

fn quality_from_json(v: &JsonValue) -> (r: Option<GaanaStreamUrlQuality>)
    ensures
        match r {
            Some(q) => (v is Obj && v.spec_str_field_ok("message"@)) && spec_quality_message(
                Some(q),
            ) == v.spec_str_field("message"@),
            None => !(v is Obj && v.spec_str_field_ok("message"@)),
        },
{
    if !v.is_obj() {
        return None;
    }
    match v.get_opt_str("message") {
        Some(message) => Some(GaanaStreamUrlQuality { message }),
        None => None,
    }
}

fn stream_urls_from_json(v: &JsonValue) -> (r: Option<GaanaStreamUrls>)
    requires
        v is Obj,
    ensures
        match r {
            Some(su) => spec_tier_ok(*v, "medium"@) && spec_tier_ok(*v, "high"@) && spec_tier_ok(
                *v,
                "low"@,
            ) && spec_quality_message(su.medium) == spec_tier_token(*v, "medium"@)
                && spec_quality_message(su.high) == spec_tier_token(*v, "high"@)
                && spec_quality_message(su.low) == spec_tier_token(*v, "low"@),
            None => !(spec_tier_ok(*v, "medium"@) && spec_tier_ok(*v, "high"@) && spec_tier_ok(
                *v,
                "low"@,
            )),
        },
{
    let medium = match v.get_opt_value("medium") {
        Some(q) => match quality_from_json(q) {
            Some(x) => Some(x),
            None => {
                return None;
            },
        },
        None => None,
    };
    let high = match v.get_opt_value("high") {
        Some(q) => match quality_from_json(q) {
            Some(x) => Some(x),
            None => {
                return None;
            },
        },
        None => None,
    };
    let low = match v.get_opt_value("low") {
        Some(q) => match quality_from_json(q) {
            Some(x) => Some(x),
            None => {
                return None;
            },
        },
        None => None,
    };
    Some(GaanaStreamUrls { medium, high, low })
}

/// Whether a raw track value is well-typed: an object whose typed fields
/// each follow their optional-field rule.  An ill-typed record is dropped
/// whole, never partially read.
pub open spec fn spec_track_ok(v: JsonValue) -> bool {
    &&& v is Obj
    &&& v.spec_str_field_ok("seokey"@)
    &&& v.spec_str_field_ok("albumseokey"@)
    &&& v.spec_str_field_ok("track_title"@)
    &&& v.spec_str_field_ok("album_title"@)
    &&& v.spec_str_field_ok("duration"@)
    &&& v.spec_str_field_ok("popularity"@)
    &&& v.spec_str_field_ok("language"@)
    &&& v.spec_str_field_ok("vendor_name"@)
    &&& v.spec_str_field_ok("release_date"@)
    &&& v.spec_str_field_ok("play_ct"@)
    &&& v.spec_str_field_ok("artwork"@)
    &&& v.spec_str_field_ok("artwork_large"@)
    &&& v.spec_str_field_ok("artwork_web"@)
    &&& v.spec_str_field_ok("gen_url"@)
    &&& v.spec_str_field_ok("album_url"@)
    &&& v.spec_arr_field_ok("artist_detail"@)
    &&& spec_track_urls_ok(v)
}

/// Decode a raw track value into its typed view, or nothing when any typed
/// field breaks its rule.
pub fn track_from_json<'a>(v: &'a JsonValue) -> (r: Option<GaanaTrack<'a>>)
    ensures
        (r is Some) == spec_track_ok(*v),
        r matches Some(t) ==> {
            &&& t.seokey.deep_view() == v.spec_str_field("seokey"@)
            &&& t.album_seokey.deep_view() == v.spec_str_field("albumseokey"@)
            &&& t.title.deep_view() == v.spec_str_field("track_title"@)
            &&& t.album_title.deep_view() == v.spec_str_field("album_title"@)
            &&& t.duration.deep_view() == v.spec_str_field("duration"@)
            &&& t.popularity.deep_view() == v.spec_str_field("popularity"@)
            &&& t.language.deep_view() == v.spec_str_field("language"@)
            &&& t.label.deep_view() == v.spec_str_field("vendor_name"@)
            &&& t.release_date.deep_view() == v.spec_str_field("release_date"@)
            &&& t.play_ct.deep_view() == v.spec_str_field("play_ct"@)
            &&& t.artwork.deep_view() == v.spec_str_field("artwork"@)
            &&& t.artwork_large.deep_view() == v.spec_str_field("artwork_large"@)
            &&& t.artwork_web.deep_view() == v.spec_str_field("artwork_web"@)
            &&& t.gen_url.deep_view() == v.spec_str_field("gen_url"@)
            &&& t.album_url.deep_view() == v.spec_str_field("album_url"@)
            &&& spec_opt_val(t.track_id) == v.spec_val_field("track_id"@)
            &&& spec_opt_val(t.artist) == v.spec_val_field("artist"@)
            &&& spec_opt_val(t.album_id) == v.spec_val_field("album_id"@)
            &&& spec_opt_val(t.genre) == v.spec_val_field("gener"@)
            &&& spec_opt_val(t.explicit_content) == v.spec_val_field("parental_warning"@)
            &&& spec_opt_val(t.favorite_count) == v.spec_val_field("total_favourite_count"@)
            &&& (match t.artist_detail {
                Some(items) => v.spec_arr_field("artist_detail"@) == Some(items@),
                None => v.spec_arr_field("artist_detail"@) is None,
            })
            &&& (match t.urls {
                Some(su) => v.spec_val_field("urls"@) is Some && spec_quality_message(su.medium)
                    == spec_track_token(*v),
                None => v.spec_val_field("urls"@) is None,
            })
        },
{
    if !v.is_obj() {
        return None;
    }
    let seokey = match v.get_opt_str("seokey") {
        Some(f) => f,
        None => {
            return None;
        },
    };
    let album_seokey = match v.get_opt_str("albumseokey") {
        Some(f) => f,
        None => {
            return None;
        },
    };
    let title = match v.get_opt_str("track_title") {
        Some(f) => f,
        None => {
            return None;
        },
    };
    let album_title = match v.get_opt_str("album_title") {
        Some(f) => f,
        None => {
            return None;
        },
    };
    let duration = match v.get_opt_str("duration") {
        Some(f) => f,
        None => {
            return None;
        },
    };
    let popularity = match v.get_opt_str("popularity") {
        Some(f) => f,
        None => {
            return None;
        },
    };
    let language = match v.get_opt_str("language") {
        Some(f) => f,
        None => {
            return None;
        },
    };
    let label = match v.get_opt_str("vendor_name") {
        Some(f) => f,
        None => {
            return None;
        },
    };
    let release_date = match v.get_opt_str("release_date") {
        Some(f) => f,
        None => {
            return None;
        },
    };
    let play_ct = match v.get_opt_str("play_ct") {
        Some(f) => f,
        None => {
            return None;
        },
    };
    let artwork = match v.get_opt_str("artwork") {
        Some(f) => f,
        None => {
            return None;
        },
    };
    let artwork_large = match v.get_opt_str("artwork_large") {
        Some(f) => f,
        None => {
            return None;
        },
    };
    let artwork_web = match v.get_opt_str("artwork_web") {
        Some(f) => f,
        None => {
            return None;
        },
    };
    let gen_url = match v.get_opt_str("gen_url") {
        Some(f) => f,
        None => {
            return None;
        },
    };
    let album_url = match v.get_opt_str("album_url") {
        Some(f) => f,
        None => {
            return None;
        },
    };
    let artist_detail = match v.get_opt_arr("artist_detail") {
        Some(f) => f,
        None => {
            return None;
        },
    };
    let urls = match v.get_opt_value("urls") {
        Some(u) => {
            if !u.is_obj() {
                return None;
            }
            match stream_urls_from_json(u) {
                Some(su) => Some(su),
                None => {
                    return None;
                },
            }
        },
        None => None,
    };
    Some(
        GaanaTrack {
            seokey,
            album_seokey,
            track_id: v.get_opt_value("track_id"),
            title,
            artist: v.get_opt_value("artist"),
            artist_detail,
            album_title,
            album_id: v.get_opt_value("album_id"),
            duration,
            popularity,
            genre: v.get_opt_value("gener"),
            explicit_content: v.get_opt_value("parental_warning"),
            language,
            label,
            release_date,
            play_ct,
            favorite_count: v.get_opt_value("total_favourite_count"),
            artwork,
            artwork_large,
            artwork_web,
            gen_url,
            album_url,
            urls,
        },
    )
}

} // verus!

verus! {

fn clone_opt_string(o: &Option<String>) -> (r: Option<String>)
    ensures
        r == *o,
{
    match o {
        Some(s) => Some(s.clone()),
        None => None,
    }
}

/// The items of an optional borrowed array.
pub open spec fn spec_opt_items(v: Option<&Vec<JsonValue>>) -> Option<Seq<JsonValue>> {
    match v {
        Some(items) => Some(items@),
        None => None,
    }
}

/// The artist image after the `artist_detail` override: when the first
/// detail entry carries an `atw` field, that field wins (and wins as
/// nothing when it is not a string); otherwise the base image stands.
pub open spec fn spec_artist_image(
    detail: Option<Seq<JsonValue>>,
    base: Option<Seq<char>>,
) -> Option<Seq<char>> {
    match detail {
        Some(items) => if items.len() > 0 {
            match items[0].spec_get("atw"@) {
                Some(JsonValue::Str(s)) => Some(s@),
                Some(_) => None,
                None => base,
            }
        } else {
            base
        },
        None => base,
    }
}

/// The medium-quality token of a decoded track view.
pub open spec fn spec_struct_token(urls: Option<GaanaStreamUrls>) -> Option<Seq<char>> {
    match urls {
        Some(su) => spec_quality_message(su.medium),
        None => None,
    }
}

/// Normalize one decoded track into a canonical song.  Nothing is returned
/// unless both required identity fields, `seokey` and `title`, are present;
/// every optional field falls back as the coercion layer dictates.
pub fn process_gaana_track(track: &GaanaTrack) -> (r: Option<Song>)
    ensures
        (r is Some) == (track.seokey is Some && track.title is Some),
        r matches Some(song) ==> {
            &&& song.seokey@ == track.seokey->0@
            &&& song.album_seokey == track.album_seokey
            &&& song.track_id@ == spec_extract_id(spec_opt_val(track.track_id))
            &&& song.title@ == track.title->0@
            &&& song.artists@ == spec_process_artists(spec_opt_val(track.artist)).0
            &&& song.artist_seokeys@ == spec_process_artists(spec_opt_val(track.artist)).1
            &&& song.artist_ids@ == spec_process_artists(spec_opt_val(track.artist)).2
            &&& song.artist_image.deep_view() == spec_artist_image(
                spec_opt_items(track.artist_detail),
                spec_process_artists(spec_opt_val(track.artist)).3,
            )
            &&& song.album == track.album_title
            &&& song.album_id.deep_view() == Some(spec_extract_id(spec_opt_val(track.album_id)))
            &&& song.duration == track.duration
            &&& song.popularity == track.popularity
            &&& song.genres.deep_view() == spec_process_genres(spec_opt_val(track.genre))
            &&& song.is_explicit == spec_extract_int(spec_opt_val(track.explicit_content))
            &&& song.language == track.language
            &&& song.label == track.label
            &&& song.release_date == track.release_date
            &&& song.play_count == track.play_ct
            &&& song.favorite_count == spec_extract_int(spec_opt_val(track.favorite_count))
            &&& song.song_url@ == (match track.gen_url {
                Some(u) => u@,
                None => "https://gaana.com/song/"@ + track.seokey->0@,
            })
            &&& song.album_url == track.album_url
            &&& (match song.images {
                Some(im) => track.artwork is Some && im.large_artwork == track.artwork_large
                    && im.medium_artwork == track.artwork && im.small_artwork == track.artwork_web,
                None => track.artwork is None,
            })
            &&& (match spec_struct_token(track.urls) {
                Some(tok) => song.stream_urls matches Some(su) && spec_stream_urls_of(tok, su),
                None => song.stream_urls is None,
            })
        },
{
    let seokey = match &track.seokey {
        Some(s) => s.clone(),
        None => {
            return None;
        },
    };
    let title = match &track.title {
        Some(s) => s.clone(),
        None => {
            return None;
        },
    };
    let track_id = extract_id(track.track_id);
    let (artists, artist_seokeys, artist_ids, base_image) = process_artists(track.artist);
    let artist_image = match track.artist_detail {
        Some(items) => {
            if items.len() > 0 {
                match items[0].get("atw") {
                    Some(JsonValue::Str(s)) => Some(s.clone()),
                    Some(_) => None,
                    None => base_image,
                }
            } else {
                base_image
            }
        },
        None => base_image,
    };
    let images = match &track.artwork {
        Some(artwork) => Some(
            Images::new(
                clone_opt_string(&track.artwork_large),
                Some(artwork.clone()),
                clone_opt_string(&track.artwork_web),
            ),
        ),
        None => None,
    };
    let stream_urls = match &track.urls {
        Some(urls) => match &urls.medium {
            Some(medium) => match &medium.message {
                Some(encrypted_url) => Some(decrypt_stream_url(encrypted_url.as_str())),
                None => None,
            },
            None => None,
        },
        None => None,
    };
    let song_url = match &track.gen_url {
        Some(u) => u.clone(),
        None => {
            let mut s = String::from_str("https://gaana.com/song/");
            s.append(seokey.as_str());
            s
        },
    };
    Some(
        Song {
            seokey,
            album_seokey: clone_opt_string(&track.album_seokey),
            track_id,
            title,
            artists,
            artist_seokeys,
            artist_ids,
            artist_image,
            album: clone_opt_string(&track.album_title),
            album_id: Some(extract_id(track.album_id)),
            duration: clone_opt_string(&track.duration),
            popularity: clone_opt_string(&track.popularity),
            genres: process_genres(track.genre),
            is_explicit: extract_int(track.explicit_content),
            language: clone_opt_string(&track.language),
            label: clone_opt_string(&track.label),
            release_date: clone_opt_string(&track.release_date),
            play_count: clone_opt_string(&track.play_ct),
            favorite_count: extract_int(track.favorite_count),
            song_url,
            album_url: clone_opt_string(&track.album_url),
            images,
            stream_urls,
        },
    )
}

} // verus!

verus! {

/// A raw track value that yields a song: well-typed, with both required
/// identity fields present.
pub open spec fn spec_track_yields_song(v: JsonValue) -> bool {
    spec_track_ok(v) && v.spec_str_field("seokey"@) is Some && v.spec_str_field("track_title"@)
        is Some
}

/// The canonical song a raw track value normalizes to, field by field.
pub open spec fn spec_song_of_value(v: JsonValue, song: Song) -> bool {
    &&& Some(song.seokey@) == v.spec_str_field("seokey"@)
    &&& song.album_seokey.deep_view() == v.spec_str_field("albumseokey"@)
    &&& song.track_id@ == spec_extract_id(v.spec_val_field("track_id"@))
    &&& Some(song.title@) == v.spec_str_field("track_title"@)
    &&& song.artists@ == spec_process_artists(v.spec_val_field("artist"@)).0
    &&& song.artist_seokeys@ == spec_process_artists(v.spec_val_field("artist"@)).1
    &&& song.artist_ids@ == spec_process_artists(v.spec_val_field("artist"@)).2
    &&& song.artist_image.deep_view() == spec_artist_image(
        v.spec_arr_field("artist_detail"@),
        spec_process_artists(v.spec_val_field("artist"@)).3,
    )
    &&& song.album.deep_view() == v.spec_str_field("album_title"@)
    &&& song.album_id.deep_view() == Some(spec_extract_id(v.spec_val_field("album_id"@)))
    &&& song.duration.deep_view() == v.spec_str_field("duration"@)
    &&& song.popularity.deep_view() == v.spec_str_field("popularity"@)
    &&& song.genres.deep_view() == spec_process_genres(v.spec_val_field("gener"@))
    &&& song.is_explicit == spec_extract_int(v.spec_val_field("parental_warning"@))
    &&& song.language.deep_view() == v.spec_str_field("language"@)
    &&& song.label.deep_view() == v.spec_str_field("vendor_name"@)
    &&& song.release_date.deep_view() == v.spec_str_field("release_date"@)
    &&& song.play_count.deep_view() == v.spec_str_field("play_ct"@)
    &&& song.favorite_count == spec_extract_int(v.spec_val_field("total_favourite_count"@))
    &&& song.song_url@ == (match v.spec_str_field("gen_url"@) {
        Some(u) => u,
        None => "https://gaana.com/song/"@ + song.seokey@,
    })
    &&& song.album_url.deep_view() == v.spec_str_field("album_url"@)
    &&& (match song.images {
        Some(im) => v.spec_str_field("artwork"@) is Some && im.large_artwork.deep_view()
            == v.spec_str_field("artwork_large"@) && im.medium_artwork.deep_view()
            == v.spec_str_field("artwork"@) && im.small_artwork.deep_view() == v.spec_str_field(
            "artwork_web"@,
        ),
        None => v.spec_str_field("artwork"@) is None,
    })
    &&& (match spec_track_token(v) {
        Some(tok) => song.stream_urls matches Some(su) && spec_stream_urls_of(tok, su),
        None => song.stream_urls is None,
    })
}

/// Decode and normalize one raw track value.
pub fn song_from_value(v: &JsonValue) -> (r: Option<Song>)
    ensures
        (r is Some) == spec_track_yields_song(*v),
        r matches Some(song) ==> spec_song_of_value(*v, song),
{
    match track_from_json(v) {
        Some(track) => process_gaana_track(&track),
        None => None,
    }
}

/// How a list of raw track values maps to the songs it yields: every value
/// that yields a song contributes it, in order; the rest are dropped
/// silently, never represented as partially-null entities.
pub open spec fn spec_songs_match(items: Seq<JsonValue>, songs: Seq<Song>) -> bool
    decreases items.len(),
{
    if items.len() == 0 {
        songs.len() == 0
    } else if spec_track_yields_song(items.last()) {
        songs.len() > 0 && spec_song_of_value(items.last(), songs.last()) && spec_songs_match(
            items.take(items.len() - 1),
            songs.take(songs.len() - 1),
        )
    } else {
        spec_songs_match(items.take(items.len() - 1), songs)
    }
}

/// Normalize every track of a detail response's `tracks` array.
pub fn process_song_response(response: &JsonValue) -> (r: Vec<Song>)
    ensures
        match response.spec_get("tracks"@) {
            Some(JsonValue::Arr(items)) => spec_songs_match(items@, r@),
            _ => r@.len() == 0,
        },
{
    let mut songs: Vec<Song> = Vec::new();
    match response.get("tracks") {
        Some(JsonValue::Arr(items)) => {
            let mut i: usize = 0;
            proof {
                assert(items@.take(0) =~= Seq::<JsonValue>::empty());
            }
            while i < items.len()
                invariant
                    i <= items@.len(),
                    spec_songs_match(items@.take(i as int), songs@),
                decreases items@.len() - i,
            {
                let ghost pre = songs@;
                match song_from_value(&items[i]) {
                    Some(song) => songs.push(song),
                    None => {},
                }
                proof {
                    assert(items@.take(i + 1).take(i as int) =~= items@.take(i as int));
                    assert(items@.take(i + 1).last() == items@[i as int]);
                    if spec_track_yields_song(items@[i as int]) {
                        assert(songs@.take(songs@.len() - 1) =~= pre);
                    }
                }
                i = i + 1;
            }
            proof {
                assert(items@.take(items@.len() as int) =~= items@);
            }
            songs
        },
        _ => songs,
    }
}

/// Normalize the first track of a detail response: the record of interest
/// for a single-seokey lookup.  A response whose first track is unusable is
/// a "not found" outcome, never a partially-filled song.
pub fn first_song_in_response(response: &JsonValue) -> (r: Option<Song>)
    ensures
        match response.spec_get("tracks"@) {
            Some(JsonValue::Arr(items)) => if items@.len() > 0 && spec_track_yields_song(
                items@[0],
            ) {
                r matches Some(song) && spec_song_of_value(items@[0], song)
            } else {
                r is None
            },
            _ => r is None,
        },
{
    match response.get("tracks") {
        Some(JsonValue::Arr(items)) => {
            if items.len() > 0 {
                song_from_value(&items[0])
            } else {
                None
            }
        },
        _ => None,
    }
}

/// The songs one optional detail response contributes to a batch: its
/// normalized tracks when it was fetched, none when its fetch failed.
pub open spec fn spec_detail_songs(detail: Option<JsonValue>, songs: Seq<Song>) -> bool {
    match detail {
        Some(v) => match v.spec_get("tracks"@) {
            Some(JsonValue::Arr(items)) => spec_songs_match(items@, songs),
            _ => songs.len() == 0,
        },
        None => songs.len() == 0,
    }
}

/// The number of songs a list of raw track values yields.
pub open spec fn spec_valid_track_count(items: Seq<JsonValue>) -> int
    decreases items.len(),
{
    if items.len() == 0 {
        0
    } else {
        spec_valid_track_count(items.take(items.len() - 1)) + (if spec_track_yields_song(
            items.last(),
        ) {
            1int
        } else {
            0int
        })
    }
}

/// The number of songs one optional detail response contributes.
pub open spec fn spec_detail_song_count(detail: Option<JsonValue>) -> int {
    match detail {
        Some(v) => match v.spec_get("tracks"@) {
            Some(JsonValue::Arr(items)) => spec_valid_track_count(items@),
            _ => 0,
        },
        None => 0,
    }
}

proof fn lemma_songs_match_count(items: Seq<JsonValue>, songs: Seq<Song>)
    requires
        spec_songs_match(items, songs),
    ensures
        songs.len() == spec_valid_track_count(items),
    decreases items.len(),
{
    if items.len() > 0 {
        if spec_track_yields_song(items.last()) {
            lemma_songs_match_count(items.take(items.len() - 1), songs.take(songs.len() - 1));
        } else {
            lemma_songs_match_count(items.take(items.len() - 1), songs);
        }
    }
}

/// How a batch of per-key detail responses assembles into one song list:
/// each response's songs in batch order, failed fetches skipped.
pub open spec fn spec_batch_songs(details: Seq<Option<JsonValue>>, songs: Seq<Song>) -> bool
    decreases details.len(),
{
    if details.len() == 0 {
        songs.len() == 0
    } else {
        let k = songs.len() - spec_detail_song_count(details.last());
        &&& k >= 0
        &&& spec_batch_songs(details.take(details.len() - 1), songs.take(k))
        &&& spec_detail_songs(details.last(), songs.skip(k))
    }
}

/// Assemble the songs of a batch of detail responses, in batch order.  A
/// failed fetch or an unusable record is skipped, never aborting the batch.
pub fn songs_from_details(details: &Vec<Option<JsonValue>>) -> (r: Vec<Song>)
    ensures
        spec_batch_songs(details@, r@),
{
    let mut songs: Vec<Song> = Vec::new();
    let mut i: usize = 0;
    proof {
        assert(details@.take(0) =~= Seq::<Option<JsonValue>>::empty());
    }
    while i < details.len()
        invariant
            i <= details@.len(),
            spec_batch_songs(details@.take(i as int), songs@),
        decreases details@.len() - i,
    {
        let ghost pre = songs@;
        match &details[i] {
            Some(response) => {
                let mut more = process_song_response(response);
                let ghost more0 = more@;
                songs.append(&mut more);
                proof {
                    assert(songs@.take(pre.len() as int) =~= pre);
                    assert(songs@.skip(pre.len() as int) =~= more0);
                }
            },
            None => {},
        }
        proof {
            let d1 = details@.take(i + 1);
            assert(d1.take(i as int) =~= details@.take(i as int));
            assert(d1.last() == details@[i as int]);
            let k = pre.len() as int;
            assert(songs@.take(k) =~= pre);
            if details@[i as int] is None {
                assert(songs@.skip(k) =~= Seq::<Song>::empty());
            }
            assert(spec_detail_songs(d1.last(), songs@.skip(k)));
            match details@[i as int] {
                Some(v) => match v.spec_get("tracks"@) {
                    Some(JsonValue::Arr(arr)) => {
                        lemma_songs_match_count(arr@, songs@.skip(k));
                    },
                    _ => {},
                },
                None => {},
            }
            assert(spec_detail_song_count(d1.last()) == songs@.len() - k);
            assert(spec_batch_songs(d1.take(d1.len() - 1), songs@.take(k)));
            assert(spec_batch_songs(d1, songs@));
        }
        i = i + 1;
    }
    proof {
        assert(details@.take(details@.len() as int) =~= details@);
    }
    songs
}

fn collect_str_fields_limited(items: &Vec<JsonValue>, key: &str, limit: usize) -> (r: Vec<String>)
    ensures
        r.deep_view() == spec_str_fields(
            items@.take(vstd::math::min(limit as int, items@.len() as int)),
            key@,
        ),
{
    let m: usize = if limit < items.len() {
        limit
    } else {
        items.len()
    };
    let ghost prefix = items@.take(m as int);
    let mut r: Vec<String> = Vec::new();
    let mut i: usize = 0;
    proof {
        assert(prefix.skip(0) =~= prefix);
        assert(r.deep_view() + spec_str_fields(prefix, key@) =~= spec_str_fields(prefix, key@));
    }
    while i < m
        invariant
            i <= m <= items@.len(),
            prefix == items@.take(m as int),
            r.deep_view() + spec_str_fields(prefix.skip(i as int), key@) == spec_str_fields(
                prefix,
                key@,
            ),
        decreases m - i,
    {
        let ghost tail = prefix.skip(i as int);
        let ghost dv0 = r.deep_view();
        proof {
            assert(tail[0] == prefix[i as int]);
            assert(prefix[i as int] == items@[i as int]);
            assert(tail.skip(1) =~= prefix.skip(i + 1));
        }
        match items[i].get(key) {
            Some(JsonValue::Str(s)) => {
                r.push(s.clone());
                proof {
                    assert(r.deep_view() =~= dv0 + seq![s@]);
                    assert(dv0 + (seq![s@] + spec_str_fields(prefix.skip(i + 1), key@)) =~= (dv0
                        + seq![s@]) + spec_str_fields(prefix.skip(i + 1), key@));
                }
            },
            _ => {},
        }
        i = i + 1;
    }
    proof {
        assert(prefix.skip(m as int) =~= Seq::<JsonValue>::empty());
        assert(r.deep_view() + Seq::<Seq<char>>::empty() =~= r.deep_view());
    }
    r
}

/// The at most `limit` seo-keys of a grouped search response: grouped
/// results, first group, grouped detail, per-item `seo` field, in order.
pub open spec fn spec_search_keys(response: JsonValue, limit: int) -> Seq<Seq<char>> {
    match response.spec_get("gr"@) {
        Some(JsonValue::Arr(groups)) => if groups@.len() > 0 {
            match groups@[0].spec_get("gd"@) {
                Some(JsonValue::Arr(items)) => spec_str_fields(
                    items@.take(vstd::math::min(limit, items@.len() as int)),
                    "seo"@,
                ),
                _ => Seq::empty(),
            }
        } else {
            Seq::empty()
        },
        _ => Seq::empty(),
    }
}

/// Extract at most `limit` seo-keys from a search response, preserving
/// order and stopping exactly at `limit`.  An empty extraction is the
/// terminal "not found" outcome.
pub fn extract_search_keys(response: &JsonValue, limit: usize) -> (r: Vec<String>)
    ensures
        r.deep_view() == spec_search_keys(*response, limit as int),
{
    let empty: Vec<String> = Vec::new();
    proof {
        assert(empty.deep_view() =~= Seq::<Seq<char>>::empty());
    }
    match response.get("gr") {
        Some(JsonValue::Arr(groups)) => {
            if groups.len() > 0 {
                match groups[0].get("gd") {
                    Some(JsonValue::Arr(items)) => collect_str_fields_limited(items, "seo", limit),
                    _ => empty,
                }
            } else {
                empty
            }
        },
        _ => empty,
    }
}

/// The at most `limit` seokeys of an entity-list response, in order.
pub open spec fn spec_entity_keys(response: JsonValue, limit: int) -> Seq<Seq<char>> {
    match response.spec_get("entities"@) {
        Some(JsonValue::Arr(items)) => spec_str_fields(
            items@.take(vstd::math::min(limit, items@.len() as int)),
            "seokey"@,
        ),
        _ => Seq::empty(),
    }
}

/// Extract at most `limit` entity seokeys from an entity-list response.
pub fn extract_entity_keys(response: &JsonValue, limit: usize) -> (r: Vec<String>)
    ensures
        r.deep_view() == spec_entity_keys(*response, limit as int),
{
    let empty: Vec<String> = Vec::new();
    proof {
        assert(empty.deep_view() =~= Seq::<Seq<char>>::empty());
    }
    match response.get("entities") {
        Some(JsonValue::Arr(items)) => collect_str_fields_limited(items, "seokey", limit),
        _ => empty,
    }
}

} // verus!

verus! {

/// Read a field that counts only when it holds a string, as the detail
/// normalizers do for descriptive fields.
fn str_field(v: &JsonValue, key: &str) -> (r: Option<String>)
    ensures
        r.deep_view() == v.spec_str_field(key@),
{
    match v.get(key) {
        Some(JsonValue::Str(s)) => Some(s.clone()),
        _ => None,
    }
}

/// Normalize one decoded album record; `tracks` passes through unchanged.
pub fn process_gaana_album(album: &GaanaAlbum, tracks: Option<Vec<Song>>) -> (r: Option<Album>)
    ensures
        (r is Some) == (album.seokey is Some && album.title is Some),
        r matches Some(a) ==> {
            &&& a.seokey@ == album.seokey->0@
            &&& a.album_id@ == spec_extract_id(spec_opt_val(album.album_id))
            &&& a.title@ == album.title->0@
            &&& a.artists@ == spec_process_artists(spec_opt_val(album.artist)).0
            &&& a.artist_seokeys@ == spec_process_artists(spec_opt_val(album.artist)).1
            &&& a.artist_ids@ == spec_process_artists(spec_opt_val(album.artist)).2
            &&& a.language == album.language
            &&& a.label == album.label
            &&& a.release_date == album.release_date
            &&& a.play_count == album.play_ct
            &&& a.favorite_count == spec_extract_int(spec_opt_val(album.favorite_count))
            &&& a.album_url@ == (match album.gen_url {
                Some(u) => u@,
                None => "https://gaana.com/album/"@ + album.seokey->0@,
            })
            &&& (match a.images {
                Some(im) => album.artwork is Some && im.large_artwork == album.artwork_large
                    && im.medium_artwork == album.artwork && im.small_artwork == album.artwork_web,
                None => album.artwork is None,
            })
            &&& a.total_tracks == spec_extract_int(spec_opt_val(album.total_tracks))
            &&& a.tracks == tracks
        },
{
    let seokey = match &album.seokey {
        Some(s) => s.clone(),
        None => {
            return None;
        },
    };
    let title = match &album.title {
        Some(s) => s.clone(),
        None => {
            return None;
        },
    };
    let album_id = extract_id(album.album_id);
    let (artists, artist_seokeys, artist_ids) = process_album_artists(album.artist);
    let images = match &album.artwork {
        Some(artwork) => Some(
            Images::new(
                clone_opt_string(&album.artwork_large),
                Some(artwork.clone()),
                clone_opt_string(&album.artwork_web),
            ),
        ),
        None => None,
    };
    let album_url = match &album.gen_url {
        Some(u) => u.clone(),
        None => {
            let mut s = String::from_str("https://gaana.com/album/");
            s.append(seokey.as_str());
            s
        },
    };
    Some(
        Album {
            seokey,
            album_id,
            title,
            artists,
            artist_seokeys,
            artist_ids,
            language: clone_opt_string(&album.language),
            label: clone_opt_string(&album.label),
            release_date: clone_opt_string(&album.release_date),
            play_count: clone_opt_string(&album.play_ct),
            favorite_count: extract_int(album.favorite_count),
            album_url,
            images,
            total_tracks: extract_int(album.total_tracks),
            tracks,
        },
    )
}

/// Normalize one decoded artist record; `top_tracks` passes through.
pub fn process_gaana_artist(artist: &GaanaArtist, top_tracks: Option<Vec<Song>>) -> (r: Option<
    Artist,
>)
    ensures
        (r is Some) == (artist.seokey is Some && artist.name is Some),
        r matches Some(a) ==> {
            &&& a.seokey@ == artist.seokey->0@
            &&& a.artist_id@ == spec_extract_id(spec_opt_val(artist.artist_id))
            &&& a.name@ == artist.name->0@
            &&& a.language == artist.language
            &&& a.play_count == artist.play_ct
            &&& a.favorite_count == spec_extract_int(spec_opt_val(artist.favorite_count))
            &&& a.artist_url@ == (match artist.gen_url {
                Some(u) => u@,
                None => "https://gaana.com/artist/"@ + artist.seokey->0@,
            })
            &&& (match a.images {
                Some(im) => artist.artwork is Some && im.large_artwork == artist.artwork_large
                    && im.medium_artwork == artist.artwork && im.small_artwork
                    == artist.artwork_web,
                None => artist.artwork is None,
            })
            &&& a.top_tracks == top_tracks
        },
{
    let seokey = match &artist.seokey {
        Some(s) => s.clone(),
        None => {
            return None;
        },
    };
    let name = match &artist.name {
        Some(s) => s.clone(),
        None => {
            return None;
        },
    };
    let artist_id = extract_id(artist.artist_id);
    let images = match &artist.artwork {
        Some(artwork) => Some(
            Images::new(
                clone_opt_string(&artist.artwork_large),
                Some(artwork.clone()),
                clone_opt_string(&artist.artwork_web),
            ),
        ),
        None => None,
    };
    let artist_url = match &artist.gen_url {
        Some(u) => u.clone(),
        None => {
            let mut s = String::from_str("https://gaana.com/artist/");
            s.append(seokey.as_str());
            s
        },
    };
    Some(
        Artist {
            seokey,
            artist_id,
            name,
            language: clone_opt_string(&artist.language),
            play_count: clone_opt_string(&artist.play_ct),
            favorite_count: extract_int(artist.favorite_count),
            artist_url,
            images,
            top_tracks,
        },
    )
}

/// Normalize one decoded playlist record; `tracks` passes through.
pub fn process_gaana_playlist(playlist: &GaanaPlaylist, tracks: Option<Vec<Song>>) -> (r: Option<
    Playlist,
>)
    ensures
        (r is Some) == (playlist.seokey is Some && playlist.title is Some),
        r matches Some(p) ==> {
            &&& p.seokey@ == playlist.seokey->0@
            &&& p.playlist_id@ == spec_extract_id(spec_opt_val(playlist.playlist_id))
            &&& p.title@ == playlist.title->0@
            &&& p.description == playlist.description
            &&& p.language == playlist.language
            &&& p.play_count == playlist.play_ct
            &&& p.favorite_count == spec_extract_int(spec_opt_val(playlist.favorite_count))
            &&& p.playlist_url@ == (match playlist.gen_url {
                Some(u) => u@,
                None => "https://gaana.com/playlist/"@ + playlist.seokey->0@,
            })
            &&& (match p.images {
                Some(im) => playlist.artwork is Some && im.large_artwork == playlist.artwork_large
                    && im.medium_artwork == playlist.artwork && im.small_artwork
                    == playlist.artwork_web,
                None => playlist.artwork is None,
            })
            &&& p.total_tracks == spec_extract_int(spec_opt_val(playlist.total_tracks))
            &&& p.tracks == tracks
        },
{
    let seokey = match &playlist.seokey {
        Some(s) => s.clone(),
        None => {
            return None;
        },
    };
    let title = match &playlist.title {
        Some(s) => s.clone(),
        None => {
            return None;
        },
    };
    let playlist_id = extract_id(playlist.playlist_id);
    let images = match &playlist.artwork {
        Some(artwork) => Some(
            Images::new(
                clone_opt_string(&playlist.artwork_large),
                Some(artwork.clone()),
                clone_opt_string(&playlist.artwork_web),
            ),
        ),
        None => None,
    };
    let playlist_url = match &playlist.gen_url {
        Some(u) => u.clone(),
        None => {
            let mut s = String::from_str("https://gaana.com/playlist/");
            s.append(seokey.as_str());
            s
        },
    };
    Some(
        Playlist {
            seokey,
            playlist_id,
            title,
            description: clone_opt_string(&playlist.description),
            language: clone_opt_string(&playlist.language),
            play_count: clone_opt_string(&playlist.play_ct),
            favorite_count: extract_int(playlist.favorite_count),
            playlist_url,
            images,
            total_tracks: extract_int(playlist.total_tracks),
            tracks,
        },
    )
}

} // verus!

verus! {

/// The artist value an album detail response supplies: the album object's
/// own `artist` field; failing that, the `artist` field of the first track
/// of the accompanying track list; failing that, nothing.  The order of
/// this fallback chain is part of the contract.
pub open spec fn spec_album_artist_source(album: JsonValue, response: JsonValue) -> Option<
    JsonValue,
> {
    match album.spec_get("artist"@) {
        Some(a) => Some(a),
        None => match response.spec_get("tracks"@) {
            Some(JsonValue::Arr(items)) => if items@.len() > 0 {
                items@[0].spec_get("artist"@)
            } else {
                None
            },
            _ => None,
        },
    }
}

/// The three joined artist strings an album detail response yields: the
/// fallback chain's value run through artist processing, or empty strings
/// when the chain ends with nothing.
pub open spec fn spec_album_artists(album: JsonValue, response: JsonValue) -> (
    Seq<char>,
    Seq<char>,
    Seq<char>,
) {
    match spec_album_artist_source(album, response) {
        Some(a) => (
            spec_process_artists(Some(a)).0,
            spec_process_artists(Some(a)).1,
            spec_process_artists(Some(a)).2,
        ),
        None => (""@, ""@, ""@),
    }
}

/// An album detail response that yields an album: it has an `album` object
/// whose `seokey` and `title` are strings.
pub open spec fn spec_album_response_ok(response: JsonValue) -> bool {
    match response.spec_get("album"@) {
        Some(album) => album.spec_str_field("seokey"@) is Some && album.spec_str_field("title"@)
            is Some,
        None => false,
    }
}

/// The canonical album an album detail response normalizes to.
pub open spec fn spec_album_of_response(response: JsonValue, include_tracks: bool, a: Album) -> bool {
    let album = response.spec_get("album"@)->0;
    &&& Some(a.seokey@) == album.spec_str_field("seokey"@)
    &&& a.album_id@ == spec_extract_id(album.spec_get("album_id"@))
    &&& Some(a.title@) == album.spec_str_field("title"@)
    &&& a.artists@ == spec_album_artists(album, response).0
    &&& a.artist_seokeys@ == spec_album_artists(album, response).1
    &&& a.artist_ids@ == spec_album_artists(album, response).2
    &&& a.language.deep_view() == album.spec_str_field("language"@)
    &&& a.label.deep_view() == album.spec_str_field("recordlevel"@)
    &&& a.release_date.deep_view() == album.spec_str_field("release_date"@)
    &&& a.play_count.deep_view() == album.spec_str_field("al_play_ct"@)
    &&& a.favorite_count == spec_extract_int(album.spec_get("favorite_count"@))
    &&& a.album_url@ == "https://gaana.com/album/"@ + a.seokey@
    &&& (match a.images {
        Some(im) => album.spec_str_field("artwork"@) matches Some(art) && im.large_artwork.deep_view()
            == Some(spec_replaced(art, "size_s.jpg"@, "size_l.jpg"@)) && im.medium_artwork.deep_view()
            == Some(art) && im.small_artwork.deep_view() == Some(
            spec_replaced(art, "size_s.jpg"@, "size_m.jpg"@),
        ),
        None => album.spec_str_field("artwork"@) is None,
    })
    &&& a.total_tracks == spec_extract_int(album.spec_get("trackcount"@))
    &&& (if include_tracks {
        match a.tracks {
            Some(ts) => ts@.len() > 0 && (match response.spec_get("tracks"@) {
                Some(JsonValue::Arr(items)) => spec_songs_match(items@, ts@),
                _ => false,
            }),
            None => (match response.spec_get("tracks"@) {
                Some(JsonValue::Arr(items)) => spec_valid_track_count(items@) == 0,
                _ => true,
            }),
        }
    } else {
        a.tracks is None
    })
}

/// Normalize an album detail response: the `album` object plus, on request,
/// the accompanying track list.  A record lacking its identity fields is a
/// "not found" outcome, never a partially-filled album.
pub fn process_gaana_album_response(response: &JsonValue, include_tracks: bool) -> (r: Option<
    Album,
>)
    ensures
        (r is Some) == spec_album_response_ok(*response),
        r matches Some(a) ==> spec_album_of_response(*response, include_tracks, a),
{
    let album_data = match response.get("album") {
        Some(a) => a,
        None => {
            return None;
        },
    };
    let seokey = match album_data.get("seokey") {
        Some(JsonValue::Str(s)) => s.clone(),
        _ => {
            return None;
        },
    };
    let title = match album_data.get("title") {
        Some(JsonValue::Str(s)) => s.clone(),
        _ => {
            return None;
        },
    };
    let album_id = extract_id(album_data.get("album_id"));
    let artist_source = match album_data.get("artist") {
        Some(a) => Some(a),
        None => match response.get("tracks") {
            Some(JsonValue::Arr(items)) => {
                if items.len() > 0 {
                    items[0].get("artist")
                } else {
                    None
                }
            },
            _ => None,
        },
    };
    let (artists, artist_seokeys, artist_ids) = match artist_source {
        Some(a) => process_album_artists(Some(a)),
        None => {
            proof {
                reveal_strlit("");
                assert(""@ =~= Seq::<char>::empty());
            }
            (String::new(), String::new(), String::new())
        },
    };
    let images = match album_data.get("artwork") {
        Some(JsonValue::Str(artwork)) => {
            proof {
                reveal_strlit("size_s.jpg");
            }
            Some(
                Images::new(
                    Some(replace_str(artwork.as_str(), "size_s.jpg", "size_l.jpg")),
                    Some(artwork.clone()),
                    Some(replace_str(artwork.as_str(), "size_s.jpg", "size_m.jpg")),
                ),
            )
        },
        _ => None,
    };
    let tracks = if include_tracks {
        let track_list = process_song_response(response);
        proof {
            match response.spec_get("tracks"@) {
                Some(v) => match v {
                    JsonValue::Arr(arr) => {
                        lemma_songs_match_count(arr@, track_list@);
                    },
                    _ => {},
                },
                None => {},
            }
        }
        if track_list.len() > 0 {
            Some(track_list)
        } else {
            None
        }
    } else {
        None
    };
    let mut album_url = String::from_str("https://gaana.com/album/");
    album_url.append(seokey.as_str());
    Some(
        Album {
            seokey,
            album_id,
            title,
            artists,
            artist_seokeys,
            artist_ids,
            language: str_field(album_data, "language"),
            label: str_field(album_data, "recordlevel"),
            release_date: str_field(album_data, "release_date"),
            play_count: str_field(album_data, "al_play_ct"),
            favorite_count: extract_int(album_data.get("favorite_count")),
            album_url,
            images,
            total_tracks: extract_int(album_data.get("trackcount")),
            tracks,
        },
    )
}

/// An artist detail response that yields an artist: its `artist` field is a
/// non-empty array whose first element has string `seokey` and `name`.
pub open spec fn spec_artist_response_ok(response: JsonValue) -> bool {
    match response.spec_get("artist"@) {
        Some(JsonValue::Arr(items)) => items@.len() > 0 && items@[0].spec_str_field("seokey"@)
            is Some && items@[0].spec_str_field("name"@) is Some,
        _ => false,
    }
}

/// The canonical artist an artist detail response normalizes to.  The
/// artist object always sits in an array wrapper, even when logically
/// singular; only its first element counts.
pub open spec fn spec_artist_of_response(response: JsonValue, a: Artist) -> bool {
    let items = response.spec_get("artist"@)->0->Arr_0@;
    let artist = items[0];
    &&& Some(a.seokey@) == artist.spec_str_field("seokey"@)
    &&& a.artist_id@ == spec_extract_id(artist.spec_get("artist_id"@))
    &&& Some(a.name@) == artist.spec_str_field("name"@)
    &&& a.language.deep_view() == artist.spec_str_field("language"@)
    &&& a.play_count.deep_view() == artist.spec_str_field("play_ct"@)
    &&& a.favorite_count == spec_extract_int(artist.spec_get("favorite_count"@))
    &&& a.artist_url@ == "https://gaana.com/artist/"@ + a.seokey@
    &&& (match a.images {
        Some(im) => artist.spec_str_field("atw"@) matches Some(art) && im.large_artwork.deep_view()
            == Some(spec_replaced(art, "size_m"@, "size_l"@)) && im.medium_artwork.deep_view()
            == Some(art) && im.small_artwork.deep_view() == Some(
            spec_replaced(art, "size_m"@, "size_s"@),
        ),
        None => artist.spec_str_field("atw"@) is None,
    })
    &&& a.top_tracks is None
}

/// Normalize an artist detail response.  Top tracks are never populated
/// here: they would take a further upstream call.
pub fn process_gaana_artist_response(response: &JsonValue, include_top_tracks: bool) -> (r: Option<
    Artist,
>)
    ensures
        (r is Some) == spec_artist_response_ok(*response),
        r matches Some(a) ==> spec_artist_of_response(*response, a),
{
    let artist_data = match response.get("artist") {
        Some(JsonValue::Arr(items)) => {
            if items.len() > 0 {
                &items[0]
            } else {
                return None;
            }
        },
        _ => {
            return None;
        },
    };
    let seokey = match artist_data.get("seokey") {
        Some(JsonValue::Str(s)) => s.clone(),
        _ => {
            return None;
        },
    };
    let name = match artist_data.get("name") {
        Some(JsonValue::Str(s)) => s.clone(),
        _ => {
            return None;
        },
    };
    let artist_id = extract_id(artist_data.get("artist_id"));
    let images = match artist_data.get("atw") {
        Some(JsonValue::Str(artwork)) => {
            proof {
                reveal_strlit("size_m");
            }
            Some(
                Images::new(
                    Some(replace_str(artwork.as_str(), "size_m", "size_l")),
                    Some(artwork.clone()),
                    Some(replace_str(artwork.as_str(), "size_m", "size_s")),
                ),
            )
        },
        _ => None,
    };
    let top_tracks: Option<Vec<Song>> = if include_top_tracks {
        None
    } else {
        None
    };
    let mut artist_url = String::from_str("https://gaana.com/artist/");
    artist_url.append(seokey.as_str());
    Some(
        Artist {
            seokey,
            artist_id,
            name,
            language: str_field(artist_data, "language"),
            play_count: str_field(artist_data, "play_ct"),
            favorite_count: extract_int(artist_data.get("favorite_count")),
            artist_url,
            images,
            top_tracks,
        },
    )
}

} // verus!
