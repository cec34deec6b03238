use gaana_core::formatting::{
    extract_id, extract_int, limit_results, process_artists, process_genres,
    extract_seokey_from_url, validate_language,
};
use gaana_core::json::JsonValue;

fn obj_c(pairs: Vec<(&str, JsonValue)>) -> JsonValue {
    JsonValue::Obj(pairs.into_iter().map(|(k, v)| (k.to_string(), v)).collect())
}

fn s_c(text: &str) -> JsonValue {
    JsonValue::Str(text.to_string())
}

fn n_c(text: &str) -> JsonValue {
    JsonValue::Num(text.to_string())
}

#[test]
fn extract_id_is_total() {
    assert_eq!(extract_id(Some(&s_c("abc"))), "abc");
    assert_eq!(extract_id(Some(&n_c("42"))), "42");
    assert_eq!(extract_id(Some(&n_c("-7"))), "-7");
    assert_eq!(extract_id(Some(&JsonValue::Bool(true))), "0");
    assert_eq!(extract_id(Some(&JsonValue::Null)), "0");
    assert_eq!(extract_id(Some(&JsonValue::Arr(vec![]))), "0");
    assert_eq!(extract_id(Some(&obj_c(vec![]))), "0");
    assert_eq!(extract_id(None), "0");
}

#[test]
fn extract_int_accepts_numbers_and_numeric_strings() {
    assert_eq!(extract_int(Some(&s_c("42"))), Some(42));
    assert_eq!(extract_int(Some(&n_c("42"))), Some(42));
    assert_eq!(extract_int(Some(&n_c("42.9"))), Some(42));
    assert_eq!(extract_int(Some(&n_c("-42.9"))), Some(-42));
    assert_eq!(extract_int(Some(&s_c("-2147483648"))), Some(i32::MIN));
    assert_eq!(extract_int(Some(&s_c("+7"))), Some(7));
}

#[test]
fn extract_int_rejects_everything_else() {
    assert_eq!(extract_int(Some(&s_c("abc"))), None);
    assert_eq!(extract_int(Some(&s_c("42.9"))), None);
    assert_eq!(extract_int(Some(&s_c(""))), None);
    assert_eq!(extract_int(Some(&s_c("2147483648"))), None);
    assert_eq!(extract_int(Some(&JsonValue::Bool(false))), None);
    assert_eq!(extract_int(Some(&JsonValue::Null)), None);
    assert_eq!(extract_int(None), None);
}

#[test]
fn process_artists_joins_parallel_lists() {
    let artists = JsonValue::Arr(vec![
        obj_c(vec![
            ("name", s_c("A")),
            ("seokey", s_c("a")),
            ("artist_id", n_c("1")),
        ]),
        obj_c(vec![
            ("name", s_c("B")),
            ("seokey", s_c("b")),
            ("artist_id", n_c("2")),
        ]),
    ]);
    let (names, seokeys, ids, image) = process_artists(Some(&artists));
    assert_eq!(names, "A, B");
    assert_eq!(seokeys, "a, b");
    assert_eq!(ids, "1, 2");
    assert_eq!(image, None);
}

#[test]
fn process_artists_null_yields_defaults() {
    let (names, seokeys, ids, image) = process_artists(Some(&JsonValue::Null));
    assert_eq!(names, "Unknown Artist");
    assert_eq!(seokeys, "");
    assert_eq!(ids, "0");
    assert_eq!(image, None);
}

#[test]
fn process_artists_single_object() {
    let artist = obj_c(vec![
        ("name", s_c("Solo")),
        ("artist_id", s_c("9")),
        ("artwork", s_c("https://img/size_m.jpg")),
    ]);
    let (names, seokeys, ids, image) = process_artists(Some(&artist));
    assert_eq!(names, "Solo");
    assert_eq!(seokeys, "");
    assert_eq!(ids, "9");
    assert_eq!(image.as_deref(), Some("https://img/size_m.jpg"));
}

#[test]
fn process_artists_takes_first_artwork() {
    let artists = JsonValue::Arr(vec![
        obj_c(vec![("name", s_c("A"))]),
        obj_c(vec![("name", s_c("B")), ("artwork", s_c("img-b"))]),
        obj_c(vec![("name", s_c("C")), ("artwork", s_c("img-c"))]),
    ]);
    let (names, _, _, image) = process_artists(Some(&artists));
    assert_eq!(names, "A, B, C");
    assert_eq!(image.as_deref(), Some("img-b"));
}

#[test]
fn process_genres_shapes() {
    let arr = JsonValue::Arr(vec![
        obj_c(vec![("name", s_c("Pop"))]),
        obj_c(vec![("name", s_c("Rock"))]),
    ]);
    assert_eq!(process_genres(Some(&arr)).as_deref(), Some("Pop, Rock"));
    assert_eq!(process_genres(Some(&s_c("Jazz"))).as_deref(), Some("Jazz"));
    let one = obj_c(vec![("name", s_c("Folk"))]);
    assert_eq!(process_genres(Some(&one)).as_deref(), Some("Folk"));
    let empty = JsonValue::Arr(vec![obj_c(vec![("title", s_c("x"))])]);
    assert_eq!(process_genres(Some(&empty)), None);
    assert_eq!(process_genres(Some(&n_c("3"))), None);
    assert_eq!(process_genres(None), None);
}

#[test]
fn validate_language_allow_list() {
    assert_eq!(validate_language("Tamil"), "Tamil");
    assert_eq!(validate_language("English"), "English");
    assert_eq!(validate_language("tamil"), "Hindi");
    assert_eq!(validate_language("Klingon"), "Hindi");
    assert_eq!(validate_language(""), "Hindi");
}

#[test]
fn extract_seokey_takes_last_segment() {
    assert_eq!(
        extract_seokey_from_url("https://gaana.com/song/abc").as_deref(),
        Some("abc")
    );
    assert_eq!(extract_seokey_from_url("abc").as_deref(), Some("abc"));
    assert_eq!(extract_seokey_from_url("a/b/").as_deref(), Some(""));
}

#[test]
fn limit_results_caps_in_order() {
    let v = vec![1, 2, 3, 4, 5];
    assert_eq!(limit_results(v.clone(), Some(2)), vec![1, 2]);
    assert_eq!(limit_results(v.clone(), Some(9)), vec![1, 2, 3, 4, 5]);
    assert_eq!(limit_results(v.clone(), None), vec![1, 2, 3, 4, 5]);
    let long: Vec<u32> = (0..15).collect();
    assert_eq!(limit_results(long, None), (0..10).collect::<Vec<u32>>());
}
