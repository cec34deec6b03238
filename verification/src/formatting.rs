//! Defensive coercion utilities: typed scalars and compound strings out of
//! ambiguous JSON, never failing on an unexpected shape.

use vstd::prelude::*;
use vstd::string::StrSliceExecFns;
use vstd::string::StringExecFns;

use crate::json::JsonValue;
use crate::text::{
    join_strings, num_text_int, parse_i32, spec_joined, spec_num_trunc, spec_parsed_i32, str_eq,
};

verus! {

/// Dereference an optional borrowed JSON value for use in contracts.
pub open spec fn spec_opt_val(v: Option<&JsonValue>) -> Option<JsonValue> {
    match v {
        Some(x) => Some(*x),
        None => None,
    }
}

/// What `extract_id` returns: a string or number passes through as text,
/// anything else becomes `"0"`.
pub open spec fn spec_extract_id(v: Option<JsonValue>) -> Seq<char> {
    match v {
        Some(JsonValue::Str(s)) => s@,
        Some(JsonValue::Num(t)) => t@,
        _ => "0"@,
    }
}

/// Extract an id from a JSON value that may be a string or a number.
/// Total: any other shape, including absence, yields `"0"`.
pub fn extract_id(value: Option<&JsonValue>) -> (r: String)
    ensures
        r@ == spec_extract_id(spec_opt_val(value)),
{
    match value {
        Some(JsonValue::Str(s)) => s.clone(),
        Some(JsonValue::Num(t)) => t.clone(),
        _ => String::from_str("0"),
    }
}

/// What `extract_int` returns: a number is truncated to its integer part, a
/// string is accepted only if it parses cleanly as an `i32`, anything else
/// is absent.
pub open spec fn spec_extract_int(v: Option<JsonValue>) -> Option<i32> {
    match v {
        Some(JsonValue::Num(t)) => match spec_num_trunc(t@) {
            Some(n) => if i32::MIN <= n <= i32::MAX {
                Some(n as i32)
            } else {
                None::<i32>
            },
            None => None::<i32>,
        },
        Some(JsonValue::Str(s)) => spec_parsed_i32(s@),
        _ => None::<i32>,
    }
}

/// Extract an integer from a JSON value that may be a number or a numeric
/// string.  Total: any other shape yields absence, never an error.
pub fn extract_int(value: Option<&JsonValue>) -> (r: Option<i32>)
    ensures
        r == spec_extract_int(spec_opt_val(value)),
{
    match value {
        Some(JsonValue::Num(t)) => num_text_int(t.as_str()),
        Some(JsonValue::Str(s)) => parse_i32(s.as_str()),
        _ => None,
    }
}

/// The `key` fields of the objects of `items` that hold strings, in order.
pub open spec fn spec_str_fields(items: Seq<JsonValue>, key: Seq<char>) -> Seq<Seq<char>>
    decreases items.len(),
{
    if items.len() == 0 {
        Seq::empty()
    } else {
        let rest = spec_str_fields(items.skip(1), key);
        match items[0].spec_get(key) {
            Some(JsonValue::Str(s)) => seq![s@] + rest,
            _ => rest,
        }
    }
}

/// `extract_id` of each `key` field that is present, in order.
pub open spec fn spec_id_fields(items: Seq<JsonValue>, key: Seq<char>) -> Seq<Seq<char>>
    decreases items.len(),
{
    if items.len() == 0 {
        Seq::empty()
    } else {
        let rest = spec_id_fields(items.skip(1), key);
        match items[0].spec_get(key) {
            Some(v) => seq![spec_extract_id(Some(v))] + rest,
            None => rest,
        }
    }
}

/// The first `key` field among `items` that holds a string.
pub open spec fn spec_first_str_field(items: Seq<JsonValue>, key: Seq<char>) -> Option<Seq<char>>
    decreases items.len(),
{
    if items.len() == 0 {
        None
    } else {
        match items[0].spec_get(key) {
            Some(JsonValue::Str(s)) => Some(s@),
            _ => spec_first_str_field(items.skip(1), key),
        }
    }
}

/// Collect the `key` fields of `items` that hold strings, in order.
pub fn collect_str_fields(items: &Vec<JsonValue>, key: &str) -> (r: Vec<String>)
    ensures
        r.deep_view() == spec_str_fields(items@, key@),
{
    let mut r: Vec<String> = Vec::new();
    let mut i: usize = 0;
    proof {
        assert(items@.skip(0) =~= items@);
        assert(r.deep_view() + spec_str_fields(items@, key@) =~= spec_str_fields(items@, key@));
    }
    while i < items.len()
        invariant
            i <= items@.len(),
            r.deep_view() + spec_str_fields(items@.skip(i as int), key@) == spec_str_fields(
                items@,
                key@,
            ),
        decreases items@.len() - i,
    {
        let ghost tail = items@.skip(i as int);
        let ghost dv0 = r.deep_view();
        proof {
            assert(tail[0] == items@[i as int]);
            assert(tail.skip(1) =~= items@.skip(i + 1));
        }
        match items[i].get(key) {
            Some(JsonValue::Str(s)) => {
                r.push(s.clone());
                proof {
                    assert(r.deep_view() =~= dv0 + seq![s@]);
                    assert(dv0 + (seq![s@] + spec_str_fields(items@.skip(i + 1), key@)) =~= (dv0
                        + seq![s@]) + spec_str_fields(items@.skip(i + 1), key@));
                }
            },
            _ => {},
        }
        i = i + 1;
    }
    proof {
        assert(items@.skip(items@.len() as int) =~= Seq::<JsonValue>::empty());
        assert(r.deep_view() + Seq::<Seq<char>>::empty() =~= r.deep_view());
    }
    r
}

fn collect_id_fields(items: &Vec<JsonValue>, key: &str) -> (r: Vec<String>)
    ensures
        r.deep_view() == spec_id_fields(items@, key@),
{
    let mut r: Vec<String> = Vec::new();
    let mut i: usize = 0;
    proof {
        assert(items@.skip(0) =~= items@);
        assert(r.deep_view() + spec_id_fields(items@, key@) =~= spec_id_fields(items@, key@));
    }
    while i < items.len()
        invariant
            i <= items@.len(),
            r.deep_view() + spec_id_fields(items@.skip(i as int), key@) == spec_id_fields(
                items@,
                key@,
            ),
        decreases items@.len() - i,
    {
        let ghost tail = items@.skip(i as int);
        let ghost dv0 = r.deep_view();
        proof {
            assert(tail[0] == items@[i as int]);
            assert(tail.skip(1) =~= items@.skip(i + 1));
        }
        match items[i].get(key) {
            Some(v) => {
                let id = extract_id(Some(v));
                r.push(id);
                proof {
                    assert(r.deep_view() =~= dv0 + seq![spec_extract_id(Some(*v))]);
                    assert(dv0 + (seq![spec_extract_id(Some(*v))] + spec_id_fields(
                        items@.skip(i + 1),
                        key@,
                    )) =~= (dv0 + seq![spec_extract_id(Some(*v))]) + spec_id_fields(
                        items@.skip(i + 1),
                        key@,
                    ));
                }
            },
            None => {},
        }
        i = i + 1;
    }
    proof {
        assert(items@.skip(items@.len() as int) =~= Seq::<JsonValue>::empty());
        assert(r.deep_view() + Seq::<Seq<char>>::empty() =~= r.deep_view());
    }
    r
}

fn first_str_field(items: &Vec<JsonValue>, key: &str) -> (r: Option<String>)
    ensures
        r.deep_view() == spec_first_str_field(items@, key@),
{
    let mut i: usize = 0;
    proof {
        assert(items@.skip(0) =~= items@);
    }
    while i < items.len()
        invariant
            i <= items@.len(),
            spec_first_str_field(items@.skip(i as int), key@) == spec_first_str_field(
                items@,
                key@,
            ),
        decreases items@.len() - i,
    {
        proof {
            assert(items@.skip(i as int)[0] == items@[i as int]);
            assert(items@.skip(i as int).skip(1) =~= items@.skip(i + 1));
        }
        match items[i].get(key) {
            Some(JsonValue::Str(s)) => {
                return Some(s.clone());
            },
            _ => {},
        }
        i = i + 1;
    }
    proof {
        assert(items@.skip(items@.len() as int) =~= Seq::<JsonValue>::empty());
    }
    None
}

/// What `process_artists` returns for each of its four input shapes: joined
/// parallel name/seokey/id lists plus a representative image for an array,
/// single-object extraction with defaults for an object, and the
/// `("Unknown Artist", "", "0", none)` fallback for anything else.
pub open spec fn spec_process_artists(v: Option<JsonValue>) -> (Seq<char>, Seq<char>, Seq<char>, Option<Seq<char>>) {
    match v {
        Some(JsonValue::Arr(items)) => (
            spec_joined(spec_str_fields(items@, "name"@), ", "@),
            spec_joined(spec_str_fields(items@, "seokey"@), ", "@),
            spec_joined(spec_id_fields(items@, "artist_id"@), ", "@),
            spec_first_str_field(items@, "artwork"@),
        ),
        Some(JsonValue::Obj(pairs)) => {
            let o = JsonValue::Obj(pairs);
            (
                match o.spec_get("name"@) {
                    Some(JsonValue::Str(s)) => s@,
                    _ => "Unknown Artist"@,
                },
                match o.spec_get("seokey"@) {
                    Some(JsonValue::Str(s)) => s@,
                    _ => ""@,
                },
                spec_extract_id(o.spec_get("artist_id"@)),
                match o.spec_get("artwork"@) {
                    Some(JsonValue::Str(s)) => Some(s@),
                    _ => None,
                },
            )
        },
        _ => ("Unknown Artist"@, ""@, "0"@, None),
    }
}

/// Process artist information: polymorphic over an array of artist objects,
/// a single artist object, or anything else.  Returns comma-joined parallel
/// names, seokeys and ids, and the first artwork found.
pub fn process_artists(value: Option<&JsonValue>) -> (r: (String, String, String, Option<String>))
    ensures
        r.0@ == spec_process_artists(spec_opt_val(value)).0,
        r.1@ == spec_process_artists(spec_opt_val(value)).1,
        r.2@ == spec_process_artists(spec_opt_val(value)).2,
        r.3.deep_view() == spec_process_artists(spec_opt_val(value)).3,
{
    match value {
        Some(JsonValue::Arr(items)) => {
            let names = collect_str_fields(items, "name");
            let seokeys = collect_str_fields(items, "seokey");
            let ids = collect_id_fields(items, "artist_id");
            let artist_image = first_str_field(items, "artwork");
            (
                join_strings(&names, ", "),
                join_strings(&seokeys, ", "),
                join_strings(&ids, ", "),
                artist_image,
            )
        },
        Some(o) if o.is_obj() => {
            let name = match o.get("name") {
                Some(JsonValue::Str(s)) => s.clone(),
                _ => String::from_str("Unknown Artist"),
            };
            let seokey = match o.get("seokey") {
                Some(JsonValue::Str(s)) => s.clone(),
                _ => String::from_str(""),
            };
            let id = extract_id(o.get("artist_id"));
            let artwork = match o.get("artwork") {
                Some(JsonValue::Str(s)) => Some(s.clone()),
                _ => None,
            };
            (name, seokey, id, artwork)
        },
        _ => (
            String::from_str("Unknown Artist"),
            String::from_str(""),
            String::from_str("0"),
            None,
        ),
    }
}

/// Process album artist information: `process_artists` without the image.
pub fn process_album_artists(value: Option<&JsonValue>) -> (r: (String, String, String))
    ensures
        r.0@ == spec_process_artists(spec_opt_val(value)).0,
        r.1@ == spec_process_artists(spec_opt_val(value)).1,
        r.2@ == spec_process_artists(spec_opt_val(value)).2,
{
    let (names, seokeys, ids, _) = process_artists(value);
    (names, seokeys, ids)
}

/// What `process_genres` returns: genre-object names joined for an array
/// (absent when none), a string passed through, a single object's name,
/// absent otherwise.
pub open spec fn spec_process_genres(v: Option<JsonValue>) -> Option<Seq<char>> {
    match v {
        Some(JsonValue::Arr(items)) => {
            let names = spec_str_fields(items@, "name"@);
            if names.len() == 0 {
                None
            } else {
                Some(spec_joined(names, ", "@))
            }
        },
        Some(JsonValue::Str(s)) => Some(s@),
        Some(JsonValue::Obj(pairs)) => match JsonValue::Obj(pairs).spec_get("name"@) {
            Some(JsonValue::Str(s)) => Some(s@),
            _ => None,
        },
        _ => None,
    }
}

/// Process genre information: an array of genre objects, a plain string, or
/// a single genre object.
pub fn process_genres(value: Option<&JsonValue>) -> (r: Option<String>)
    ensures
        r.deep_view() == spec_process_genres(spec_opt_val(value)),
{
    match value {
        Some(JsonValue::Arr(items)) => {
            let names = collect_str_fields(items, "name");
            if names.len() == 0 {
                None
            } else {
                Some(join_strings(&names, ", "))
            }
        },
        Some(JsonValue::Str(s)) => Some(s.clone()),
        Some(o) if o.is_obj() => match o.get("name") {
            Some(JsonValue::Str(s)) => Some(s.clone()),
            _ => None,
        },
        _ => None,
    }
}

/// The twelve language names the catalog accepts unchanged.
pub open spec fn spec_valid_language(s: Seq<char>) -> bool {
    ||| s == "English"@
    ||| s == "Hindi"@
    ||| s == "Punjabi"@
    ||| s == "Telugu"@
    ||| s == "Tamil"@
    ||| s == "Bengali"@
    ||| s == "Gujarati"@
    ||| s == "Kannada"@
    ||| s == "Malayalam"@
    ||| s == "Marathi"@
    ||| s == "Odia"@
    ||| s == "Assamese"@
}

/// Validate a language parameter against the closed allow-list; anything
/// else is replaced by the default, with no case folding or partial match.
pub fn validate_language(lang: &str) -> (r: String)
    ensures
        r@ == if spec_valid_language(lang@) {
            lang@
        } else {
            "Hindi"@
        },
{
    if str_eq(lang, "English") || str_eq(lang, "Hindi") || str_eq(lang, "Punjabi") || str_eq(
        lang,
        "Telugu",
    ) || str_eq(lang, "Tamil") || str_eq(lang, "Bengali") || str_eq(lang, "Gujarati") || str_eq(
        lang,
        "Kannada",
    ) || str_eq(lang, "Malayalam") || str_eq(lang, "Marathi") || str_eq(lang, "Odia") || str_eq(
        lang,
        "Assamese",
    ) {
        String::from_str(lang)
    } else {
        String::from_str("Hindi")
    }
}

/// The suffix of `s` after its last `/`; all of `s` when it has none.
pub open spec fn spec_after_last_slash(s: Seq<char>) -> Seq<char>
    decreases s.len(),
{
    if s.len() > 0 && s.last() != '/' {
        spec_after_last_slash(s.take(s.len() - 1)) + seq![s.last()]
    } else {
        Seq::empty()
    }
}

proof fn lemma_after_last_slash(s: Seq<char>, m: int)
    requires
        0 <= m <= s.len(),
        forall|k: int| m <= k < s.len() ==> s[k] != '/',
        m == 0 || s[m - 1] == '/',
    ensures
        spec_after_last_slash(s) == s.skip(m),
    decreases s.len() - m,
{
    if m == s.len() {
        if m == 0 {
            assert(s.skip(0) =~= s);
            assert(s =~= Seq::<char>::empty());
        } else {
            assert(s.last() == '/');
            assert(s.skip(m) =~= Seq::<char>::empty());
        }
    } else {
        assert(s.last() != '/');
        let b = s.take(s.len() - 1);
        assert forall|k: int| m <= k < b.len() implies b[k] != '/' by {
            assert(b[k] == s[k]);
        }
        if m > 0 {
            assert(b[m - 1] == s[m - 1]);
        }
        lemma_after_last_slash(b, m);
        assert(b.skip(m) + seq![s.last()] =~= s.skip(m));
    }
}

/// Extract the catalog seokey from a record URL: the segment after the last
/// slash, or the whole URL when it has no slash.  Always present.
pub fn extract_seokey_from_url(url: &str) -> (r: Option<String>)
    ensures
        r.deep_view() == Some(spec_after_last_slash(url@)),
{
    let n = url.unicode_len();
    let mut idx: usize = n;
    let mut stopped = false;
    while !stopped && idx > 0
        invariant
            0 <= idx <= n,
            n == url@.len(),
            forall|k: int| idx <= k < n ==> url@[k] != '/',
            stopped ==> idx > 0 && url@[idx - 1] == '/',
        decreases idx, (if stopped { 0int } else { 1int }),
    {
        let c = url.get_char(idx - 1);
        if c == '/' {
            stopped = true;
        } else {
            idx = idx - 1;
        }
    }
    proof {
        lemma_after_last_slash(url@, idx as int);
    }
    let seg = url.substring_char(idx, n);
    proof {
        assert(seg@ =~= url@.skip(idx as int));
    }
    Some(String::from_str(seg))
}

/// Keep the first `limit` results (ten when unspecified), in order.
pub fn limit_results<T>(results: Vec<T>, limit: Option<usize>) -> (r: Vec<T>)
    ensures
        r@ == results@.take(vstd::math::min(
            match limit {
                Some(l) => l as int,
                None => 10,
            },
            results@.len() as int,
        )),
{
    let lim: usize = match limit {
        Some(l) => l,
        None => 10,
    };
    let mut v = results;
    let ghost orig = v@;
    proof {
        assert(orig.take(orig.len() as int) =~= orig);
    }
    while v.len() > lim
        invariant
            v@.len() <= orig.len(),
            v@.len() >= vstd::math::min(lim as int, orig.len() as int),
            v@ == orig.take(v@.len() as int),
        decreases v@.len(),
    {
        let ghost pre = v@;
        v.pop();
        proof {
            assert(v@ =~= orig.take(pre.len() - 1));
        }
    }
    v
}

} // verus!
