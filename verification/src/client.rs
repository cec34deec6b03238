//! Upstream response classification.
//!
//! The transport layer performs one POST per request and hands back the
//! status code and body text; everything after that — status check,
//! emptiness, HTML detection, JSON parse — is decided here.  The order of
//! the checks matters: a server returning an HTML error page must stay
//! distinguishable from one returning truncated JSON, since the two point
//! to different causes.

use vstd::prelude::*;
use vstd::string::StrSliceExecFns;
use vstd::string::StringExecFns;

use crate::json::JsonValue;
use crate::text::{contains_str, spec_contains, spec_trimmed, trim_str};

verus! {

/// A classified upstream failure, in detection order.
#[derive(Debug)]
pub enum FetchError {
    /// The request came back with a non-2xx status.
    HttpStatus(u16),
    /// The body was empty after trimming whitespace.
    EmptyBody,
    /// The body looks like an HTML page: the endpoint likely changed.
    UnexpectedHtml,
    /// The body is neither JSON nor HTML; holds a bounded preview of it.
    NotJson(String),
    /// The body looked like JSON but did not parse; holds the parser's
    /// message and the body.
    ParseError(String, String),
}

#[verifier::external_type_specification]
#[verifier::external_body]
pub struct ExValue(serde_json::Value);

/// The JSON tree a given body parses to, if it parses, in the library's
/// JSON model.  Named rather than stated: the JSON grammar and number
/// rendering would take pages.  Parsing is a function of the body text
/// alone.
pub uninterp spec fn spec_json_tree(s: Seq<char>) -> Option<JsonValue>;

/// Converts a parsed serde_json tree into the library's JSON model: a
/// number becomes its decimal rendering, an object its key/value pairs
/// (unique keys, sorted).  Serves only `parse_json` below.
#[verifier::external_body]
fn json_convert(v: &serde_json::Value) -> JsonValue {
    match v {
        serde_json::Value::Null => JsonValue::Null,
        serde_json::Value::Bool(b) => JsonValue::Bool(*b),
        serde_json::Value::Number(n) => JsonValue::Num(n.to_string()),
        serde_json::Value::String(s) => JsonValue::Str(s.clone()),
        serde_json::Value::Array(a) => JsonValue::Arr(a.iter().map(json_convert).collect()),
        serde_json::Value::Object(o) => JsonValue::Obj(
            o.iter().map(|p| (p.0.clone(), json_convert(p.1))).collect(),
        ),
    }
}

/// Relies on `serde_json::from_str::<Value>`: parsing succeeds exactly on
/// valid JSON and is deterministic in the body text alone; the tree is
/// handed over in the library's JSON model.
#[verifier::external_body]
fn parse_json(s: &str) -> (r: Result<JsonValue, String>)
    ensures
        match r {
            Ok(v) => spec_json_tree(s@) == Some(v),
            Err(_) => spec_json_tree(s@) is None,
        },
{
    match serde_json::from_str::<serde_json::Value>(s) {
        Ok(v) => Ok(json_convert(&v)),
        Err(e) => Err(e.to_string()),
    }
}

/// The statuses that count as success: the 2xx range.
pub open spec fn spec_status_success(status: u16) -> bool {
    200 <= status < 300
}

/// Classification of one raw upstream response, by status code and body
/// text.  Returns the parsed JSON tree, or the first failure found in
/// detection order.
pub fn classify_response(status: u16, body: &str) -> (r: Result<JsonValue, FetchError>)
    ensures
        (r is Ok) == (spec_status_success(status) && spec_trimmed(body@).len() > 0 && (spec_trimmed(
            body@,
        )[0] == '{' || spec_trimmed(body@)[0] == '[') && spec_json_tree(body@) is Some),
        r matches Ok(v) ==> spec_json_tree(body@) == Some(v),
        r matches Err(e) ==> match e {
            FetchError::HttpStatus(c) => c == status && !spec_status_success(status),
            FetchError::EmptyBody => spec_status_success(status) && spec_trimmed(body@).len() == 0,
            FetchError::UnexpectedHtml => spec_status_success(status) && spec_trimmed(
                body@,
            ).len() > 0 && spec_trimmed(body@)[0] != '{' && spec_trimmed(body@)[0] != '[' && (
            spec_contains(spec_trimmed(body@), "<html"@) || spec_contains(
                spec_trimmed(body@),
                "<!DOCTYPE"@,
            )),
            FetchError::NotJson(preview) => spec_status_success(status) && spec_trimmed(
                body@,
            ).len() > 0 && spec_trimmed(body@)[0] != '{' && spec_trimmed(body@)[0] != '['
                && !spec_contains(spec_trimmed(body@), "<html"@) && !spec_contains(
                spec_trimmed(body@),
                "<!DOCTYPE"@,
            ) && preview@ == spec_trimmed(body@).take(
                if spec_trimmed(body@).len() < 100 {
                    spec_trimmed(body@).len() as int
                } else {
                    100
                },
            ),
            FetchError::ParseError(_, b) => spec_status_success(status) && spec_trimmed(
                body@,
            ).len() > 0 && (spec_trimmed(body@)[0] == '{' || spec_trimmed(body@)[0] == '[')
                && spec_json_tree(body@) is None && b@ == body@,
        },
{
    if !(status >= 200 && status < 300) {
        return Err(FetchError::HttpStatus(status));
    }
    let trimmed = trim_str(body);
    let n = trimmed.unicode_len();
    if n == 0 {
        return Err(FetchError::EmptyBody);
    }
    let first = trimmed.get_char(0);
    if first != '{' && first != '[' {
        if contains_str(trimmed, "<html") || contains_str(trimmed, "<!DOCTYPE") {
            return Err(FetchError::UnexpectedHtml);
        }
        let end: usize = if n < 100 {
            n
        } else {
            100
        };
        let preview = trimmed.substring_char(0, end);
        return Err(FetchError::NotJson(String::from_str(preview)));
    }
    match parse_json(body) {
        Ok(v) => Ok(v),
        Err(msg) => Err(FetchError::ParseError(msg, String::from_str(body))),
    }
}

} // verus!
