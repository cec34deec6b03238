use gaana_core::client::{classify_response, FetchError};
use gaana_core::json::JsonValue;

#[test]
fn non_success_status_is_reported_first() {
    match classify_response(503, "{\"ok\": true}") {
        Err(FetchError::HttpStatus(c)) => assert_eq!(c, 503),
        _ => panic!("expected a status failure"),
    }
}

#[test]
fn empty_body_after_trimming() {
    match classify_response(200, "  \t\r\n ") {
        Err(FetchError::EmptyBody) => {}
        _ => panic!("expected an empty-body failure"),
    }
}

#[test]
fn html_body_is_distinguished() {
    match classify_response(200, "  <html><body>moved</body></html>") {
        Err(FetchError::UnexpectedHtml) => {}
        _ => panic!("expected an HTML failure"),
    }
    match classify_response(200, "<!DOCTYPE html><p>gone</p>") {
        Err(FetchError::UnexpectedHtml) => {}
        _ => panic!("expected an HTML failure"),
    }
}

#[test]
fn non_json_body_carries_preview() {
    match classify_response(200, "  plain text answer") {
        Err(FetchError::NotJson(preview)) => assert_eq!(preview, "plain text answer"),
        _ => panic!("expected a non-JSON failure"),
    }
}

#[test]
fn truncated_json_is_a_parse_error() {
    match classify_response(200, "{\"tracks\": [") {
        Err(FetchError::ParseError(_, body)) => assert_eq!(body, "{\"tracks\": ["),
        _ => panic!("expected a parse failure"),
    }
}

#[test]
fn valid_json_is_parsed_into_the_model() {
    let tree = classify_response(200, " {\"a\": \"b\", \"n\": 7, \"t\": true} ").unwrap();
    match tree.get("a") {
        Some(JsonValue::Str(s)) => assert_eq!(s, "b"),
        _ => panic!("expected a string field"),
    }
    match tree.get("n") {
        Some(JsonValue::Num(t)) => assert_eq!(t, "7"),
        _ => panic!("expected a number field"),
    }
    match tree.get("t") {
        Some(JsonValue::Bool(b)) => assert!(*b),
        _ => panic!("expected a boolean field"),
    }
    assert!(tree.get("missing").is_none());
}

#[test]
fn nested_json_numbers_keep_their_rendering() {
    let tree = classify_response(200, "{\"v\": [42.9, -1, \"x\", null]}").unwrap();
    match tree.get("v") {
        Some(JsonValue::Arr(items)) => {
            assert_eq!(items.len(), 4);
            match &items[0] {
                JsonValue::Num(t) => assert_eq!(t, "42.9"),
                _ => panic!("expected a number"),
            }
            match &items[1] {
                JsonValue::Num(t) => assert_eq!(t, "-1"),
                _ => panic!("expected a number"),
            }
            assert!(matches!(&items[2], JsonValue::Str(_)));
            assert!(matches!(&items[3], JsonValue::Null));
        }
        _ => panic!("expected an array"),
    }
}
