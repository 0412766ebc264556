use httpie::media::{content_type_of, media_is_json};
use httpie::render::{render_body, render_headers, render_response, render_status_line, ResponseDescriptor};

fn headers(pairs: &[(&str, &str)]) -> Vec<(String, String)> {
    pairs
        .iter()
        .map(|(n, v)| (n.to_string(), v.to_string()))
        .collect()
}

#[test]
fn content_type_is_found_case_insensitively() {
    let hs = headers(&[("X-Other", "1"), ("CONTENT-TYPE", "application/json")]);
    let m = content_type_of(&hs);
    assert_eq!(m.unwrap().essence, "application/json");
}

#[test]
fn content_type_absent_yields_none() {
    let hs = headers(&[("X-Other", "1")]);
    assert!(content_type_of(&hs).is_none());
}

#[test]
fn content_type_unparsable_yields_none() {
    let hs = headers(&[("Content-Type", "not a media type")]);
    assert!(content_type_of(&hs).is_none());
}

#[test]
fn content_type_parameters_are_dropped_from_essence() {
    let hs = headers(&[("Content-Type", "Application/JSON; charset=utf-8")]);
    let m = content_type_of(&hs);
    assert!(media_is_json(&m));
    assert_eq!(m.unwrap().essence, "application/json");
}

#[test]
fn media_is_json_rejects_other_types() {
    let hs = headers(&[("Content-Type", "text/plain; charset=utf-8")]);
    let m = content_type_of(&hs);
    assert!(!media_is_json(&m));
    assert!(!media_is_json(&None));
}

#[test]
fn json_body_is_pretty_printed() {
    let hs = headers(&[("Content-Type", "application/json")]);
    let m = content_type_of(&hs);
    let out = render_body(&m, &"{\"a\":1}".to_string());
    assert_eq!(out, "{\n  \"a\": 1\n}");
    assert!(out.lines().count() > 1);
    assert!(out.contains("\"a\": 1"));
}

#[test]
fn body_without_content_type_is_unchanged() {
    let out = render_body(&None, &"hello".to_string());
    assert_eq!(out, "hello");
}

#[test]
fn declared_json_that_is_not_json_falls_back_to_raw() {
    let hs = headers(&[("Content-Type", "application/json")]);
    let m = content_type_of(&hs);
    let out = render_body(&m, &"not-json".to_string());
    assert_eq!(out, "not-json");
}

#[test]
fn status_line_has_version_and_code() {
    assert_eq!(render_status_line(&"HTTP/1.1".to_string(), 200), "HTTP/1.1 200");
    assert_eq!(render_status_line(&"HTTP/2.0".to_string(), 404), "HTTP/2.0 404");
    assert_eq!(render_status_line(&"HTTP/1.0".to_string(), 5), "HTTP/1.0 5");
}

#[test]
fn headers_render_in_received_order() {
    let hs = headers(&[("b", "2"), ("a", "1")]);
    assert_eq!(render_headers(&hs), "b: 2\na: 1\n");
    assert_eq!(render_headers(&headers(&[])), "");
}

#[test]
fn full_response_has_three_sections() {
    let resp = ResponseDescriptor {
        version: "HTTP/1.1".to_string(),
        status: 200,
        headers: headers(&[("x-test", "1"), ("content-type", "application/json")]),
        body: "{\"ok\":true}".to_string(),
    };
    let out = render_response(&resp);
    assert_eq!(
        out,
        "HTTP/1.1 200\n\nx-test: 1\ncontent-type: application/json\n\n{\n  \"ok\": true\n}\n"
    );
    assert!(out.contains("200"));
    assert!(out.contains("x-test: 1"));
    assert!(out.contains("\"ok\": true"));
}

#[test]
fn full_response_passes_plain_body_through() {
    let resp = ResponseDescriptor {
        version: "HTTP/1.1".to_string(),
        status: 204,
        headers: headers(&[]),
        body: "hello".to_string(),
    };
    assert_eq!(render_response(&resp), "HTTP/1.1 204\n\n\nhello\n");
}
