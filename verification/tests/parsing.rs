use httpie::body::{build_body, RequestBody};
use httpie::errors::HttpError;
use httpie::kv::{parse_kv_pair, KvPair};
use httpie::request::{parse_url, plan_request, Method};

#[test]
fn parse_url_works() {
    assert!(parse_url("abc").is_err());
    assert!(parse_url("http://abc.xyz").is_ok());
    assert!(parse_url("https://httpbin.org/post").is_ok());
}

#[test]
fn parse_url_normalizes() {
    let u = parse_url("http://abc.xyz").unwrap();
    assert_eq!(u.text, "http://abc.xyz/");
}

#[test]
fn parse_url_reports_invalid_argument() {
    match parse_url("abc") {
        Err(HttpError::InvalidUrl(arg)) => assert_eq!(arg, "abc"),
        other => panic!("expected InvalidUrl, got {:?}", other),
    }
}

#[test]
fn parse_kv_pair_works() {
    assert!(parse_kv_pair("a").is_err());
    assert_eq!(
        parse_kv_pair("a=1").unwrap(),
        KvPair {
            k: "a".into(),
            v: "1".into()
        }
    );

    assert_eq!(
        parse_kv_pair("b=").unwrap(),
        KvPair {
            k: "b".into(),
            v: "".into()
        }
    );
}

#[test]
fn parse_kv_pair_without_separator_is_malformed() {
    for token in ["", "abc", "no separator here"] {
        match parse_kv_pair(token) {
            Err(HttpError::MalformedPair(t)) => assert_eq!(t, token),
            other => panic!("expected MalformedPair, got {:?}", other),
        }
    }
}

#[test]
fn parse_kv_pair_rejects_empty_key() {
    match parse_kv_pair("=v") {
        Err(HttpError::MalformedPair(t)) => assert_eq!(t, "=v"),
        other => panic!("expected MalformedPair, got {:?}", other),
    }
}

#[test]
fn parse_kv_pair_splits_on_first_separator() {
    let kv = parse_kv_pair("a=b=c").unwrap();
    assert_eq!(kv.k, "a");
    assert_eq!(kv.v, "b=c");
}

#[test]
fn build_body_last_write_wins() {
    let pairs = vec![
        KvPair {
            k: "a".into(),
            v: "1".into(),
        },
        KvPair {
            k: "a".into(),
            v: "2".into(),
        },
    ];
    let body = build_body(&pairs);
    assert_eq!(body.len(), 1);
    let entries = body.entries();
    assert_eq!(entries[0].0, "a");
    assert_eq!(entries[0].1, "2");
}

#[test]
fn build_body_keeps_insertion_order() {
    let pairs = vec![
        KvPair {
            k: "b".into(),
            v: "1".into(),
        },
        KvPair {
            k: "a".into(),
            v: "2".into(),
        },
        KvPair {
            k: "b".into(),
            v: "3".into(),
        },
    ];
    let body = build_body(&pairs);
    assert_eq!(body.to_json(), "{\"b\":\"3\",\"a\":\"2\"}");
}

#[test]
fn to_json_of_empty_body_is_empty_object() {
    let body = RequestBody::new();
    assert_eq!(body.to_json(), "{}");
}

#[test]
fn to_json_escapes_special_characters() {
    let mut body = RequestBody::new();
    body.insert("quote\"key".into(), "back\\slash\nline".into());
    assert_eq!(
        body.to_json(),
        "{\"quote\\\"key\":\"back\\\\slash\\u000aline\"}"
    );
}

#[test]
fn plan_request_get_carries_no_body() {
    let url = parse_url("http://abc.xyz").unwrap();
    let mut body = RequestBody::new();
    body.insert("a".into(), "1".into());
    let plan = plan_request(Method::Get, &url, &body);
    assert_eq!(plan.method, Method::Get);
    assert_eq!(plan.url, "http://abc.xyz/");
    assert!(plan.body.is_none());
}

#[test]
fn plan_request_post_serializes_body() {
    let url = parse_url("http://abc.xyz").unwrap();
    let mut body = RequestBody::new();
    body.insert("a".into(), "1".into());
    let plan = plan_request(Method::Post, &url, &body);
    assert_eq!(plan.method, Method::Post);
    assert_eq!(plan.body.as_deref(), Some("{\"a\":\"1\"}"));
}

#[test]
fn error_messages_name_the_input() {
    let e = HttpError::MalformedPair("abc".into());
    assert_eq!(e.message(), "Failed to parse abc");
    let e = HttpError::InvalidUrl("xyz".into());
    assert_eq!(e.message(), "Invalid URL: xyz");
    let e = HttpError::TransportError("connection refused".into());
    assert_eq!(e.message(), "Transport error: connection refused");
    let e = HttpError::DecodeError("bad bytes".into());
    assert_eq!(e.message(), "Decode error: bad bytes");
}
