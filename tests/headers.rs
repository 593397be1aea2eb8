use http_bridge::headers::{assemble_headers, flatten_headers, has_header};
use http_bridge::request::{prepare_request, RequestOptions};
use http_bridge::response::{finish_response, normalize_head, ApiResponse};
use http_bridge::request::RequestError;

fn pair(k: &str, v: &str) -> (String, String) {
    (k.to_string(), v.to_string())
}

fn raw(k: &str, v: Option<&str>) -> (String, Option<String>) {
    (k.to_string(), v.map(|s| s.to_string()))
}

#[test]
fn body_without_content_type_gets_json() {
    let h = assemble_headers(Some(vec![pair("Accept", "*/*")]), true);
    assert_eq!(h, vec![pair("Accept", "*/*"), pair("Content-Type", "application/json")]);
    let h = assemble_headers(None, true);
    assert_eq!(h, vec![pair("Content-Type", "application/json")]);
}

#[test]
fn given_content_type_is_kept_and_not_duplicated() {
    let given = vec![pair("Content-Type", "text/plain")];
    assert_eq!(assemble_headers(Some(given.clone()), true), given);
    let lower = vec![pair("content-type", "text/xml"), pair("A", "b")];
    assert_eq!(assemble_headers(Some(lower.clone()), true), lower);
}

#[test]
fn no_body_no_content_type() {
    assert_eq!(assemble_headers(None, false), Vec::<(String, String)>::new());
    let given = vec![pair("Accept", "*/*")];
    assert_eq!(assemble_headers(Some(given.clone()), false), given);
}

#[test]
fn header_lookup_ignores_ascii_case() {
    let h = vec![pair("X-One", "1"), pair("CONTENT-TYPE", "a")];
    assert!(has_header(&h, "Content-Type"));
    assert!(has_header(&h, "x-one"));
    assert!(!has_header(&h, "X-Two"));
    assert!(!has_header(&Vec::new(), "X-One"));
}

#[test]
fn verification_defaults_on() {
    let base = |verify: Option<bool>| RequestOptions {
        method: "GET".to_string(),
        url: "https://self-signed.example/".to_string(),
        verify,
        headers: None,
        body: None,
    };
    assert!(!prepare_request(base(None)).ok().unwrap().accept_invalid_certs);
    assert!(!prepare_request(base(Some(true))).ok().unwrap().accept_invalid_certs);
    assert!(prepare_request(base(Some(false))).ok().unwrap().accept_invalid_certs);
}

#[test]
fn prepared_request_keeps_url_and_body() {
    let p = prepare_request(RequestOptions {
        method: "put".to_string(),
        url: "http://example.com/items/7".to_string(),
        verify: Some(true),
        headers: Some(vec![pair("Authorization", "Bearer t")]),
        body: Some("{\"n\":7}".to_string()),
    })
    .ok()
    .unwrap();
    assert_eq!(p.url, "http://example.com/items/7");
    assert_eq!(p.body, Some("{\"n\":7}".to_string()));
    assert_eq!(
        p.headers,
        vec![pair("Authorization", "Bearer t"), pair("Content-Type", "application/json")]
    );
}

#[test]
fn repeated_header_keeps_last_value() {
    let h = flatten_headers(&vec![
        raw("x-test", Some("first")),
        raw("date", Some("today")),
        raw("x-test", Some("second")),
    ]);
    assert_eq!(h.iter().filter(|(k, _)| k == "x-test").count(), 1);
    assert!(h.contains(&pair("x-test", "second")));
    assert!(h.contains(&pair("date", "today")));
    assert_eq!(h.len(), 2);
}

#[test]
fn undecodable_header_value_reads_empty() {
    let h = flatten_headers(&vec![raw("x-bin", None), raw("x-ok", Some("v"))]);
    assert_eq!(h, vec![pair("x-bin", ""), pair("x-ok", "v")]);
    assert!(flatten_headers(&Vec::new()).is_empty());
}

#[test]
fn echo_round_trip() {
    let body = "{\"a\":1}";
    let p = prepare_request(RequestOptions {
        method: "POST".to_string(),
        url: "http://127.0.0.1:8080/echo".to_string(),
        verify: None,
        headers: None,
        body: Some(body.to_string()),
    })
    .ok()
    .unwrap();
    let content_type = p.headers.iter().find(|(k, _)| k == "Content-Type").unwrap().1.clone();
    // The echo server answers with what it received.
    let echoed = vec![
        raw("content-type", Some(content_type.as_str())),
        raw("content-length", Some("7")),
    ];
    let head = normalize_head(200, &echoed);
    let r: ApiResponse = finish_response(head, Ok(p.body.clone().unwrap())).ok().unwrap();
    assert_eq!(r.status, 200);
    assert_eq!(r.body, "{\"a\":1}");
    assert!(r.headers.contains(&pair("content-type", "application/json")));
}

#[test]
fn body_read_failure_is_a_transport_error() {
    let head = normalize_head(200, &vec![raw("a", Some("b"))]);
    match finish_response(head, Err("connection reset".to_string())) {
        Err(RequestError::Transport(m)) => assert_eq!(m, "connection reset"),
        _ => panic!("expected a transport error"),
    }
}
