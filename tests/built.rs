use http_bridge::request::{start_request, RequestOptions};
use http_bridge::response::transport_failure;

fn options(method: &str, headers: Option<Vec<(String, String)>>, body: Option<&str>) -> RequestOptions {
    RequestOptions {
        method: method.to_string(),
        url: "http://example.com/api/items".to_string(),
        verify: Some(false),
        headers,
        body: body.map(|b| b.to_string()),
    }
}

#[test]
fn built_request_carries_method_url_headers_and_body() {
    let o = options(
        "post",
        Some(vec![("X-Trace".to_string(), "7".to_string())]),
        Some("{\"a\":1}"),
    );
    let req = start_request(o).ok().unwrap().into_builder().build().unwrap();
    assert_eq!(req.method().as_str(), "POST");
    assert_eq!(req.url().as_str(), "http://example.com/api/items");
    assert_eq!(req.headers().get("x-trace").unwrap(), "7");
    let types: Vec<_> = req.headers().get_all("content-type").iter().collect();
    assert_eq!(types, vec!["application/json"]);
    assert_eq!(req.body().unwrap().as_bytes().unwrap(), b"{\"a\":1}");
}

#[test]
fn built_request_keeps_a_given_content_type() {
    let o = options(
        "Put",
        Some(vec![("content-type".to_string(), "text/plain".to_string())]),
        Some("hi"),
    );
    let req = start_request(o).ok().unwrap().into_builder().build().unwrap();
    assert_eq!(req.method().as_str(), "PUT");
    let types: Vec<_> = req.headers().get_all("content-type").iter().collect();
    assert_eq!(types, vec!["text/plain"]);
}

#[test]
fn built_request_without_body_has_no_content_type() {
    let req = start_request(options("delete", None, None)).ok().unwrap().into_builder().build().unwrap();
    assert_eq!(req.method().as_str(), "DELETE");
    assert!(req.headers().get("content-type").is_none());
    assert!(req.body().is_none());
}

#[test]
fn each_method_reaches_the_transport() {
    for (text, expected) in [("get", "GET"), ("PATCH", "PATCH"), ("pOsT", "POST")] {
        let req = start_request(options(text, None, None)).ok().unwrap().into_builder().build().unwrap();
        assert_eq!(req.method().as_str(), expected);
    }
}

#[test]
fn transport_failure_keeps_the_description() {
    let e = reqwest::Client::new().get("not a url").build().unwrap_err();
    let m = transport_failure(&e).message();
    assert!(!m.is_empty());
    assert!(m.starts_with("builder error"));
}
