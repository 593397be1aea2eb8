use http_bridge::method::{method_from_upper, parse_method, HttpMethod};
use http_bridge::request::{prepare_request, start_request, RequestError, RequestOptions};
use http_bridge::text::{eq_ignore_ascii_case, str_equal};

fn options(method: &str) -> RequestOptions {
    RequestOptions {
        method: method.to_string(),
        url: "http://localhost:1/".to_string(),
        verify: None,
        headers: None,
        body: None,
    }
}

#[test]
fn every_method_in_any_casing_is_dispatched() {
    let cases = [
        ("GET", HttpMethod::Get),
        ("get", HttpMethod::Get),
        ("Post", HttpMethod::Post),
        ("pUt", HttpMethod::Put),
        ("delete", HttpMethod::Delete),
        ("PaTcH", HttpMethod::Patch),
    ];
    for (text, expected) in cases {
        assert_eq!(parse_method(text), Some(expected));
        let prepared = prepare_request(options(text)).ok().unwrap();
        assert_eq!(prepared.method, expected);
    }
}

#[test]
fn method_names_are_upper_case() {
    assert_eq!(HttpMethod::Get.name(), "GET");
    assert_eq!(HttpMethod::Post.name(), "POST");
    assert_eq!(HttpMethod::Put.name(), "PUT");
    assert_eq!(HttpMethod::Delete.name(), "DELETE");
    assert_eq!(HttpMethod::Patch.name(), "PATCH");
}

#[test]
fn dispatch_on_upper_case_names_is_exact() {
    assert_eq!(method_from_upper("PATCH"), Some(HttpMethod::Patch));
    assert_eq!(method_from_upper("patch"), None);
    assert_eq!(method_from_upper("PATCHX"), None);
}

#[test]
fn other_methods_are_unsupported() {
    for text in ["HEAD", "options", "", "GETX", "CONNECT", " GET"] {
        assert_eq!(parse_method(text), None);
        let r = prepare_request(options(text));
        assert!(matches!(r, Err(RequestError::UnsupportedMethod)));
    }
}

#[test]
fn unsupported_method_is_reported_before_any_client_is_built() {
    let r = start_request(options("TRACE"));
    assert!(matches!(r, Err(RequestError::UnsupportedMethod)));
}

#[test]
fn supported_method_builds_a_request() {
    let mut o = options("post");
    o.body = Some("{}".to_string());
    o.headers = Some(vec![("X-Trace".to_string(), "1".to_string())]);
    assert!(start_request(o).is_ok());
    let mut o = options("get");
    o.verify = Some(false);
    assert!(start_request(o).is_ok());
}

#[test]
fn unsupported_method_message() {
    assert_eq!(RequestError::UnsupportedMethod.message(), "不支持的HTTP方法");
    assert_eq!(RequestError::Transport("dns error".to_string()).message(), "dns error");
    assert_eq!(RequestError::ClientBuild("no tls".to_string()).message(), "no tls");
}

#[test]
fn string_comparisons() {
    assert!(str_equal("Content-Type", "Content-Type"));
    assert!(!str_equal("Content-Type", "content-type"));
    assert!(!str_equal("abc", "abcd"));
    assert!(eq_ignore_ascii_case("Content-Type", "CONTENT-type"));
    assert!(!eq_ignore_ascii_case("Content-Type", "Content_Type"));
    assert!(!eq_ignore_ascii_case("é", "É"));
    assert!(eq_ignore_ascii_case("", ""));
}
