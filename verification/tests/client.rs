use http_client::errors::ClientError;
use http_client::headers::{build_headers, parse_key_val};
use http_client::present::{
    render_outcome, u16_to_decimal, Presentation, ResponseView, TransportFailure,
};
use http_client::request::{build_request, Body, Method};
use http_client::url::ensure_url_prefix;
use http_client::REQUEST_TIMEOUT_SECS;

#[test]
fn parse_splits_on_first_eq() {
    let (k, v) = parse_key_val("a=b=c").unwrap();
    assert_eq!(k, "a");
    assert_eq!(v, "b=c");
}

#[test]
fn parse_keeps_empty_sides() {
    let (k, v) = parse_key_val("=v").unwrap();
    assert_eq!(k, "");
    assert_eq!(v, "v");
    let (k, v) = parse_key_val("k=").unwrap();
    assert_eq!(k, "k");
    assert_eq!(v, "");
}

#[test]
fn parse_without_eq_is_argument_error() {
    assert_eq!(parse_key_val("noequals"), Err(ClientError::ArgumentError));
    assert_eq!(parse_key_val(""), Err(ClientError::ArgumentError));
}

#[test]
fn normalize_prepends_http() {
    assert_eq!(ensure_url_prefix("example.com"), "http://example.com");
    assert_eq!(ensure_url_prefix(""), "http://");
}

#[test]
fn normalize_is_idempotent() {
    assert_eq!(ensure_url_prefix("http://example.com"), "http://example.com");
    assert_eq!(ensure_url_prefix("https://example.com"), "https://example.com");
    let once = ensure_url_prefix("example.com");
    assert_eq!(ensure_url_prefix(&once), once);
}

#[test]
fn build_headers_last_occurrence_wins() {
    let raw = vec![
        ("X-Test".to_string(), "1".to_string()),
        ("x-test".to_string(), "2".to_string()),
    ];
    let built = build_headers(&raw);
    assert_eq!(built.len(), 1);
    assert_eq!(built[0].0, "x-test");
    assert_eq!(built[0].1, "2");
}

#[test]
fn build_headers_canonicalizes_names() {
    let raw = vec![("User-Agent".to_string(), "client".to_string())];
    let built = build_headers(&raw);
    assert_eq!(built, vec![("user-agent".to_string(), "client".to_string())]);
}

#[test]
fn build_headers_silently_drops_invalid_entries() {
    let raw = vec![
        ("bad name".to_string(), "v".to_string()),
        ("ok".to_string(), "bad\nvalue".to_string()),
        ("kept".to_string(), "fine".to_string()),
    ];
    let built = build_headers(&raw);
    assert_eq!(built, vec![("kept".to_string(), "fine".to_string())]);
}

#[test]
fn get_and_delete_never_carry_a_body() {
    let forced_data = Some("{\"k\":1}".to_string());
    let forced_file = Some(vec![1u8, 2, 3]);
    let get = build_request(Method::Get, "example.com", &vec![], forced_data.clone(), forced_file.clone());
    assert!(matches!(get.body, Body::NoBody));
    let del = build_request(Method::Delete, "example.com", &vec![], forced_data, forced_file);
    assert!(matches!(del.body, Body::NoBody));
}

#[test]
fn file_takes_priority_over_raw_data() {
    let req = build_request(
        Method::Post,
        "example.com",
        &vec![],
        Some("ignored".to_string()),
        Some(vec![9u8, 8, 7]),
    );
    assert!(matches!(req.body, Body::FileBody(ref b) if b == &vec![9u8, 8, 7]));
    assert!(!req.headers.iter().any(|(k, _)| k == "content-type"));
}

#[test]
fn raw_data_forces_json_content_type() {
    let raw = vec![("Content-Type".to_string(), "text/plain".to_string())];
    let req = build_request(
        Method::Put,
        "example.com",
        &raw,
        Some("payload".to_string()),
        None,
    );
    let ct: Vec<&(String, String)> =
        req.headers.iter().filter(|(k, _)| k == "content-type").collect();
    assert_eq!(ct.len(), 1);
    assert_eq!(ct[0].1, "application/json");
}

#[test]
fn scenario_get_example_com() {
    let req = build_request(Method::Get, "example.com", &vec![], None, None);
    assert_eq!(req.url, "http://example.com");
    assert!(matches!(req.body, Body::NoBody));
    assert!(req.headers.is_empty());

    let resp = ResponseView {
        status: 200,
        reason: "OK".to_string(),
        headers: vec![("server".to_string(), "test".to_string())],
        body: Ok("hello".to_string()),
    };
    let p: Presentation = render_outcome(&Ok(resp));
    assert_eq!(
        p.out,
        vec![
            "Status: 200 OK".to_string(),
            "server: test".to_string(),
            "".to_string(),
            "hello".to_string(),
        ]
    );
    assert!(p.diag.is_empty());
}

#[test]
fn scenario_post_raw_data() {
    let req = build_request(
        Method::Post,
        "example.com",
        &vec![],
        Some("{\"k\":1}".to_string()),
        None,
    );
    assert_eq!(req.url, "http://example.com");
    assert!(matches!(req.body, Body::RawBody(ref d) if d == "{\"k\":1}"));
    assert_eq!(
        req.headers,
        vec![("content-type".to_string(), "application/json".to_string())]
    );
}

#[test]
fn scenario_missing_file_message() {
    assert_eq!(ClientError::FileReadError.message(), "could not read the file");
    assert_eq!(
        ClientError::ArgumentError.message(),
        "header must have the form key=value"
    );
}

#[test]
fn scenario_transport_timeout() {
    let failure = TransportFailure {
        summary: "operation timed out".to_string(),
        detail: "request timed out after the configured limit".to_string(),
    };
    let p = render_outcome(&Err(failure));
    assert!(p.out.is_empty());
    assert_eq!(
        p.diag,
        vec![
            "request error: operation timed out".to_string(),
            "details: request timed out after the configured limit".to_string(),
        ]
    );
}

#[test]
fn decode_failure_goes_to_diagnostics_after_headers() {
    let resp = ResponseView {
        status: 500,
        reason: "Internal Server Error".to_string(),
        headers: vec![("content-length".to_string(), "4".to_string())],
        body: Err("invalid byte sequence".to_string()),
    };
    let p = render_outcome(&Ok(resp));
    assert_eq!(
        p.out,
        vec![
            "Status: 500 Internal Server Error".to_string(),
            "content-length: 4".to_string(),
        ]
    );
    assert_eq!(
        p.diag,
        vec!["could not decode the response body: invalid byte sequence".to_string()]
    );
}

#[test]
fn decimal_rendering() {
    assert_eq!(u16_to_decimal(0), "0");
    assert_eq!(u16_to_decimal(7), "7");
    assert_eq!(u16_to_decimal(200), "200");
    assert_eq!(u16_to_decimal(404), "404");
    assert_eq!(u16_to_decimal(65535), "65535");
}

#[test]
fn timeout_is_ten_seconds() {
    assert_eq!(REQUEST_TIMEOUT_SECS, 10);
}
