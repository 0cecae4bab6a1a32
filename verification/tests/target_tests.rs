use http_metrics::failure::ErrorKind;
use http_metrics::target::{
    begins_with_ip_literal, contains_scheme_mark, finish_normalize, host_of, normalize_url,
    parses_as_ipv4, prepare_request, ParsedUrl,
};
use http_metrics::types::{ContentType, HttpMethod, KeyValue, RequestData};

fn request(composed_url: &str) -> RequestData {
    RequestData {
        id: "req-1".to_string(),
        timestamp: 1_700_000_000_000,
        url: "ignored".to_string(),
        composed_url: composed_url.to_string(),
        method: HttpMethod::GET,
        headers: Some(vec![]),
        query: None,
        content_type: Some(ContentType::Unset),
        body: None,
        identity: None,
    }
}

#[test]
fn dotted_decimal_addresses_are_recognized() {
    assert!(parses_as_ipv4("127.0.0.1"));
    assert!(parses_as_ipv4("0.0.0.0"));
    assert!(parses_as_ipv4("255.255.255.255"));
    assert!(parses_as_ipv4("10.20.30.40"));
    assert!(parses_as_ipv4("1.2.3.4"));
}

#[test]
fn other_texts_are_no_addresses() {
    for s in [
        "", ".", "...", "1", "1.2.3", "1.2.3.", ".1.2.3", "1..2.3", "1.2.3.4.5", "1.2.3.4.",
        "256.1.1.1", "1.1.1.256", "999.1.1.1", "1234.1.1.1", "01.2.3.4", "1.02.3.4",
        "1.2.3.04", "00.0.0.0", "1.2.3.4 ", " 1.2.3.4", "a.b.c.d", "1.2.3.x", "0x7f.0.0.1",
        "1.2.3.-4", "+1.2.3.4", "example.test", "::1", "localhost", "1.2.3.\u{0664}",
    ] {
        assert!(!parses_as_ipv4(s), "{:?}", s);
    }
}

#[test]
fn ip_literal_before_the_first_colon() {
    assert!(begins_with_ip_literal("127.0.0.1:8080"));
    assert!(begins_with_ip_literal("127.0.0.1"));
    assert!(begins_with_ip_literal("10.0.0.1:80/path?x=1"));
    assert!(begins_with_ip_literal("1.2.3.4::"));
    assert!(!begins_with_ip_literal("127.0.0.1/path:8080"));
    assert!(!begins_with_ip_literal("http://127.0.0.1"));
    assert!(!begins_with_ip_literal("::1"));
    assert!(!begins_with_ip_literal(":127.0.0.1"));
    assert!(!begins_with_ip_literal("example.test:80"));
    assert!(!begins_with_ip_literal(""));
}

#[test]
fn scheme_mark_is_found_anywhere() {
    assert!(contains_scheme_mark("http://a"));
    assert!(contains_scheme_mark("://"));
    assert!(contains_scheme_mark("a?next=b://c"));
    assert!(!contains_scheme_mark(""));
    assert!(!contains_scheme_mark(":/"));
    assert!(!contains_scheme_mark("a:/b/c"));
    assert!(!contains_scheme_mark("example.test/path"));
}

#[test]
fn ip_literal_goes_over_http_unparsed() {
    assert_eq!(normalize_url("127.0.0.1:8080"), Ok("http://127.0.0.1:8080".to_string()));
    assert_eq!(normalize_url("127.0.0.1"), Ok("http://127.0.0.1".to_string()));
    assert_eq!(normalize_url("10.0.0.1:80/a b"), Ok("http://10.0.0.1:80/a b".to_string()));
}

#[test]
fn bare_hostname_goes_over_https() {
    assert_eq!(normalize_url("example.test"), Ok("https://example.test/".to_string()));
    assert_eq!(normalize_url("example.test/echo"), Ok("https://example.test/echo".to_string()));
    assert_eq!(normalize_url("EXAMPLE.test/a b"), Ok("https://example.test/a%20b".to_string()));
}

#[test]
fn url_with_scheme_is_parsed_as_it_is() {
    assert_eq!(normalize_url("http://example.test"), Ok("http://example.test/".to_string()));
    assert_eq!(
        normalize_url("HTTP://Example.Test:80/x"),
        Ok("http://example.test/x".to_string())
    );
}

#[test]
fn malformed_url_is_rejected_with_the_parsers_message() {
    assert_eq!(
        normalize_url("http://[::::]"),
        Err("Invalid URL format: invalid IPv6 address".to_string())
    );
    assert_eq!(normalize_url(""), Err("Invalid URL format: empty host".to_string()));
    assert_eq!(
        normalize_url("example.test:99999999"),
        Err("Invalid URL format: invalid port number".to_string())
    );
}

#[test]
fn finish_normalize_maps_both_answers() {
    let parsed = ParsedUrl { href: "https://h/".to_string(), host: Some("h".to_string()) };
    assert_eq!(finish_normalize(Ok(parsed)), Ok("https://h/".to_string()));
    assert_eq!(
        finish_normalize(Err("empty host".to_string())),
        Err("Invalid URL format: empty host".to_string())
    );
}

#[test]
fn host_of_maps_each_answer() {
    let with_host = ParsedUrl { href: "https://h/".to_string(), host: Some("h".to_string()) };
    assert_eq!(host_of(Ok(with_host)).unwrap(), "h");
    let without = ParsedUrl { href: "file:///x".to_string(), host: None };
    let f = host_of(Ok(without)).unwrap_err();
    assert_eq!(f.kind, ErrorKind::HostExtraction);
    assert_eq!(f.message, "Could not extract host");
    let f = host_of(Err("invalid port number".to_string())).unwrap_err();
    assert_eq!(f.kind, ErrorKind::UrlParse);
    assert_eq!(f.message, "Failed to parse URL: invalid port number");
}

#[test]
fn happy_path_is_prepared_over_https_without_content_type() {
    let p = prepare_request(&request("example.test")).unwrap();
    assert_eq!(p.url, "https://example.test/");
    assert!(p.url.starts_with("https://"));
    assert_eq!(p.host, "example.test");
    assert_eq!(p.method, HttpMethod::GET);
    assert_eq!(p.headers.get("Content-Type"), None);
    assert_eq!(p.headers.get("User-Agent"), Some("PostierRuntime".to_string()));
    assert_eq!(p.body, None);
}

#[test]
fn ip_literal_is_prepared_over_http() {
    let p = prepare_request(&request("127.0.0.1:8080")).unwrap();
    assert!(p.url.starts_with("http://127.0.0.1:8080"));
    assert_eq!(p.url, "http://127.0.0.1:8080");
    assert_eq!(p.host, "127.0.0.1");
}

#[test]
fn json_body_is_prepared_with_its_content_type() {
    let mut r = request("example.test/echo");
    r.method = HttpMethod::POST;
    r.content_type = Some(ContentType::Json);
    r.body = Some("{\"a\":1}".to_string());
    let p = prepare_request(&r).unwrap();
    assert_eq!(p.method, HttpMethod::POST);
    assert_eq!(p.url, "https://example.test/echo");
    assert_eq!(p.headers.get("Content-Type"), Some("application/json".to_string()));
    assert_eq!(p.body, Some("{\"a\":1}".to_string()));
    assert_eq!(p.body.unwrap().as_bytes(), b"{\"a\":1}");
}

#[test]
fn body_goes_out_without_a_declared_type_too() {
    let mut r = request("example.test");
    r.content_type = Some(ContentType::Unset);
    r.body = Some("raw".to_string());
    let p = prepare_request(&r).unwrap();
    assert_eq!(p.body, Some("raw".to_string()));
    assert_eq!(p.headers.get("Content-Type"), None);
}

#[test]
fn only_enabled_headers_are_prepared() {
    let mut r = request("example.test");
    r.headers = Some(vec![
        KeyValue { key: "X-Skip".to_string(), value: "v".to_string(), enabled: false },
        KeyValue { key: "X-Keep".to_string(), value: "ok".to_string(), enabled: true },
    ]);
    let p = prepare_request(&r).unwrap();
    assert_eq!(
        p.headers.entries,
        vec![
            ("X-Keep".to_string(), "ok".to_string()),
            ("User-Agent".to_string(), "PostierRuntime".to_string()),
        ]
    );
}

#[test]
fn malformed_url_fails_the_preparation() {
    let f = prepare_request(&request("http://[::::]")).unwrap_err();
    assert_eq!(f.kind, ErrorKind::UrlNormalization);
    assert_eq!(f.message, "URL normalization failed: Invalid URL format: invalid IPv6 address");
}

#[test]
fn unparsable_ip_url_fails_at_the_second_parse() {
    let f = prepare_request(&request("127.0.0.1:99999999")).unwrap_err();
    assert_eq!(f.kind, ErrorKind::UrlParse);
    assert_eq!(f.message, "Failed to parse URL: invalid port number");
}

#[test]
fn url_without_host_fails_the_preparation() {
    let f = prepare_request(&request("file:///tmp/x")).unwrap_err();
    assert_eq!(f.kind, ErrorKind::HostExtraction);
    assert_eq!(f.message, "Could not extract host");
}

#[test]
fn the_url_field_is_not_read() {
    let mut r = request("example.test");
    r.url = "http://[::::]".to_string();
    assert!(prepare_request(&r).is_ok());
}
