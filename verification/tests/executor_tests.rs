use http_metrics::executor::{complete, fail, Action, Execution, Outcome, Stage};
use http_metrics::failure::ErrorKind;
use http_metrics::metrics::{HttpMetrics, Phase};
use http_metrics::record::{
    build_error_response, build_success_response, decode_headers, decode_response,
    status_text_from, DecodedResponse, RawHeader,
};
use http_metrics::types::{ContentType, HttpMethod, KeyValue, RequestData};

fn request(composed_url: &str) -> RequestData {
    RequestData {
        id: "abc-123".to_string(),
        timestamp: 1_700_000_000_000,
        url: "u".to_string(),
        composed_url: composed_url.to_string(),
        method: HttpMethod::GET,
        headers: None,
        query: None,
        content_type: Some(ContentType::Unset),
        body: None,
        identity: None,
    }
}

fn lines(debug: &[KeyValue]) -> Vec<(String, String)> {
    debug.iter().map(|e| (e.key.clone(), e.value.clone())).collect()
}

fn pair(k: &str, v: &str) -> (String, String) {
    (k.to_string(), v.to_string())
}

fn run_to(stage_count: usize) -> Execution {
    let mut e = Execution::begin();
    let times = [1500u64, 20_000, 300_000, 4_000_000, 50];
    for t in times.iter().take(stage_count) {
        e = e.advance(Outcome::Completed, *t).0;
    }
    e
}

#[test]
fn fresh_metrics_are_zero_and_unmarked() {
    let m = HttpMetrics::new();
    assert_eq!((m.prepare, m.dns_lookup, m.tcp_handshake, m.response_time, m.process), (0, 0, 0, 0, 0));
    assert_eq!(m.on_error, "none");
    assert_eq!(m.failed_phase(), None);
}

#[test]
fn markers_name_their_phases() {
    let all = [
        (Phase::Prepare, "prepare"),
        (Phase::DnsLookup, "dns_lookup"),
        (Phase::TcpHandshake, "tcp_handshake"),
        (Phase::ResponseTime, "response_time"),
        (Phase::Process, "process"),
    ];
    for (p, text) in all {
        assert_eq!(p.marker(), text);
        let mut m = HttpMetrics::new();
        m.fail(p, 7);
        assert_eq!(m.on_error, text);
        assert_eq!(m.failed_phase(), Some(p));
        assert_eq!(m.get(p), 7);
    }
    let mut m = HttpMetrics::new();
    m.on_error = "elsewhere".to_string();
    assert_eq!(m.failed_phase(), None);
}

#[test]
fn record_sets_one_phase() {
    let mut m = HttpMetrics::new();
    m.record(Phase::TcpHandshake, 42);
    assert_eq!((m.prepare, m.dns_lookup, m.tcp_handshake, m.response_time, m.process), (0, 0, 42, 0, 0));
    assert_eq!(m.on_error, "none");
}

#[test]
fn stages_follow_in_order() {
    let e = Execution::begin();
    assert_eq!(e.stage, Stage::Preparing);
    let (e, a) = e.advance(Outcome::Completed, 1);
    assert_eq!((e.stage, a), (Stage::ResolvingDns, Action::Resolve));
    let (e, a) = e.advance(Outcome::Completed, 2);
    assert_eq!((e.stage, a), (Stage::Transporting, Action::Transport));
    let (e, a) = e.advance(Outcome::Completed, 3);
    assert_eq!((e.stage, a), (Stage::ReadingBody, Action::ReadBody));
    let (e, a) = e.advance(Outcome::Completed, 4);
    assert_eq!((e.stage, a), (Stage::Processing, Action::Process));
    let (e, a) = e.advance(Outcome::Completed, 5);
    assert_eq!((e.stage, a), (Stage::Done, Action::DeliverResponse));
    let m = &e.metrics;
    assert_eq!((m.prepare, m.dns_lookup, m.tcp_handshake, m.response_time, m.process), (1, 2, 3, 4, 5));
    assert_eq!(m.on_error, "none");
    let (e, a) = e.advance(Outcome::Failed, 99);
    assert_eq!((e.stage, a), (Stage::Done, Action::DeliverResponse));
    assert_eq!(e.metrics.process, 5);
    assert_eq!(e.metrics.on_error, "none");
}

#[test]
fn failure_in_each_phase_marks_it_and_leaves_later_phases_at_zero() {
    let phases = [
        Phase::Prepare,
        Phase::DnsLookup,
        Phase::TcpHandshake,
        Phase::ResponseTime,
        Phase::Process,
    ];
    for (i, p) in phases.iter().enumerate() {
        let e = run_to(i);
        let (e, a) = e.advance(Outcome::Failed, 77);
        assert_eq!(e.stage, Stage::Failed(*p));
        assert_eq!(a, Action::DeliverError);
        assert_eq!(e.metrics.on_error, p.marker());
        assert_eq!(e.metrics.get(*p), 77);
        for q in phases.iter().skip(i + 1) {
            assert_eq!(e.metrics.get(*q), 0);
        }
        let (again, a) = e.clone().advance(Outcome::Completed, 5);
        assert_eq!(again.stage, Stage::Failed(*p));
        assert_eq!(a, Action::DeliverError);
        assert_eq!(again.metrics.get(*p), 77);
    }
}

#[test]
fn error_kinds_have_phases_and_diagnostics() {
    assert_eq!(ErrorKind::UrlNormalization.phase_of(), Phase::Prepare);
    assert_eq!(ErrorKind::UrlParse.phase_of(), Phase::Prepare);
    assert_eq!(ErrorKind::HostExtraction.phase_of(), Phase::Prepare);
    assert_eq!(ErrorKind::ResolverInit.phase_of(), Phase::Prepare);
    assert_eq!(ErrorKind::ClientInit.phase_of(), Phase::Prepare);
    assert_eq!(ErrorKind::Resolution.phase_of(), Phase::DnsLookup);
    assert_eq!(ErrorKind::Transport.phase_of(), Phase::TcpHandshake);
    assert_eq!(ErrorKind::BodyRead.phase_of(), Phase::ResponseTime);
    assert_eq!(ErrorKind::UrlNormalization.diagnostic("x"), "URL normalization failed: x");
    assert_eq!(ErrorKind::UrlParse.diagnostic("x"), "Failed to parse URL: x");
    assert_eq!(ErrorKind::HostExtraction.diagnostic("x"), "Could not extract host");
    assert_eq!(ErrorKind::ResolverInit.diagnostic("x"), "Failed to create DNS resolver: x");
    assert_eq!(ErrorKind::ClientInit.diagnostic("x"), "Failed to create HTTP client: x");
    assert_eq!(ErrorKind::Resolution.diagnostic("x"), "DNS resolution failed: x");
    assert_eq!(ErrorKind::Transport.diagnostic("x"), "Failed to send HTTP request: x");
    assert_eq!(ErrorKind::BodyRead.diagnostic("x"), "Failed to read response body: x");
}

#[test]
fn unresolvable_host_gives_an_error_record() {
    let e = run_to(1);
    let message = ErrorKind::Resolution.diagnostic("no record found");
    let o = fail(e, request("no-such-host.invalid"), message, 2_340, 3_900, 1_700_000_000_123);
    assert_eq!(o.response.id, o.request.id);
    assert_eq!(o.response.id, "abc-123");
    assert_eq!(o.response.status, 0);
    assert_eq!(o.response.status_text, "Error");
    assert!(o.response.headers.is_none());
    assert_eq!(o.response.data, Some("DNS resolution failed: no record found".to_string()));
    assert_eq!(o.response.size, 38);
    assert_eq!(o.response.time, 3_900);
    assert_eq!(o.response.timestamp, 1_700_000_000_123);
    assert_eq!(o.metrics.on_error, "dns_lookup");
    assert!(o.metrics.prepare > 0);
    assert_eq!(o.metrics.prepare, 1500);
    assert_eq!(o.metrics.dns_lookup, 2_340);
    assert_eq!(o.metrics.tcp_handshake, 0);
    assert_eq!(o.metrics.response_time, 0);
    assert_eq!(o.metrics.process, 0);
    assert_eq!(
        lines(&o.debug),
        vec![
            pair("Postier UID", "abc-123"),
            pair("Request time", "3.90ms"),
            pair("Request url", "no-such-host.invalid"),
            pair("Error", "DNS resolution failed: no record found"),
            pair("Prepare", "1.50ms"),
            pair("DNS Lookup", "2.34ms"),
            pair("TCP Handshake", "Error"),
            pair("Response Time", "Error"),
            pair("Process Time", "Error"),
        ]
    );
    assert!(o.debug.iter().all(|e| e.enabled));
}

#[test]
fn malformed_url_gives_an_error_record_in_prepare() {
    let e = Execution::begin();
    let o = fail(e, request("http://[::::]"), "URL normalization failed: x".to_string(), 10, 12, 5);
    assert_eq!(o.response.status, 0);
    assert_eq!(o.metrics.on_error, "prepare");
    assert_eq!(o.metrics.prepare, 10);
    assert_eq!(o.metrics.dns_lookup, 0);
    assert_eq!(o.debug[4].value, "0.01ms");
    assert_eq!(o.debug[5].value, "Error");
}

#[test]
fn unreachable_address_fails_in_the_handshake() {
    let e = run_to(2);
    let o = fail(e, request("127.0.0.1:8080"), "Failed to send HTTP request: refused".to_string(), 900, 30_000, 5);
    assert_eq!(o.metrics.on_error, "tcp_handshake");
    assert_eq!(o.metrics.tcp_handshake, 900);
    assert_eq!(o.metrics.response_time, 0);
    assert_eq!(o.debug[6].value, "0.90ms");
    assert_eq!(o.debug[7].value, "Error");
}

#[test]
fn error_size_counts_bytes_not_chars() {
    let o = build_error_response(request("x"), "caf\u{00E9}".to_string(), HttpMetrics::new(), 0, 0);
    assert_eq!(o.response.size, 5);
    assert_eq!(o.response.data, Some("caf\u{00E9}".to_string()));
    assert_eq!(o.debug[4].value, "0.00ms");
    assert_eq!(o.debug[8].value, "0.00ms");
}

#[test]
fn success_record_carries_the_decoded_response() {
    let e = run_to(4);
    let raw = vec![
        RawHeader { name: "content-type".to_string(), value: b"text/plain".to_vec() },
        RawHeader { name: "x-bin".to_string(), value: vec![0x61, 0xFF, 0x62] },
    ];
    let body = b"hello".to_vec();
    let decoded = decode_response(200, &raw, &body);
    let o = complete(e, request("example.test"), "https://example.test/", decoded, 50, 4_321_560, 9);
    assert_eq!(o.response.id, o.request.id);
    assert_eq!(o.response.status, 200);
    assert_eq!(o.response.status_text, "OK");
    assert_eq!(o.response.data, Some("hello".to_string()));
    assert_eq!(o.response.size, 5);
    assert_eq!(o.response.time, 4_321_560);
    assert_eq!(o.response.timestamp, 9);
    let headers = o.response.headers.clone().unwrap();
    assert_eq!(
        lines(&headers),
        vec![pair("content-type", "text/plain"), pair("x-bin", "a\u{FFFD}b")]
    );
    assert!(headers.iter().all(|h| h.enabled));
    assert_eq!(o.metrics.on_error, "none");
    assert_eq!(o.metrics.process, 50);
    assert_eq!(
        lines(&o.debug),
        vec![
            pair("Postier UID", "abc-123"),
            pair("Request time", "4321.56ms"),
            pair("Request url", "https://example.test/"),
            pair("Response status", "200 (OK)"),
            pair("Response body", "blob size: 5 bytes"),
            pair("Prepare", "1.50ms"),
            pair("DNS Lookup", "20.00ms"),
            pair("TCP Handshake", "300.00ms"),
            pair("Response Time", "4000.00ms"),
            pair("Process Time", "0.05ms"),
        ]
    );
}

#[test]
fn reason_phrases_come_from_the_status() {
    let none: Vec<RawHeader> = Vec::new();
    let empty: Vec<u8> = Vec::new();
    assert_eq!(decode_response(404, &none, &empty).status_text, "Not Found");
    assert_eq!(decode_response(201, &none, &empty).status_text, "Created");
    assert_eq!(decode_response(500, &none, &empty).status_text, "Internal Server Error");
    assert_eq!(decode_response(799, &none, &empty).status_text, "");
    assert_eq!(decode_response(0, &none, &empty).status_text, "");
    assert_eq!(decode_response(1000, &none, &empty).status_text, "");
    assert_eq!(status_text_from(None), "");
    assert_eq!(status_text_from(Some("Teapot".to_string())), "Teapot");
}

#[test]
fn body_is_decoded_lossily_and_sized_in_bytes() {
    let none: Vec<RawHeader> = Vec::new();
    let body = vec![0x66, 0xFF, 0x6F, 0xC3, 0xA9];
    let d = decode_response(200, &none, &body);
    assert_eq!(d.data, "f\u{FFFD}o\u{00E9}");
    assert_eq!(d.size, 5);
    assert!(d.headers.is_empty());
    assert!(decode_headers(&none).is_empty());
}

#[test]
fn success_debug_reads_every_phase_even_at_zero() {
    let decoded = DecodedResponse {
        status: 204,
        status_text: "No Content".to_string(),
        headers: vec![],
        data: String::new(),
        size: 0,
    };
    let o = build_success_response(request("h"), "https://h/", decoded, HttpMetrics::new(), 0, 0);
    assert_eq!(o.debug.len(), 10);
    assert_eq!(o.debug[3].value, "204 (No Content)");
    assert_eq!(o.debug[4].value, "blob size: 0 bytes");
    for e in &o.debug[5..] {
        assert_eq!(e.value, "0.00ms");
    }
    assert!(o.response.headers.unwrap().is_empty());
}

#[test]
fn debug_list_names_its_lines() {
    let o = build_error_response(request("x"), "m".to_string(), HttpMetrics::new(), 0, 0);
    let keys: Vec<&str> = o.debug.iter().map(|e| e.key.as_str()).collect();
    assert_eq!(
        keys,
        vec![
            "Postier UID", "Request time", "Request url", "Error", "Prepare", "DNS Lookup",
            "TCP Handshake", "Response Time", "Process Time",
        ]
    );
}
