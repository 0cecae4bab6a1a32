//! The result builder: the response, the debug list and the record that one
//! execution hands out, on success and on failure.

use crate::metrics::{HttpMetrics, Phase};
use crate::text::{join, decimal, decimal_text, format_millis, millis_text};
use crate::types::{views_of, KeyValue, KeyValueView, RequestData};
use vstd::prelude::*;
use vstd::string::*;

verus! {

/// What came back, or what is reported in its place. `time` is the time
/// since entry in whole microseconds, `size` the number of bytes of the body.
#[derive(Debug, Clone)]
pub struct ResponseData {
    pub id: String,
    pub timestamp: u64,
    pub status: u16,
    pub status_text: String,
    pub headers: Option<Vec<KeyValue>>,
    pub data: Option<String>,
    pub time: u64,
    pub size: usize,
}

/// The record of one execution.
#[derive(Debug, Clone)]
pub struct PostierObject {
    pub request: RequestData,
    pub response: ResponseData,
    pub debug: Vec<KeyValue>,
    pub metrics: HttpMetrics,
}

/// A response header as it arrived: its name, and its value in bytes.
#[derive(Debug, Clone)]
pub struct RawHeader {
    pub name: String,
    pub value: Vec<u8>,
}

/// A response, decoded: the status and its reason phrase, the headers in
/// the order of arrival, the body as text, and the body's length in bytes.
#[derive(Debug, Clone)]
pub struct DecodedResponse {
    pub status: u16,
    pub status_text: String,
    pub headers: Vec<KeyValue>,
    pub data: String,
    pub size: usize,
}

/// The text that `String::from_utf8_lossy` makes of bytes.
pub uninterp spec fn utf8_lossy(bytes: Seq<u8>) -> Seq<char>;

/// The reason phrase that `reqwest::StatusCode::canonical_reason` gives for
/// a status, where `reqwest::StatusCode::from_u16` takes the number and the
/// status has a phrase.
pub uninterp spec fn canonical_reason_text(status: u16) -> Option<Seq<char>>;

/// The text of an optional string.
pub open spec fn optional_text(o: Option<String>) -> Option<Seq<char>> {
    match o {
        Some(s) => Some(s@),
        None => None,
    }
}

/// Calls `String::from_utf8_lossy`. Trusted: that the text depends on the
/// bytes alone.
#[verifier::external_body]
fn decode_lossy(bytes: &[u8]) -> (s: String)
    ensures
        s@ == utf8_lossy(bytes@),
{
    String::from_utf8_lossy(bytes).into_owned()
}

/// Calls `reqwest::StatusCode::from_u16` and, on the status that it gives,
/// `reqwest::StatusCode::canonical_reason`. Trusted: that the phrase depends
/// on the number alone. A number that is no status has no phrase.
#[verifier::external_body]
fn canonical_reason(status: u16) -> (r: Option<String>)
    ensures
        optional_text(r) == canonical_reason_text(status),
{
    match reqwest::StatusCode::from_u16(status) {
        Ok(code) => match code.canonical_reason() {
            Some(phrase) => Some(phrase.to_string()),
            None => None,
        },
        Err(_) => None,
    }
}

/// The status text for a reason phrase: the phrase, or nothing where the
/// status has none.
pub open spec fn status_text_of(reason: Option<Seq<char>>) -> Seq<char> {
    match reason {
        Some(phrase) => phrase,
        None => ""@,
    }
}

/// The status text for a reason phrase.
pub fn status_text_from(reason: Option<String>) -> (s: String)
    ensures
        s@ == status_text_of(optional_text(reason)),
{
    match reason {
        Some(phrase) => phrase,
        None => String::from_str(""),
    }
}

/// A response header, decoded: the name as it came, the value decoded
/// lossily, enabled.
pub open spec fn decoded_header(raw: RawHeader) -> KeyValueView {
    KeyValueView { key: raw.name@, value: utf8_lossy(raw.value@), enabled: true }
}

/// Decodes the response headers, keeping their order.
pub fn decode_headers(raw: &Vec<RawHeader>) -> (v: Vec<KeyValue>)
    ensures
        views_of(v@) == raw@.map_values(|h: RawHeader| decoded_header(h)),
{
    let mut v: Vec<KeyValue> = Vec::new();
    let mut i: usize = 0;
    while i < raw.len()
        invariant
            i <= raw@.len(),
            v@.len() == i,
            forall|j: int| 0 <= j < i ==> (#[trigger] v@[j])@ == decoded_header(raw@[j]),
        decreases raw.len() - i,
    {
        let value = decode_lossy(raw[i].value.as_slice());
        v.push(KeyValue::enabled(raw[i].name.clone(), value));
        i += 1;
    }
    assert(views_of(v@) =~= raw@.map_values(|h: RawHeader| decoded_header(h)));
    v
}

/// Decodes a response: the reason phrase of the status, the headers and the
/// body decoded lossily, and the body's length in bytes.
pub fn decode_response(status: u16, raw_headers: &Vec<RawHeader>, body: &Vec<u8>) -> (d:
    DecodedResponse)
    ensures
        d.status == status,
        d.status_text@ == status_text_of(canonical_reason_text(status)),
        views_of(d.headers@) == raw_headers@.map_values(|h: RawHeader| decoded_header(h)),
        d.data@ == utf8_lossy(body@),
        d.size == body@.len(),
{
    DecodedResponse {
        status,
        status_text: status_text_from(canonical_reason(status)),
        headers: decode_headers(raw_headers),
        data: decode_lossy(body.as_slice()),
        size: body.len(),
    }
}

/// A line of the debug list.
pub open spec fn line(key: Seq<char>, value: Seq<char>) -> KeyValueView {
    KeyValueView { key, value, enabled: true }
}

/// What the debug list shows for a phase: its time in milliseconds, or
/// `Error` for a phase that comes after the one that failed.
pub open spec fn phase_reading(metrics: HttpMetrics, phase: Phase) -> Seq<char> {
    if metrics.failed_in() is Some && phase.index() > metrics.failed_in()->0.index() {
        "Error"@
    } else {
        millis_text(metrics.timing(phase) as nat)
    }
}

/// The five lines on the phases, which close every debug list.
pub open spec fn phase_lines(metrics: HttpMetrics) -> Seq<KeyValueView> {
    seq![
        line("Prepare"@, phase_reading(metrics, Phase::Prepare)),
        line("DNS Lookup"@, phase_reading(metrics, Phase::DnsLookup)),
        line("TCP Handshake"@, phase_reading(metrics, Phase::TcpHandshake)),
        line("Response Time"@, phase_reading(metrics, Phase::ResponseTime)),
        line("Process Time"@, phase_reading(metrics, Phase::Process)),
    ]
}

/// The debug list of a failure.
pub open spec fn error_debug(
    id: Seq<char>,
    elapsed: u64,
    url: Seq<char>,
    message: Seq<char>,
    metrics: HttpMetrics,
) -> Seq<KeyValueView> {
    seq![
        line("Postier UID"@, id),
        line("Request time"@, millis_text(elapsed as nat)),
        line("Request url"@, url),
        line("Error"@, message),
    ] + phase_lines(metrics)
}

/// The line on the status of a response: the number, and the status text in
/// brackets.
pub open spec fn status_reading(status: u16, status_text: Seq<char>) -> Seq<char> {
    decimal_text(status as nat) + " ("@ + status_text + ")"@
}

/// The line on the body of a response.
pub open spec fn body_reading(size: usize) -> Seq<char> {
    "blob size: "@ + decimal_text(size as nat) + " bytes"@
}

/// The debug list of a success.
pub open spec fn success_debug(
    id: Seq<char>,
    elapsed: u64,
    url: Seq<char>,
    status: u16,
    status_text: Seq<char>,
    size: usize,
    metrics: HttpMetrics,
) -> Seq<KeyValueView> {
    seq![
        line("Postier UID"@, id),
        line("Request time"@, millis_text(elapsed as nat)),
        line("Request url"@, url),
        line("Response status"@, status_reading(status, status_text)),
        line("Response body"@, body_reading(size)),
    ] + phase_lines(metrics)
}

/// Every debug list opens with the id, the time and the URL of the request,
/// goes on with the status of the response or with the error, and closes
/// with the five lines on the phases.
pub proof fn lemma_debug_lines(
    id: Seq<char>,
    elapsed: u64,
    url: Seq<char>,
    message: Seq<char>,
    status: u16,
    status_text: Seq<char>,
    size: usize,
    metrics: HttpMetrics,
)
    ensures
        ({
            let failure = error_debug(id, elapsed, url, message, metrics);
            let success = success_debug(id, elapsed, url, status, status_text, size, metrics);
            &&& failure.len() == 9
            &&& success.len() == 10
            &&& failure[0] == line("Postier UID"@, id) && success[0] == failure[0]
            &&& failure[1].key == "Request time"@ && success[1] == failure[1]
            &&& failure[2] == line("Request url"@, url) && success[2] == failure[2]
            &&& failure[3] == line("Error"@, message)
            &&& success[3].key == "Response status"@
            &&& success[4].key == "Response body"@
            &&& failure.subrange(4, 9) == phase_lines(metrics)
            &&& success.subrange(5, 10) == phase_lines(metrics)
            &&& phase_lines(metrics)[0].key == "Prepare"@
            &&& phase_lines(metrics)[1].key == "DNS Lookup"@
            &&& phase_lines(metrics)[2].key == "TCP Handshake"@
            &&& phase_lines(metrics)[3].key == "Response Time"@
            &&& phase_lines(metrics)[4].key == "Process Time"@
        }),
{
    let failure = error_debug(id, elapsed, url, message, metrics);
    let success = success_debug(id, elapsed, url, status, status_text, size, metrics);
    assert(failure.subrange(4, 9) =~= phase_lines(metrics));
    assert(success.subrange(5, 10) =~= phase_lines(metrics));
}

fn phase_entry(label: &str, metrics: &HttpMetrics, phase: Phase) -> (e: KeyValue)
    ensures
        e@ == line(label@, phase_reading(*metrics, phase)),
{
    let reached = match (metrics.failed_phase(), phase) {
        (None, _) => true,
        (Some(_), Phase::Prepare) => true,
        (Some(Phase::Prepare), _) => false,
        (Some(_), Phase::DnsLookup) => true,
        (Some(Phase::DnsLookup), _) => false,
        (Some(_), Phase::TcpHandshake) => true,
        (Some(Phase::TcpHandshake), _) => false,
        (Some(_), Phase::ResponseTime) => true,
        (Some(Phase::ResponseTime), _) => false,
        (Some(_), Phase::Process) => true,
    };
    assert(reached == !(metrics.failed_in() is Some && phase.index()
        > metrics.failed_in()->0.index()));
    let value = if reached {
        format_millis(metrics.get(phase))
    } else {
        String::from_str("Error")
    };
    KeyValue::enabled(String::from_str(label), value)
}

fn push_phase_entries(debug: &mut Vec<KeyValue>, metrics: &HttpMetrics)
    ensures
        views_of(final(debug)@) == views_of(old(debug)@) + phase_lines(*metrics),
{
    let ghost before = debug@;
    debug.push(phase_entry("Prepare", metrics, Phase::Prepare));
    debug.push(phase_entry("DNS Lookup", metrics, Phase::DnsLookup));
    debug.push(phase_entry("TCP Handshake", metrics, Phase::TcpHandshake));
    debug.push(phase_entry("Response Time", metrics, Phase::ResponseTime));
    debug.push(phase_entry("Process Time", metrics, Phase::Process));
    assert(views_of(debug@) =~= views_of(before) + phase_lines(*metrics));
}

/// The record of an execution that failed: status 0, status text `Error`,
/// no headers, the diagnostic as the body and its length in bytes as the
/// size; the request and the metrics as given; the debug list of a failure.
pub fn build_error_response(
    request: RequestData,
    error_message: String,
    metrics: HttpMetrics,
    elapsed: u64,
    timestamp: u64,
) -> (o: PostierObject)
    ensures
        o.request == request,
        o.metrics == metrics,
        o.response.id@ == request.id@,
        o.response.timestamp == timestamp,
        o.response.status == 0,
        o.response.status_text@ == "Error"@,
        o.response.headers is None,
        optional_text(o.response.data) == Some(error_message@),
        o.response.time == elapsed,
        o.response.size == vstd::utf8::encode_utf8(error_message@).len() as usize,
        views_of(o.debug@) == error_debug(
            request.id@,
            elapsed,
            request.composed_url@,
            error_message@,
            metrics,
        ),
{
    let mut debug: Vec<KeyValue> = Vec::new();
    debug.push(KeyValue::enabled(String::from_str("Postier UID"), request.id.clone()));
    debug.push(KeyValue::enabled(String::from_str("Request time"), format_millis(elapsed)));
    debug.push(KeyValue::enabled(String::from_str("Request url"), request.composed_url.clone()));
    debug.push(KeyValue::enabled(String::from_str("Error"), error_message.clone()));
    push_phase_entries(&mut debug, &metrics);
    assert(views_of(debug@) =~= error_debug(
        request.id@,
        elapsed,
        request.composed_url@,
        error_message@,
        metrics,
    ));
    let response = ResponseData {
        id: request.id.clone(),
        timestamp,
        status: 0,
        status_text: String::from_str("Error"),
        headers: None,
        size: error_message.as_str().len(),
        data: Some(error_message),
        time: elapsed,
    };
    PostierObject { request, response, debug, metrics }
}

/// The record of an execution that ran to its end: the decoded response
/// under the request's id; the request and the metrics as given; the debug
/// list of a success, with the URL that was sent to.
pub fn build_success_response(
    request: RequestData,
    url: &str,
    decoded: DecodedResponse,
    metrics: HttpMetrics,
    elapsed: u64,
    timestamp: u64,
) -> (o: PostierObject)
    ensures
        o.request == request,
        o.metrics == metrics,
        o.response.id@ == request.id@,
        o.response.timestamp == timestamp,
        o.response.status == decoded.status,
        o.response.status_text == decoded.status_text,
        o.response.headers == Some(decoded.headers),
        o.response.data == Some(decoded.data),
        o.response.time == elapsed,
        o.response.size == decoded.size,
        views_of(o.debug@) == success_debug(
            request.id@,
            elapsed,
            url@,
            decoded.status,
            decoded.status_text@,
            decoded.size,
            metrics,
        ),
{
    let mut status_line = decimal(decoded.status as u64);
    status_line.append(" (");
    status_line.append(decoded.status_text.as_str());
    status_line.append(")");
    let mut body_line = join("blob size: ", decimal(decoded.size as u64).as_str());
    body_line.append(" bytes");
    let mut debug: Vec<KeyValue> = Vec::new();
    debug.push(KeyValue::enabled(String::from_str("Postier UID"), request.id.clone()));
    debug.push(KeyValue::enabled(String::from_str("Request time"), format_millis(elapsed)));
    debug.push(KeyValue::enabled(String::from_str("Request url"), String::from_str(url)));
    debug.push(KeyValue::enabled(String::from_str("Response status"), status_line));
    debug.push(KeyValue::enabled(String::from_str("Response body"), body_line));
    push_phase_entries(&mut debug, &metrics);
    assert(views_of(debug@) =~= success_debug(
        request.id@,
        elapsed,
        url@,
        decoded.status,
        decoded.status_text@,
        decoded.size,
        metrics,
    ));
    let response = ResponseData {
        id: request.id.clone(),
        timestamp,
        status: decoded.status,
        status_text: decoded.status_text,
        headers: Some(decoded.headers),
        data: Some(decoded.data),
        time: elapsed,
        size: decoded.size,
    };
    PostierObject { request, response, debug, metrics }
}

} // verus!
