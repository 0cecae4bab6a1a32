//! The URL normalizer: which scheme a caller's URL gets, and what the URL
//! parser makes of it.

use crate::failure::{ErrorKind, Failure};
use crate::headers::{assemble_headers, outbound_headers, HeaderTable};
use crate::text::{chars_of, join};
use crate::types::{optional_views, HttpMethod, RequestData};
use vstd::prelude::*;
use vstd::string::*;

verus! {

/// Whether `c` is one of the ten decimal digits.
pub open spec fn is_digit(c: char) -> bool {
    0x30 <= c as u32 <= 0x39
}

/// The number that a run of decimal digits writes.
pub open spec fn digits_value(s: Seq<char>) -> nat
    decreases s.len(),
{
    if s.len() == 0 {
        0
    } else {
        digits_value(s.drop_last()) * 10 + (s.last() as u32 - 0x30) as nat
    }
}

/// One part of a dotted IPv4 address: one to three decimal digits, no
/// leading zero before another digit, at most 255.
pub open spec fn is_octet(s: Seq<char>) -> bool {
    &&& 1 <= s.len() <= 3
    &&& forall|i: int| 0 <= i < s.len() ==> is_digit(#[trigger] s[i])
    &&& (s.len() > 1 ==> s[0] != '0')
    &&& digits_value(s) <= 255
}

/// `s` is four octets, parted by the dots at `a`, `b` and `c`.
pub open spec fn dotted_at(s: Seq<char>, a: int, b: int, c: int) -> bool {
    &&& 0 <= a < b < c < s.len()
    &&& s[a] == '.'
    &&& s[b] == '.'
    &&& s[c] == '.'
    &&& is_octet(s.subrange(0, a))
    &&& is_octet(s.subrange(a + 1, b))
    &&& is_octet(s.subrange(b + 1, c))
    &&& is_octet(s.subrange(c + 1, s.len() as int))
}

/// `s` is an IPv4 address in dotted decimal notation.
pub open spec fn is_ipv4_literal(s: Seq<char>) -> bool {
    exists|a: int, b: int, c: int| #[trigger] dotted_at(s, a, b, c)
}

/// `k` is where the first segment of `s` ends: at the first colon, or at
/// the end of `s` where it has none.
pub open spec fn first_segment_end(s: Seq<char>, k: int) -> bool {
    &&& 0 <= k <= s.len()
    &&& (k < s.len() ==> s[k] == ':')
    &&& forall|j: int| 0 <= j < k ==> #[trigger] s[j] != ':'
}

/// What stands before the first colon of `s` is an IP literal. An IPv6
/// literal always holds a colon, so such a segment is an IP literal exactly
/// when it is an IPv4 address in dotted decimal notation.
pub open spec fn starts_with_ip_literal(s: Seq<char>) -> bool {
    exists|k: int| #[trigger] first_segment_end(s, k) && is_ipv4_literal(s.take(k))
}

/// `s` holds `://` somewhere.
pub open spec fn has_scheme_mark(s: Seq<char>) -> bool {
    exists|i: int|
        0 <= i && i + 2 < s.len() && #[trigger] s[i] == ':' && s[i + 1] == '/' && s[i + 2] == '/'
}

proof fn lemma_octet_has_no_dot(s: Seq<char>, x: int, y: int, j: int)
    requires
        0 <= x <= j < y <= s.len(),
        is_octet(s.subrange(x, y)),
    ensures
        s[j] != '.',
        s[j] != ':',
{
    assert(is_digit(s.subrange(x, y)[j - x]));
}

fn find_char(v: &Vec<char>, from: usize, end: usize, c: char) -> (r: usize)
    requires
        from <= end <= v@.len(),
    ensures
        from <= r <= end,
        r < end ==> v@[r as int] == c,
        forall|j: int| from <= j < r ==> #[trigger] v@[j] != c,
{
    let mut i: usize = from;
    while i < end
        invariant
            from <= i <= end <= v@.len(),
            forall|j: int| from <= j < i ==> #[trigger] v@[j] != c,
        decreases end - i,
    {
        if v[i] == c {
            return i;
        }
        i += 1;
    }
    end
}

fn octet_at(v: &Vec<char>, from: usize, to: usize) -> (b: bool)
    requires
        from <= to <= v@.len(),
    ensures
        b == is_octet(v@.subrange(from as int, to as int)),
{
    let ghost s = v@.subrange(from as int, to as int);
    if to - from < 1 || to - from > 3 {
        return false;
    }
    if to - from > 1 && v[from] == '0' {
        assert(s[0] == '0');
        return false;
    }
    let mut value: u32 = 0;
    let mut i: usize = from;
    while i < to
        invariant
            from <= i <= to <= v@.len(),
            to - from <= 3,
            s == v@.subrange(from as int, to as int),
            forall|j: int| 0 <= j < i - from ==> is_digit(#[trigger] s[j]),
            value == digits_value(s.take(i - from)),
            value <= 999,
            i - from <= 2 ==> value <= 99,
            i - from <= 1 ==> value <= 9,
            i - from <= 0 ==> value == 0,
        decreases to - i,
    {
        let c: u32 = v[i] as u32;
        if c < 0x30 || c > 0x39 {
            assert(!is_digit(s[i - from]));
            return false;
        }
        proof {
            let now = s.take(i - from + 1);
            assert(now.drop_last() =~= s.take(i - from));
            assert(now.last() == v@[i as int]);
        }
        value = value * 10 + (c - 0x30);
        i += 1;
    }
    assert(s.take(to - from) =~= s);
    value <= 255
}

/// Whether the first `end` characters of `v` are a dotted IPv4 address.
fn ipv4_prefix(v: &Vec<char>, end: usize) -> (b: bool)
    requires
        end <= v@.len(),
    ensures
        b == is_ipv4_literal(v@.take(end as int)),
{
    let ghost s = v@.take(end as int);
    let a = find_char(v, 0, end, '.');
    if a >= end {
        assert forall|a2: int, b2: int, c2: int| !#[trigger] dotted_at(s, a2, b2, c2) by {
            if dotted_at(s, a2, b2, c2) {
                assert(v@[a2] == '.');
            }
        }
        return false;
    }
    assert(s.subrange(0, a as int) =~= v@.subrange(0, a as int));
    if !octet_at(v, 0, a) {
        assert forall|a2: int, b2: int, c2: int| !#[trigger] dotted_at(s, a2, b2, c2) by {
            if dotted_at(s, a2, b2, c2) {
                assert(v@[a2] == '.');
                if a < a2 {
                    lemma_octet_has_no_dot(s, 0, a2, a as int);
                }
            }
        }
        return false;
    }
    let b = find_char(v, a + 1, end, '.');
    if b >= end {
        assert forall|a2: int, b2: int, c2: int| !#[trigger] dotted_at(s, a2, b2, c2) by {
            if dotted_at(s, a2, b2, c2) {
                assert(v@[a2] == '.');
                assert(v@[b2] == '.');
                if a < a2 {
                    lemma_octet_has_no_dot(s, 0, a2, a as int);
                }
            }
        }
        return false;
    }
    assert(s.subrange(a + 1, b as int) =~= v@.subrange(a + 1, b as int));
    if !octet_at(v, a + 1, b) {
        assert forall|a2: int, b2: int, c2: int| !#[trigger] dotted_at(s, a2, b2, c2) by {
            if dotted_at(s, a2, b2, c2) {
                assert(v@[a2] == '.');
                assert(v@[b2] == '.');
                if a < a2 {
                    lemma_octet_has_no_dot(s, 0, a2, a as int);
                }
                if b < b2 {
                    lemma_octet_has_no_dot(s, a2 + 1, b2, b as int);
                }
            }
        }
        return false;
    }
    let c = find_char(v, b + 1, end, '.');
    if c >= end {
        assert forall|a2: int, b2: int, c2: int| !#[trigger] dotted_at(s, a2, b2, c2) by {
            if dotted_at(s, a2, b2, c2) {
                assert(v@[a2] == '.');
                assert(v@[b2] == '.');
                assert(v@[c2] == '.');
                if a < a2 {
                    lemma_octet_has_no_dot(s, 0, a2, a as int);
                }
                if b < b2 {
                    lemma_octet_has_no_dot(s, a2 + 1, b2, b as int);
                }
            }
        }
        return false;
    }
    assert(s.subrange(b + 1, c as int) =~= v@.subrange(b + 1, c as int));
    assert(s.subrange(c + 1, s.len() as int) =~= v@.subrange(c + 1, end as int));
    let third = octet_at(v, b + 1, c);
    let fourth = octet_at(v, c + 1, end);
    if !third || !fourth {
        assert forall|a2: int, b2: int, c2: int| !#[trigger] dotted_at(s, a2, b2, c2) by {
            if dotted_at(s, a2, b2, c2) {
                assert(v@[a2] == '.');
                assert(v@[b2] == '.');
                assert(v@[c2] == '.');
                if a < a2 {
                    lemma_octet_has_no_dot(s, 0, a2, a as int);
                }
                if b < b2 {
                    lemma_octet_has_no_dot(s, a2 + 1, b2, b as int);
                }
                if c < c2 {
                    lemma_octet_has_no_dot(s, b2 + 1, c2, c as int);
                }
            }
        }
        return false;
    }
    assert(dotted_at(s, a as int, b as int, c as int));
    true
}

/// Whether `s` is an IPv4 address in dotted decimal notation.
pub fn parses_as_ipv4(s: &str) -> (b: bool)
    ensures
        b == is_ipv4_literal(s@),
{
    let v = chars_of(s);
    assert(v@.take(v@.len() as int) =~= v@);
    ipv4_prefix(&v, v.len())
}

/// Whether what stands before the first colon of `s` is an IP literal.
pub fn begins_with_ip_literal(s: &str) -> (b: bool)
    ensures
        b == starts_with_ip_literal(s@),
{
    let v = chars_of(s);
    let k = find_char(&v, 0, v.len(), ':');
    let b = ipv4_prefix(&v, k);
    proof {
        assert(first_segment_end(s@, k as int));
        if !b {
            assert forall|k2: int| #[trigger] first_segment_end(s@, k2) implies !is_ipv4_literal(
                s@.take(k2),
            ) by {
                if k2 < k {
                    assert(s@[k2] == ':');
                } else if k < k2 {
                    assert(s@[k as int] == ':');
                }
            }
        }
    }
    b
}

/// Whether `s` holds `://`.
pub fn contains_scheme_mark(s: &str) -> (b: bool)
    ensures
        b == has_scheme_mark(s@),
{
    let v = chars_of(s);
    if v.len() < 3 {
        return false;
    }
    let mut i: usize = 0;
    while i < v.len() - 2
        invariant
            v@ == s@,
            v@.len() >= 3,
            forall|j: int|
                0 <= j < i ==> !(#[trigger] s@[j] == ':' && s@[j + 1] == '/' && s@[j + 2] == '/'),
        decreases v.len() - i,
    {
        if v[i] == ':' && v[i + 1] == '/' && v[i + 2] == '/' {
            return true;
        }
        i += 1;
    }
    false
}

/// What the URL parser made of a text: the URL's canonical serialization
/// and its host, where it has one.
#[derive(Debug, Clone)]
pub struct ParsedUrl {
    pub href: String,
    pub host: Option<String>,
}

/// A `ParsedUrl` as mathematics sees it.
pub struct ParsedUrlView {
    pub href: Seq<char>,
    pub host: Option<Seq<char>>,
}

impl View for ParsedUrl {
    type V = ParsedUrlView;

    open spec fn view(&self) -> ParsedUrlView {
        ParsedUrlView {
            href: self.href@,
            host: match self.host {
                Some(h) => Some(h@),
                None => None,
            },
        }
    }
}

/// The view of a parse: of the URL where there is one, of the parser's
/// message where there is none.
pub open spec fn parse_view(r: Result<ParsedUrl, String>) -> Result<ParsedUrlView, Seq<char>> {
    match r {
        Ok(p) => Ok(p@),
        Err(e) => Err(e@),
    }
}

/// What `url::Url::parse` makes of a text: the serialization and the host of
/// the URL that it returns, or the text of the error that it returns.
pub uninterp spec fn url_parse(input: Seq<char>) -> Result<ParsedUrlView, Seq<char>>;

/// Calls `url::Url::parse`. Trusted: that the parser's answer depends on the
/// text alone. For a URL it hands back what `Url::as_str` and
/// `Url::host_str` give, for an error the text that the error displays.
#[verifier::external_body]
fn parse_url(input: &str) -> (r: Result<ParsedUrl, String>)
    ensures
        parse_view(r) == url_parse(input@),
{
    match url::Url::parse(input) {
        Ok(u) => Ok(
            ParsedUrl {
                href: u.as_str().to_string(),
                host: match u.host_str() {
                    Some(h) => Some(h.to_string()),
                    None => None,
                },
            },
        ),
        Err(e) => Err(e.to_string()),
    }
}

/// The text that is handed to the URL parser for a URL without an IP literal
/// at its front: the URL itself where it holds `://`, else the URL behind
/// `https://`.
pub open spec fn candidate(url: Seq<char>) -> Seq<char> {
    if has_scheme_mark(url) {
        url
    } else {
        "https://"@ + url
    }
}

/// What normalizing gives once the parser has answered: the serialization
/// of the URL, or the parser's message behind `Invalid URL format: `.
pub open spec fn normalized_from(parsed: Result<ParsedUrlView, Seq<char>>) -> Result<
    Seq<char>,
    Seq<char>,
> {
    match parsed {
        Ok(p) => Ok(p.href),
        Err(e) => Err("Invalid URL format: "@ + e),
    }
}

/// The absolute URL for a caller's URL. Behind an IP literal at its front
/// the URL goes out over `http`, unparsed. Any other is parsed, behind
/// `https://` where it names no scheme.
pub open spec fn normalized(url: Seq<char>) -> Result<Seq<char>, Seq<char>> {
    if starts_with_ip_literal(url) {
        Ok("http://"@ + url)
    } else {
        normalized_from(url_parse(candidate(url)))
    }
}

/// The texts that a result of strings holds.
pub open spec fn result_text(r: Result<String, String>) -> Result<Seq<char>, Seq<char>> {
    match r {
        Ok(s) => Ok(s@),
        Err(e) => Err(e@),
    }
}

/// Turns the parser's answer on a candidate into the normalizer's answer.
pub fn finish_normalize(parsed: Result<ParsedUrl, String>) -> (r: Result<String, String>)
    ensures
        result_text(r) == normalized_from(parse_view(parsed)),
{
    match parsed {
        Ok(p) => Ok(p.href),
        Err(e) => Err(join("Invalid URL format: ", e.as_str())),
    }
}

/// Makes an absolute URL of a caller's URL, as `normalized` says.
pub fn normalize_url(url: &str) -> (r: Result<String, String>)
    ensures
        result_text(r) == normalized(url@),
{
    if begins_with_ip_literal(url) {
        return Ok(join("http://", url));
    }
    if contains_scheme_mark(url) {
        finish_normalize(parse_url(url))
    } else {
        let with_scheme = join("https://", url);
        finish_normalize(parse_url(with_scheme.as_str()))
    }
}

/// An IP literal has no colon, so a URL that is nothing but an IP literal
/// has one at its front.
pub proof fn lemma_bare_ip_literal_is_whole(url: Seq<char>)
    requires
        is_ipv4_literal(url),
    ensures
        starts_with_ip_literal(url),
{
    let (a, b, c) = choose|a: int, b: int, c: int| #[trigger] dotted_at(url, a, b, c);
    let n = url.len() as int;
    assert forall|j: int| 0 <= j < n implies #[trigger] url[j] != ':' by {
        if j < a {
            lemma_octet_has_no_dot(url, 0, a, j);
        } else if a < j < b {
            lemma_octet_has_no_dot(url, a + 1, b, j);
        } else if b < j < c {
            lemma_octet_has_no_dot(url, b + 1, c, j);
        } else if c < j {
            lemma_octet_has_no_dot(url, c + 1, n, j);
        }
    }
    assert(url.take(n) =~= url);
    assert(first_segment_end(url, n));
}

/// The scheme that a URL without one is given: a bare IP literal goes out
/// over `http`, as it stands; a URL that has neither an IP literal at its
/// front nor `://` is parsed behind `https://`.
pub proof fn lemma_scheme_choice(url: Seq<char>)
    ensures
        is_ipv4_literal(url) ==> normalized(url) == Ok::<Seq<char>, Seq<char>>("http://"@ + url),
        !starts_with_ip_literal(url) && !has_scheme_mark(url) ==> normalized(url)
            == normalized_from(url_parse("https://"@ + url)),
{
    if is_ipv4_literal(url) {
        lemma_bare_ip_literal_is_whole(url);
    }
}

/// What is sent: the absolute URL, its host, the method, the outbound
/// headers and the body.
#[derive(Debug, Clone)]
pub struct PreparedRequest {
    pub url: String,
    pub host: String,
    pub method: HttpMethod,
    pub headers: HeaderTable,
    pub body: Option<String>,
}

/// The failure of the preparation of a URL, or `None` where it succeeds:
/// the URL does not normalize, the normalized URL does not parse, or the
/// parsed URL has no host.
pub open spec fn preparation_failure(composed_url: Seq<char>) -> Option<(ErrorKind, Seq<char>)> {
    match normalized(composed_url) {
        Err(e) => Some(
            (ErrorKind::UrlNormalization, ErrorKind::UrlNormalization.diagnostic_text(e)),
        ),
        Ok(url) => match url_parse(url) {
            Err(e) => Some((ErrorKind::UrlParse, ErrorKind::UrlParse.diagnostic_text(e))),
            Ok(p) => match p.host {
                None => Some(
                    (
                        ErrorKind::HostExtraction,
                        ErrorKind::HostExtraction.diagnostic_text(Seq::empty()),
                    ),
                ),
                Some(_) => None,
            },
        },
    }
}

/// Whether the parser's answer on a normalized URL names a host, and the
/// failure where it does not.
pub fn host_of(parsed: Result<ParsedUrl, String>) -> (r: Result<String, Failure>)
    ensures
        match parse_view(parsed) {
            Err(e) => r is Err && r->Err_0.kind == ErrorKind::UrlParse && r->Err_0.message@
                == ErrorKind::UrlParse.diagnostic_text(e),
            Ok(p) => match p.host {
                None => r is Err && r->Err_0.kind == ErrorKind::HostExtraction
                    && r->Err_0.message@ == ErrorKind::HostExtraction.diagnostic_text(
                    Seq::empty(),
                ),
                Some(h) => r is Ok && r->Ok_0@ == h,
            },
        },
{
    match parsed {
        Err(e) => Err(
            Failure { kind: ErrorKind::UrlParse, message: ErrorKind::UrlParse.diagnostic(e.as_str()) },
        ),
        Ok(p) => match p.host {
            None => Err(
                Failure {
                    kind: ErrorKind::HostExtraction,
                    message: ErrorKind::HostExtraction.diagnostic(""),
                },
            ),
            Some(h) => Ok(h),
        },
    }
}

/// Prepares a request: normalizes its composed URL, finds the host, and
/// assembles the outbound headers. The body goes out as the caller gave it,
/// whatever the content type.
pub fn prepare_request(request: &RequestData) -> (r: Result<PreparedRequest, Failure>)
    ensures
        match preparation_failure(request.composed_url@) {
            Some((kind, message)) => r is Err && r->Err_0.kind == kind && r->Err_0.message@
                == message,
            None => {
                &&& r is Ok
                &&& Ok::<Seq<char>, Seq<char>>(r->Ok_0.url@) == normalized(request.composed_url@)
                &&& Some(r->Ok_0.host@) == url_parse(r->Ok_0.url@)->Ok_0.host
                &&& r->Ok_0.method == request.method
                &&& r->Ok_0.headers.wf()
                &&& r->Ok_0.headers@ == outbound_headers(
                    optional_views(request.headers),
                    request.content_type,
                )
                &&& r->Ok_0.body == request.body
            },
        },
{
    let url = match normalize_url(request.composed_url.as_str()) {
        Ok(u) => u,
        Err(e) => {
            return Err(
                Failure {
                    kind: ErrorKind::UrlNormalization,
                    message: ErrorKind::UrlNormalization.diagnostic(e.as_str()),
                },
            );
        },
    };
    let headers = assemble_headers(&request.headers, &request.content_type);
    let host = match host_of(parse_url(url.as_str())) {
        Ok(h) => h,
        Err(f) => {
            return Err(f);
        },
    };
    let body = match &request.body {
        Some(b) => Some(b.clone()),
        None => None,
    };
    Ok(PreparedRequest { url, host, method: request.method, headers, body })
}

} // verus!
