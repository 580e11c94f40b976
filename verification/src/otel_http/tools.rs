//! Small readers of request data: the gRPC service and method in a path,
//! the client address behind proxies, and the plain accessors that span
//! fields are filled from.

use crate::otel_http::headers::{
    first_value, header_get, header_str, header_text, header_value_str, is_plain_name,
};
use crate::otel_http::request::{opt_str, opt_text, HttpVersion, RequestHead, RequestUri};
use crate::text::{
    chars_of, find_class, has_prefix, range_has_prefix, skip_leading, skip_trailing, trim,
    trim_end_matches, trim_matches, trim_range, trim_start_matches, until, CharClass,
};
use http::HeaderMap;
use vstd::prelude::*;

verus! {

/// The segment of `path` that starts at the first character that is no
/// slash, and what follows that segment.
pub open spec fn next_segment(path: Seq<char>) -> (Seq<char>, Seq<char>) {
    let slash = CharClass::Only('/');
    let rest = trim_start_matches(path, slash);
    (rest.take(until(rest, slash) as int), rest.skip(until(rest, slash) as int))
}

/// Service and method of a gRPC path `/service/method`: the first two
/// segments that are not empty. A path with fewer than two such segments
/// names neither.
pub open spec fn service_method(path: Seq<char>) -> (Seq<char>, Seq<char>) {
    let (service, rest) = next_segment(path);
    let (method, _) = next_segment(rest);
    if method.len() > 0 {
        (service, method)
    } else {
        (Seq::empty(), Seq::empty())
    }
}

/// The bounds of the first segment of `lo..` that is not empty.
fn segment_range(cs: &Vec<char>, lo: usize) -> (r: (usize, usize))
    requires
        lo <= cs.len(),
    ensures
        lo <= r.0 <= r.1 <= cs.len(),
        cs@.subrange(r.0 as int, r.1 as int) == next_segment(
            cs@.subrange(lo as int, cs.len() as int),
        ).0,
        cs@.subrange(r.1 as int, cs.len() as int) == next_segment(
            cs@.subrange(lo as int, cs.len() as int),
        ).1,
{
    let slash = CharClass::Only('/');
    let n = cs.len();
    let a = skip_leading(cs, lo, n, slash);
    let b = find_class(cs, a, n, slash);
    (a, b)
}

/// Splits a gRPC request path into service and method.
pub fn extract_service_method<'a>(path: &'a str) -> (r: (&'a str, &'a str))
    ensures
        (r.0@, r.1@) == service_method(path@),
{
    let cs = chars_of(path);
    assert(cs@.subrange(0, cs.len() as int) == cs@);
    let (a, b) = segment_range(&cs, 0);
    let (c, d) = segment_range(&cs, b);
    if c < d {
        (path.substring_char(a, b), path.substring_char(c, d))
    } else {
        (path.substring_char(0, 0), path.substring_char(0, 0))
    }
}

/// The first of the comma-separated pieces of `value`, without the white
/// space around it.
pub open spec fn first_listed(value: Seq<char>) -> Seq<char> {
    trim(value.take(until(value, CharClass::Only(',')) as int))
}

/// The text `for=`.
pub open spec fn for_key() -> Seq<char> {
    seq!['f', 'o', 'r', '=']
}

/// A `for` value without what encloses it: square brackets, then double
/// quotes, then white space.
pub open spec fn undecorated(value: Seq<char>) -> Seq<char> {
    trim(
        trim_matches(
            trim_end_matches(
                trim_start_matches(value, CharClass::Only('[')),
                CharClass::Only(']'),
            ),
            CharClass::Only('"'),
        ),
    )
}

/// The value of the first `for=` directive of a `Forwarded` header value,
/// whose directives are separated by `;` and by `,`.
pub open spec fn forwarded_for(value: Seq<char>) -> Option<Seq<char>>
    decreases value.len(),
{
    let end = until(value, CharClass::Either(';', ','));
    let directive = trim(value.take(end as int));
    if has_prefix(directive, for_key()) {
        Some(undecorated(directive.skip(4)))
    } else if end >= value.len() {
        None
    } else {
        forwarded_for(value.skip(end as int + 1))
    }
}

/// The client address that `X-Forwarded-For` names: the leftmost entry.
pub open spec fn client_ip_from_x_forwarded_for(headers: HeaderMap) -> Option<Seq<char>> {
    match header_text(headers, "x-forwarded-for"@) {
        Some(value) => Some(first_listed(value)),
        None => None,
    }
}

/// The client address that `Forwarded` names: its first `for=` value.
pub open spec fn client_ip_from_forwarded(headers: HeaderMap) -> Option<Seq<char>> {
    match header_text(headers, "forwarded"@) {
        Some(value) => forwarded_for(value),
        None => None,
    }
}

/// The client address that the headers name: `Forwarded` first, then
/// `X-Forwarded-For`.
pub open spec fn client_ip_from_headers(headers: HeaderMap) -> Option<Seq<char>> {
    match client_ip_from_forwarded(headers) {
        Some(ip) => Some(ip),
        None => client_ip_from_x_forwarded_for(headers),
    }
}

/// Reads the leftmost entry of `X-Forwarded-For`.
pub fn extract_client_ip_from_x_forwarded_for<'a>(headers: &'a HeaderMap) -> (ip: Option<&'a str>)
    ensures
        opt_str(ip) == client_ip_from_x_forwarded_for(*headers),
{
    proof {
        lemma_header_names();
    }
    match header_str(headers, "x-forwarded-for") {
        None => None,
        Some(value) => {
            let cs = chars_of(value);
            assert(cs@.subrange(0, cs.len() as int) == cs@);
            let end = find_class(&cs, 0, cs.len(), CharClass::Only(','));
            let (a, b) = trim_range(&cs, 0, end, CharClass::Whitespace);
            Some(value.substring_char(a, b))
        },
    }
}

/// Finds the first `for=` directive in the characters of a `Forwarded`
/// value and returns the bounds of its undecorated value.
fn forwarded_for_range(cs: &Vec<char>) -> (r: Option<(usize, usize)>)
    ensures
        match r {
            Some((a, b)) => a <= b <= cs.len() && forwarded_for(cs@) == Some(
                cs@.subrange(a as int, b as int),
            ),
            None => forwarded_for(cs@).is_none(),
        },
{
    let n = cs.len();
    let key = chars_of("for=");
    proof {
        reveal_strlit("for=");
        assert(cs@.subrange(0, n as int) == cs@);
    }
    let mut lo: usize = 0;
    loop
        invariant
            lo <= n == cs.len(),
            key@ == for_key(),
            forwarded_for(cs@) == forwarded_for(cs@.subrange(lo as int, n as int)),
        decreases n - lo,
    {
        let ghost value = cs@.subrange(lo as int, n as int);
        let end = find_class(cs, lo, n, CharClass::Either(';', ','));
        assert(value.take(end - lo) == cs@.subrange(lo as int, end as int));
        let (a, b) = trim_range(cs, lo, end, CharClass::Whitespace);
        if range_has_prefix(cs, a, b, &key) {
            let from = a + 4;
            assert(cs@.subrange(a as int, b as int).skip(4) == cs@.subrange(
                from as int,
                b as int,
            ));
            let open = skip_leading(cs, from, b, CharClass::Only('['));
            let close = skip_trailing(cs, open, b, CharClass::Only(']'));
            let (quoted_lo, quoted_hi) = trim_range(cs, open, close, CharClass::Only('"'));
            return Some(trim_range(cs, quoted_lo, quoted_hi, CharClass::Whitespace));
        }
        if end >= n {
            return None;
        }
        assert(value.skip(end - lo + 1) == cs@.subrange(end + 1, n as int));
        lo = end + 1;
    }
}

/// Reads the first `for=` value of `Forwarded`.
pub fn extract_client_ip_from_forwarded<'a>(headers: &'a HeaderMap) -> (ip: Option<&'a str>)
    ensures
        opt_str(ip) == client_ip_from_forwarded(*headers),
{
    proof {
        lemma_header_names();
    }
    match header_str(headers, "forwarded") {
        None => None,
        Some(value) => {
            let cs = chars_of(value);
            match forwarded_for_range(&cs) {
                Some((a, b)) => Some(value.substring_char(a, b)),
                None => None,
            }
        },
    }
}

/// Reads the client address from the headers that proxies add.
pub fn extract_client_ip_from_headers<'a>(headers: &'a HeaderMap) -> (ip: Option<&'a str>)
    ensures
        opt_str(ip) == client_ip_from_headers(*headers),
{
    match extract_client_ip_from_forwarded(headers) {
        Some(ip) => Some(ip),
        None => extract_client_ip_from_x_forwarded_for(headers),
    }
}

/// The request target: path and query as written, or nothing.
pub fn http_target<'a>(uri: &'a RequestUri) -> (target: &'a str)
    ensures
        target@ == match uri.path_and_query {
            Some(t) => t@,
            None => Seq::empty(),
        },
{
    match &uri.path_and_query {
        Some(t) => t.as_str(),
        None => {
            proof {
                reveal_strlit("");
            }
            ""
        },
    }
}

/// The number that names a protocol version.
pub open spec fn flavor_of(version: HttpVersion) -> Seq<char> {
    match version {
        HttpVersion::Http09 => "0.9"@,
        HttpVersion::Http10 => "1.0"@,
        HttpVersion::Http11 => "1.1"@,
        HttpVersion::H2 => "2.0"@,
        HttpVersion::H3 => "3.0"@,
    }
}

/// The protocol version as it is written in a span.
pub fn http_flavor(version: HttpVersion) -> (flavor: &'static str)
    ensures
        flavor@ == flavor_of(version),
{
    match version {
        HttpVersion::Http09 => "0.9",
        HttpVersion::Http10 => "1.0",
        HttpVersion::Http11 => "1.1",
        HttpVersion::H2 => "2.0",
        HttpVersion::H3 => "3.0",
    }
}

/// The scheme of the target, or nothing.
pub fn url_scheme<'a>(uri: &'a RequestUri) -> (scheme: &'a str)
    ensures
        scheme@ == match uri.scheme {
            Some(s) => s@,
            None => Seq::empty(),
        },
{
    match &uri.scheme {
        Some(s) => s.as_str(),
        None => {
            proof {
                reveal_strlit("");
            }
            ""
        },
    }
}

/// The text of the first value under `name`, or nothing where the header
/// is missing or is no text.
pub open spec fn text_or_empty(headers: HeaderMap, name: Seq<char>) -> Seq<char> {
    match header_text(headers, name) {
        Some(text) => text,
        None => Seq::empty(),
    }
}

/// Reads a header as text, taking a missing or unreadable one as empty.
pub(crate) fn header_or_empty<'a>(headers: &'a HeaderMap, name: &str) -> (text: &'a str)
    requires
        is_plain_name(name@),
    ensures
        text@ == text_or_empty(*headers, name@),
{
    match header_str(headers, name) {
        Some(text) => text,
        None => {
            proof {
                reveal_strlit("");
            }
            ""
        },
    }
}

/// The names of the headers that this library reads are plain.
pub proof fn lemma_header_names()
    ensures
        is_plain_name("x-forwarded-for"@),
        is_plain_name("forwarded"@),
        is_plain_name("user-agent"@),
        is_plain_name("host"@),
        is_plain_name("grpc-status"@),
{
    reveal_strlit("x-forwarded-for");
    reveal_strlit("forwarded");
    reveal_strlit("user-agent");
    reveal_strlit("host");
    reveal_strlit("grpc-status");
}

/// The `User-Agent` of a request; nothing where the header is missing or
/// is no text.
pub open spec fn user_agent_of(req: RequestHead) -> Seq<char> {
    match header_text(req.headers, "user-agent"@) {
        Some(text) => text,
        None => Seq::empty(),
    }
}

/// Reads the `User-Agent` header.
pub fn user_agent<'a>(req: &'a RequestHead) -> (agent: &'a str)
    ensures
        agent@ == user_agent_of(*req),
{
    proof {
        lemma_header_names();
        reveal_strlit("");
    }
    match header_str(&req.headers, "user-agent") {
        Some(text) => text,
        None => "",
    }
}

/// The host that a request addresses: the `Host` header where the request
/// has one (nothing where that is no text), else the host of the target.
pub open spec fn host_of(req: RequestHead) -> Seq<char> {
    if first_value(req.headers, "host"@).is_some() {
        match header_text(req.headers, "host"@) {
            Some(text) => text,
            None => Seq::empty(),
        }
    } else {
        match req.uri.host {
            Some(h) => h@,
            None => Seq::empty(),
        }
    }
}

/// Reads the host that a request addresses.
pub fn http_host<'a>(req: &'a RequestHead) -> (host: &'a str)
    ensures
        host@ == host_of(*req),
{
    proof {
        lemma_header_names();
        reveal_strlit("");
    }
    match header_get(&req.headers, "host") {
        Some(value) => match header_value_str(value) {
            Some(text) => text,
            None => "",
        },
        None => match &req.uri.host {
            Some(h) => h.as_str(),
            None => "",
        },
    }
}

} // verus!
