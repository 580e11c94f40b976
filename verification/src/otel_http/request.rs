//! The parts of a request and of a response that instrumentation reads.

use http::HeaderMap;
use vstd::prelude::*;

verus! {

/// The protocol version that a request was made with.
#[derive(Clone, Copy, Debug, PartialEq, Eq, Structural)]
pub enum HttpVersion {
    Http09,
    Http10,
    Http11,
    H2,
    H3,
}

/// A request target, taken apart.
pub struct RequestUri {
    /// The scheme, where the target is in absolute form.
    pub scheme: Option<String>,
    /// The host of the authority, where the target has one.
    pub host: Option<String>,
    /// The path; empty where the target has none.
    pub path: String,
    /// What follows the `?`, where the target has a query.
    pub query: Option<String>,
    /// Path and query as they were written, where the target has a path.
    pub path_and_query: Option<String>,
}

/// The head of a request, with what the server knows about its arrival.
pub struct RequestHead {
    /// The method, in upper case for the standard ones.
    pub method: String,
    pub uri: RequestUri,
    pub version: HttpVersion,
    pub headers: HeaderMap,
    /// The route pattern that the router matched, if it matched one.
    pub matched_path: Option<String>,
    /// The target before nested routers removed their prefix from it.
    pub original_uri: Option<RequestUri>,
    /// The address of the peer, as text, if the connection told it.
    pub peer_addr: Option<String>,
}

/// The head of a response.
pub struct ResponseHead {
    /// The status code, 100 to 999.
    pub status: u16,
    pub headers: HeaderMap,
}

/// What is known of a call that failed without a response.
pub struct ErrorInfo {
    /// The failure in words.
    pub message: String,
    /// The cause of the failure in words, where it names one.
    pub source: Option<String>,
}

/// The view of optional text.
pub open spec fn opt_text(s: Option<String>) -> Option<Seq<char>> {
    match s {
        Some(t) => Some(t@),
        None => None,
    }
}

/// The view of optional borrowed text.
pub open spec fn opt_str(s: Option<&str>) -> Option<Seq<char>> {
    match s {
        Some(t) => Some(t@),
        None => None,
    }
}

} // verus!
