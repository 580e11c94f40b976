//! The layer that opens a span for each incoming request.

use crate::context::{create_context_with_trace, span_context, TraceContext};
use crate::encoding::hex_lower;
use crate::filter::{path_accepted, path_verdict};
use crate::otel_http::http_server::{http_fields, http_span, make_span_from_request};
use crate::otel_http::request::{opt_text, RequestHead};
use crate::otel_http::tools::{client_ip_from_headers, extract_client_ip_from_headers};
use crate::span::{
    lemma_lookup_at, lemma_record_keeps_others, lemma_record_then_get, recorded, Field,
    FieldValue, Span, SpanView, Value,
};
use crate::text::{trim, trimmed};
use vstd::prelude::*;

verus! {

/// Makes the layer with its defaults: every request is traced, and the
/// address of the client is not looked for.
pub fn opentelemetry_tracing_layer<F: Fn(&str) -> bool>() -> (layer: OtelAxumLayer<F>)
    ensures
        layer.filter.is_none(),
        !layer.try_extract_client_ip,
{
    OtelAxumLayer { filter: None, try_extract_client_ip: false }
}

/// A layer whose service traces each request in a span of its own, as a
/// child of the trace that the request came in with.
///
/// `F` is the type of the filter on request paths.
#[derive(Debug, Clone)]
pub struct OtelAxumLayer<F> {
    pub filter: Option<F>,
    pub try_extract_client_ip: bool,
}

impl<F: Fn(&str) -> bool> OtelAxumLayer<F> {
    /// Traces only the requests whose path `filter` accepts.
    pub fn filter(self, filter: F) -> (layer: Self)
        ensures
            layer.filter == Some(filter),
            layer.try_extract_client_ip == self.try_extract_client_ip,
    {
        let mut me = self;
        me.filter = Some(filter);
        me
    }

    /// Turns the search for the address of the client on or off. The
    /// address is taken from the `Forwarded` header, else from
    /// `X-Forwarded-For`, else from the connection, and recorded under
    /// `http.client.address`.
    pub fn try_extract_client_ip(self, enable: bool) -> (layer: Self)
        ensures
            layer.filter == self.filter,
            layer.try_extract_client_ip == enable,
    {
        let mut me = self;
        me.try_extract_client_ip = enable;
        me
    }

    /// Wraps `inner`.
    pub fn layer<S>(self, inner: S) -> (service: OtelAxumService<S, F>)
        ensures
            service.inner == inner,
            service.filter == self.filter,
            service.try_extract_client_ip == self.try_extract_client_ip,
    {
        OtelAxumService {
            inner,
            filter: self.filter,
            try_extract_client_ip: self.try_extract_client_ip,
        }
    }
}

/// The service of [`OtelAxumLayer`].
#[derive(Debug, Clone)]
pub struct OtelAxumService<S, F> {
    pub inner: S,
    pub filter: Option<F>,
    pub try_extract_client_ip: bool,
}

/// The route that the router matched, or nothing.
pub open spec fn route_of(req: RequestHead) -> Seq<char> {
    match req.matched_path {
        Some(r) => r@,
        None => Seq::empty(),
    }
}

/// The address of the client where it is looked for: what the headers
/// name, else the peer of the connection.
pub open spec fn client_address(req: RequestHead, enabled: bool) -> Option<Seq<char>> {
    if enabled {
        match client_ip_from_headers(req.headers) {
            Some(ip) => Some(ip),
            None => opt_text(req.peer_addr),
        }
    } else {
        None
    }
}

/// The span of a traced request: that of the HTTP server, with the route
/// filled in, named after method and route, with the address of the client
/// where one was found and with the trace identifier of `context`, the
/// context that the span is made under.
pub open spec fn traced_span(
    req: RequestHead,
    try_extract_client_ip: bool,
    context: TraceContext,
) -> SpanView {
    let named = http_span(req).record(Field::HttpRoute, Value::Text(route_of(req))).record(
        Field::OtelName,
        Value::Text(trim(req.method@ + seq![' '] + route_of(req))),
    );
    let addressed = match client_address(req, try_extract_client_ip) {
        Some(ip) => named.record(Field::HttpClientAddress, Value::Text(ip)),
        None => named,
    };
    SpanView {
        parent: Some(context),
        ..addressed.record(Field::TraceId, Value::Text(hex_lower(context.trace_id@)))
    }
}

/// A disabled span.
pub open spec fn no_span() -> SpanView {
    SpanView {
        enabled: false,
        name: Seq::empty(),
        fields: Seq::empty(),
        parent: None,
        link: None,
    }
}

fn http_route<'a>(req: &'a RequestHead) -> (route: &'a str)
    ensures
        route@ == route_of(*req),
{
    match &req.matched_path {
        Some(r) => r.as_str(),
        None => {
            proof {
                reveal_strlit("");
            }
            ""
        },
    }
}

/// Makes the span of a request that is traced, under `context`.
pub fn make_span(req: &RequestHead, try_extract_client_ip: bool, context: TraceContext) -> (span:
    Span)
    ensures
        span@ == traced_span(*req, try_extract_client_ip, context),
{
    let route = http_route(req);
    let client_ip: Option<String> = if try_extract_client_ip {
        match extract_client_ip_from_headers(&req.headers) {
            Some(ip) => Some(ip.to_owned()),
            None => match &req.peer_addr {
                Some(addr) => Some(addr.clone()),
                None => None,
            },
        }
    } else {
        None
    };
    let mut span = make_span_from_request(req);
    span.record(Field::HttpRoute, FieldValue::text(route));
    let mut name = req.method.clone();
    proof {
        reveal_strlit(" ");
    }
    name.append(" ");
    name.append(route);
    assert(name@ =~= req.method@ + seq![' '] + route_of(*req));
    span.record(Field::OtelName, FieldValue::text(trimmed(name.as_str())));
    if let Some(ip) = client_ip {
        span.record(Field::HttpClientAddress, FieldValue::text(ip.as_str()));
    }
    let trace_id = context.trace_id_hex();
    span.record(Field::TraceId, FieldValue::text(trace_id.as_str()));
    span.set_parent(context);
    span
}

impl<S, F: Fn(&str) -> bool> OtelAxumService<S, F> {
    /// Decides how a request is traced, and returns the span that the
    /// inner service is to handle it in: the span of the request where the
    /// filter lets it through, a disabled span where it does not.
    ///
    /// `remote` is the context that the headers of the request carried. A
    /// request that brought no valid context is traced under the fallback
    /// identifiers, so that its span shows a trace identifier all the
    /// same.
    pub fn call(
        &self,
        req: &RequestHead,
        remote: TraceContext,
        fallback_trace_id: [u8; 16],
        fallback_span_id: [u8; 8],
    ) -> (span: Span)
        requires
            self.filter matches Some(f) ==> forall|path: &str| #[trigger] f.requires((path,)),
        ensures
            exists|path: &str, accepted: bool|
                path@ == req.uri.path@ && #[trigger] path_verdict(self.filter, path, accepted)
                    && span@ == (if accepted {
                    traced_span(
                        *req,
                        self.try_extract_client_ip,
                        span_context(remote, fallback_trace_id, fallback_span_id),
                    )
                } else {
                    no_span()
                }),
    {
        let path = req.uri.path.as_str();
        let accepted = path_accepted(&self.filter, path);
        let span = if accepted {
            let (context, _) = create_context_with_trace(
                remote,
                fallback_trace_id,
                fallback_span_id,
            );
            make_span(req, self.try_extract_client_ip, context)
        } else {
            Span::none()
        };
        span
    }
}

/// A traced request shows the trace identifier of the context that its
/// span is made under, as 32 hexadecimal digits: that of the request where
/// the request brought a valid context, the fallback identifier where it
/// did not. The field is never empty.
pub proof fn lemma_traced_span_shows_trace_id(
    req: RequestHead,
    try_extract_client_ip: bool,
    remote: TraceContext,
    fallback_trace_id: [u8; 16],
    fallback_span_id: [u8; 8],
)
    ensures
        ({
            let context = span_context(remote, fallback_trace_id, fallback_span_id);
            let span = traced_span(req, try_extract_client_ip, context);
            &&& span.get(Field::TraceId) == Some(Value::Text(hex_lower(context.trace_id@)))
            &&& hex_lower(context.trace_id@).len() == 32
            &&& span.parent == Some(context)
            &&& remote.valid() ==> context == remote
            &&& !remote.valid() ==> context.trace_id == fallback_trace_id
        }),
{
    let context = span_context(remote, fallback_trace_id, fallback_span_id);
    let start = http_fields(req);
    lemma_lookup_at(start, Field::TraceId, 13);
    let routed = recorded(start, Field::HttpRoute, Value::Text(route_of(req)));
    lemma_record_keeps_others(start, Field::HttpRoute, Value::Text(route_of(req)), Field::TraceId);
    let name = Value::Text(trim(req.method@ + seq![' '] + route_of(req)));
    let named = recorded(routed, Field::OtelName, name);
    lemma_record_keeps_others(routed, Field::OtelName, name, Field::TraceId);
    match client_address(req, try_extract_client_ip) {
        Some(ip) => {
            lemma_record_keeps_others(
                named,
                Field::HttpClientAddress,
                Value::Text(ip),
                Field::TraceId,
            );
            lemma_record_then_get(
                recorded(named, Field::HttpClientAddress, Value::Text(ip)),
                Field::TraceId,
                Value::Text(hex_lower(context.trace_id@)),
            );
        },
        None => {
            lemma_record_then_get(
                named,
                Field::TraceId,
                Value::Text(hex_lower(context.trace_id@)),
            );
        },
    }
}

} // verus!
