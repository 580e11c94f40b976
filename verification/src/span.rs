//! A span as instrumentation fills it: a name, a fixed set of fields, and
//! the remote context that it continues.
//!
//! The fields of a span are declared when it is made, some of them still
//! empty. Recording a value under a field that the span did not declare
//! changes nothing, and neither does recording on a disabled span.

use crate::context::TraceContext;
use vstd::prelude::*;

verus! {

/// The target that the spans of this library are made for. A level
/// filter has to let this target through at the level of the spans, or
/// nothing is traced.
pub const TRACING_TARGET: &'static str = "otel::tracing";

/// The fields that spans of this library carry.
#[derive(Clone, Copy, Debug, PartialEq, Eq, Structural)]
pub enum Field {
    /// `http.request.method`
    HttpRequestMethod,
    /// `http.route`
    HttpRoute,
    /// `network.protocol.version`
    NetworkProtocolVersion,
    /// `server.address`
    ServerAddress,
    /// `http.client.address`
    HttpClientAddress,
    /// `user_agent.original`
    UserAgentOriginal,
    /// `http.response.status_code`
    HttpResponseStatusCode,
    /// `url.path`
    UrlPath,
    /// `url.query`
    UrlQuery,
    /// `url.scheme`
    UrlScheme,
    /// `otel.name`
    OtelName,
    /// `otel.kind`
    OtelKind,
    /// `otel.status_code`
    OtelStatusCode,
    /// `trace_id`
    TraceId,
    /// `request_id`
    RequestId,
    /// `exception.message`
    ExceptionMessage,
    /// `exception.details`
    ExceptionDetails,
    /// `span.type`
    SpanType,
    /// `rpc.system`
    RpcSystem,
    /// `rpc.service`
    RpcService,
    /// `rpc.method`
    RpcMethod,
    /// `rpc.grpc.status_code`
    RpcGrpcStatusCode,
    /// `http.user_agent`
    HttpUserAgent,
    /// `http.client_ip`
    HttpClientIp,
    /// `http.flavor`
    HttpFlavor,
    /// `http.host`
    HttpHost,
    /// `http.method`
    HttpMethod,
    /// `http.scheme`
    HttpScheme,
    /// `http.status_code`
    HttpStatusCode,
    /// `http.target`
    HttpTarget,
    /// `http.grpc_status`
    HttpGrpcStatus,
}

impl Field {
    /// The name of the field as exporters see it.
    pub open spec fn spec_name(self) -> Seq<char> {
        match self {
            Field::HttpRequestMethod => "http.request.method"@,
            Field::HttpRoute => "http.route"@,
            Field::NetworkProtocolVersion => "network.protocol.version"@,
            Field::ServerAddress => "server.address"@,
            Field::HttpClientAddress => "http.client.address"@,
            Field::UserAgentOriginal => "user_agent.original"@,
            Field::HttpResponseStatusCode => "http.response.status_code"@,
            Field::UrlPath => "url.path"@,
            Field::UrlQuery => "url.query"@,
            Field::UrlScheme => "url.scheme"@,
            Field::OtelName => "otel.name"@,
            Field::OtelKind => "otel.kind"@,
            Field::OtelStatusCode => "otel.status_code"@,
            Field::TraceId => "trace_id"@,
            Field::RequestId => "request_id"@,
            Field::ExceptionMessage => "exception.message"@,
            Field::ExceptionDetails => "exception.details"@,
            Field::SpanType => "span.type"@,
            Field::RpcSystem => "rpc.system"@,
            Field::RpcService => "rpc.service"@,
            Field::RpcMethod => "rpc.method"@,
            Field::RpcGrpcStatusCode => "rpc.grpc.status_code"@,
            Field::HttpUserAgent => "http.user_agent"@,
            Field::HttpClientIp => "http.client_ip"@,
            Field::HttpFlavor => "http.flavor"@,
            Field::HttpHost => "http.host"@,
            Field::HttpMethod => "http.method"@,
            Field::HttpScheme => "http.scheme"@,
            Field::HttpStatusCode => "http.status_code"@,
            Field::HttpTarget => "http.target"@,
            Field::HttpGrpcStatus => "http.grpc_status"@,
        }
    }

    /// The name of the field as exporters see it.
    pub fn name(self) -> (name: &'static str)
        ensures
            name@ == self.spec_name(),
    {
        match self {
            Field::HttpRequestMethod => "http.request.method",
            Field::HttpRoute => "http.route",
            Field::NetworkProtocolVersion => "network.protocol.version",
            Field::ServerAddress => "server.address",
            Field::HttpClientAddress => "http.client.address",
            Field::UserAgentOriginal => "user_agent.original",
            Field::HttpResponseStatusCode => "http.response.status_code",
            Field::UrlPath => "url.path",
            Field::UrlQuery => "url.query",
            Field::UrlScheme => "url.scheme",
            Field::OtelName => "otel.name",
            Field::OtelKind => "otel.kind",
            Field::OtelStatusCode => "otel.status_code",
            Field::TraceId => "trace_id",
            Field::RequestId => "request_id",
            Field::ExceptionMessage => "exception.message",
            Field::ExceptionDetails => "exception.details",
            Field::SpanType => "span.type",
            Field::RpcSystem => "rpc.system",
            Field::RpcService => "rpc.service",
            Field::RpcMethod => "rpc.method",
            Field::RpcGrpcStatusCode => "rpc.grpc.status_code",
            Field::HttpUserAgent => "http.user_agent",
            Field::HttpClientIp => "http.client_ip",
            Field::HttpFlavor => "http.flavor",
            Field::HttpHost => "http.host",
            Field::HttpMethod => "http.method",
            Field::HttpScheme => "http.scheme",
            Field::HttpStatusCode => "http.status_code",
            Field::HttpTarget => "http.target",
            Field::HttpGrpcStatus => "http.grpc_status",
        }
    }
}

/// The role of a span in a request.
#[derive(Clone, Copy, Debug, PartialEq, Eq, Structural)]
pub enum SpanKind {
    Client,
    Server,
}

impl SpanKind {
    /// The kind as it is written in `otel.kind`.
    pub open spec fn spec_label(self) -> Seq<char> {
        match self {
            SpanKind::Client => "Client"@,
            SpanKind::Server => "Server"@,
        }
    }

    /// The kind as it is written in `otel.kind`.
    pub fn label(self) -> (label: &'static str)
        ensures
            label@ == self.spec_label(),
    {
        match self {
            SpanKind::Client => "Client",
            SpanKind::Server => "Server",
        }
    }
}

/// What a field holds.
#[derive(Debug)]
pub enum FieldValue {
    /// Declared, and nothing recorded yet.
    Empty,
    Text(String),
    Number(i64),
}

/// What a field holds, as a mathematical value.
pub enum Value {
    Empty,
    Text(Seq<char>),
    Number(i64),
}

impl View for FieldValue {
    type V = Value;

    open spec fn view(&self) -> Value {
        match self {
            FieldValue::Empty => Value::Empty,
            FieldValue::Text(t) => Value::Text(t@),
            FieldValue::Number(n) => Value::Number(*n),
        }
    }
}

impl FieldValue {
    /// A text value.
    pub fn text(s: &str) -> (v: FieldValue)
        ensures
            v@ == Value::Text(s@),
    {
        FieldValue::Text(s.to_owned())
    }

    /// A text value where there is text, an empty field where there is none.
    pub fn optional_text(s: Option<&str>) -> (v: FieldValue)
        ensures
            v@ == optional(opt_view(s)),
    {
        match s {
            Some(t) => FieldValue::Text(t.to_owned()),
            None => FieldValue::Empty,
        }
    }

    /// A copy of the value.
    pub fn duplicate(&self) -> (v: FieldValue)
        ensures
            v@ == self@,
    {
        match self {
            FieldValue::Empty => FieldValue::Empty,
            FieldValue::Text(t) => FieldValue::Text(t.clone()),
            FieldValue::Number(n) => FieldValue::Number(*n),
        }
    }
}

/// The view of optional borrowed text.
pub open spec fn opt_view(s: Option<&str>) -> Option<Seq<char>> {
    match s {
        Some(t) => Some(t@),
        None => None,
    }
}

/// The value that optional text records.
pub open spec fn optional(s: Option<Seq<char>>) -> Value {
    match s {
        Some(t) => Value::Text(t),
        None => Value::Empty,
    }
}

/// One declared field with what it holds.
#[derive(Debug)]
pub struct SpanEntry {
    pub key: Field,
    pub value: FieldValue,
}

/// The value of the first entry under `key`, if the fields declare `key`.
pub open spec fn lookup(fields: Seq<(Field, Value)>, key: Field) -> Option<Value>
    decreases fields.len(),
{
    if fields.len() == 0 {
        None
    } else if fields[0].0 == key {
        Some(fields[0].1)
    } else {
        lookup(fields.skip(1), key)
    }
}

/// The fields after `value` was recorded under `key`: every entry under
/// `key` holds `value`, the others are as they were.
pub open spec fn recorded(fields: Seq<(Field, Value)>, key: Field, value: Value) -> Seq<
    (Field, Value),
> {
    Seq::new(
        fields.len(),
        |i: int|
            if fields[i].0 == key {
                (key, value)
            } else {
                fields[i]
            },
    )
}

/// A span as a mathematical value.
pub struct SpanView {
    pub enabled: bool,
    pub name: Seq<char>,
    pub fields: Seq<(Field, Value)>,
    pub parent: Option<TraceContext>,
    pub link: Option<TraceContext>,
}

impl SpanView {
    /// The view after `value` was recorded under `key`.
    pub open spec fn record(self, key: Field, value: Value) -> SpanView {
        SpanView { fields: recorded(self.fields, key, value), ..self }
    }

    /// What the span holds under `key`.
    pub open spec fn get(self, key: Field) -> Option<Value> {
        lookup(self.fields, key)
    }
}

/// A span: the unit of work that a request is traced as.
#[derive(Debug)]
pub struct Span {
    enabled: bool,
    name: &'static str,
    entries: Vec<SpanEntry>,
    parent: Option<TraceContext>,
    link: Option<TraceContext>,
}

/// The views of the entries, in order.
pub open spec fn entries_view(entries: Seq<SpanEntry>) -> Seq<(Field, Value)> {
    Seq::new(entries.len(), |i: int| (entries[i].key, entries[i].value@))
}

impl View for Span {
    type V = SpanView;

    closed spec fn view(&self) -> SpanView {
        SpanView {
            enabled: self.enabled,
            name: self.name@,
            fields: entries_view(self.entries@),
            parent: self.parent,
            link: self.link,
        }
    }
}

impl Span {
    /// A disabled span: it declares nothing and records nothing.
    pub fn none() -> (span: Span)
        ensures
            span@ == (SpanView {
                enabled: false,
                name: Seq::empty(),
                fields: Seq::empty(),
                parent: None,
                link: None,
            }),
    {
        proof {
            reveal_strlit("");
        }
        let span = Span { enabled: false, name: "", entries: Vec::new(), parent: None, link: None };
        assert(span@.fields =~= Seq::empty());
        assert(span@.name =~= Seq::empty());
        span
    }

    /// An enabled span that declares `entries`, in that order.
    pub fn new(name: &'static str, entries: Vec<SpanEntry>) -> (span: Span)
        ensures
            span@ == (SpanView {
                enabled: true,
                name: name@,
                fields: entries_view(entries@),
                parent: None,
                link: None,
            }),
    {
        Span { enabled: true, name, entries, parent: None, link: None }
    }

    /// Whether the span is enabled.
    pub fn is_enabled(&self) -> (b: bool)
        ensures
            b == self@.enabled,
    {
        self.enabled
    }

    /// Whether the span is disabled.
    pub fn is_none(&self) -> (b: bool)
        ensures
            b == !self@.enabled,
    {
        !self.enabled
    }

    /// The name of the span.
    pub fn name(&self) -> (name: &'static str)
        ensures
            name@ == self@.name,
    {
        self.name
    }

    /// The number of declared fields.
    pub fn len(&self) -> (n: usize)
        ensures
            n == self@.fields.len(),
    {
        self.entries.len()
    }

    /// The declared fields with what they hold, in the order in which the
    /// span declares them.
    pub fn fields(&self) -> (entries: &Vec<SpanEntry>)
        ensures
            entries_view(entries@) == self@.fields,
    {
        &self.entries
    }

    /// The remote context that the span continues, if one was set.
    pub fn parent(&self) -> (parent: Option<&TraceContext>)
        ensures
            match parent {
                Some(p) => self@.parent == Some(*p),
                None => self@.parent.is_none(),
            },
    {
        self.parent.as_ref()
    }

    /// The context that the span is linked to, if one was set.
    pub fn link(&self) -> (link: Option<&TraceContext>)
        ensures
            match link {
                Some(p) => self@.link == Some(*p),
                None => self@.link.is_none(),
            },
    {
        self.link.as_ref()
    }

    /// What the span holds under `key`, if it declares `key`.
    pub fn get(&self, key: Field) -> (value: Option<&FieldValue>)
        ensures
            match value {
                Some(v) => self@.get(key) == Some(v@),
                None => self@.get(key).is_none(),
            },
    {
        let ghost fields = self@.fields;
        assert(fields.skip(0) == fields);
        let mut i: usize = 0;
        while i < self.entries.len()
            invariant
                i <= self.entries.len(),
                fields == self@.fields,
                fields.len() == self.entries.len(),
                lookup(fields, key) == lookup(fields.skip(i as int), key),
            decreases self.entries.len() - i,
        {
            if self.entries[i].key == key {
                return Some(&self.entries[i].value);
            }
            assert(fields.skip(i as int).skip(1) == fields.skip(i + 1));
            i += 1;
        }
        None
    }

    /// The text that the span holds under `key`, if it holds text there.
    pub fn text(&self, key: Field) -> (value: Option<&str>)
        ensures
            match value {
                Some(t) => self@.get(key) == Some(Value::Text(t@)),
                None => !(self@.get(key) matches Some(Value::Text(_))),
            },
    {
        match self.get(key) {
            Some(FieldValue::Text(t)) => Some(t.as_str()),
            _ => None,
        }
    }

    /// The number that the span holds under `key`, if it holds one there.
    pub fn number(&self, key: Field) -> (value: Option<i64>)
        ensures
            match value {
                Some(n) => self@.get(key) == Some(Value::Number(n)),
                None => !(self@.get(key) matches Some(Value::Number(_))),
            },
    {
        match self.get(key) {
            Some(FieldValue::Number(n)) => Some(*n),
            _ => None,
        }
    }

    /// Records `value` under `key`. A span that does not declare `key`
    /// stays as it is.
    pub fn record(&mut self, key: Field, value: FieldValue)
        ensures
            final(self)@ == old(self)@.record(key, value@),
    {
        let ghost before = self@.fields;
        let mut i: usize = 0;
        while i < self.entries.len()
            invariant
                i <= self.entries.len(),
                self.entries.len() == before.len(),
                self.enabled == old(self).enabled,
                self.name == old(self).name,
                self.parent == old(self).parent,
                self.link == old(self).link,
                before == old(self)@.fields,
                forall|j: int|
                    0 <= j < i ==> (#[trigger] self.entries@[j]).key == recorded(
                        before,
                        key,
                        value@,
                    )[j].0 && self.entries@[j].value@ == recorded(before, key, value@)[j].1,
                forall|j: int|
                    i <= j < before.len() ==> (#[trigger] self.entries@[j]).key == before[j].0
                        && self.entries@[j].value@ == before[j].1,
            decreases self.entries.len() - i,
        {
            if self.entries[i].key == key {
                let entry = SpanEntry { key, value: value.duplicate() };
                self.entries.set(i, entry);
            }
            i += 1;
        }
        assert(self@.fields =~= recorded(before, key, value@));
    }

    /// Sets the remote context that the span continues. A disabled span
    /// stays as it is.
    pub fn set_parent(&mut self, context: TraceContext)
        ensures
            final(self)@ == (if old(self)@.enabled {
                SpanView { parent: Some(context), ..old(self)@ }
            } else {
                old(self)@
            }),
    {
        if self.enabled {
            self.parent = Some(context);
        }
    }

    /// Links the span to a context that it does not descend from. A
    /// disabled span stays as it is.
    pub fn add_link(&mut self, context: TraceContext)
        ensures
            final(self)@ == (if old(self)@.enabled {
                SpanView { link: Some(context), ..old(self)@ }
            } else {
                old(self)@
            }),
    {
        if self.enabled {
            self.link = Some(context);
        }
    }
}

/// An entry that holds text.
pub fn text_entry(key: Field, value: &str) -> (entry: SpanEntry)
    ensures
        entry.key == key,
        entry.value@ == Value::Text(value@),
{
    SpanEntry { key, value: FieldValue::text(value) }
}

/// An entry that holds nothing yet.
pub fn empty_entry(key: Field) -> (entry: SpanEntry)
    ensures
        entry.key == key,
        entry.value@ == Value::Empty,
{
    SpanEntry { key, value: FieldValue::Empty }
}

/// Where `key` is declared at position `at` and nowhere before it, the
/// span holds under `key` what stands at that position.
pub proof fn lemma_lookup_at(fields: Seq<(Field, Value)>, key: Field, at: int)
    requires
        0 <= at < fields.len(),
        fields[at].0 == key,
        forall|i: int| 0 <= i < at ==> (#[trigger] fields[i]).0 != key,
    ensures
        lookup(fields, key) == Some(fields[at].1),
    decreases at,
{
    if at > 0 {
        let rest = fields.skip(1);
        lemma_lookup_at(rest, key, at - 1);
    }
}

/// Recording the same value under the same field a second time changes
/// nothing.
pub proof fn lemma_record_twice(fields: Seq<(Field, Value)>, key: Field, value: Value)
    ensures
        recorded(recorded(fields, key, value), key, value) == recorded(fields, key, value),
{
}

/// Recording under a declared field makes the span hold the value there.
pub proof fn lemma_record_then_get(fields: Seq<(Field, Value)>, key: Field, value: Value)
    ensures
        lookup(recorded(fields, key, value), key) == (if lookup(fields, key).is_some() {
            Some(value)
        } else {
            None
        }),
    decreases fields.len(),
{
    let after = recorded(fields, key, value);
    if fields.len() > 0 {
        if fields[0].0 != key {
            assert(after.skip(1) =~= recorded(fields.skip(1), key, value));
            lemma_record_then_get(fields.skip(1), key, value);
        }
    }
}

/// Recording under one field leaves what the span holds under the others.
pub proof fn lemma_record_keeps_others(
    fields: Seq<(Field, Value)>,
    key: Field,
    value: Value,
    other: Field,
)
    requires
        other != key,
    ensures
        lookup(recorded(fields, key, value), other) == lookup(fields, other),
    decreases fields.len(),
{
    let after = recorded(fields, key, value);
    if fields.len() > 0 {
        assert(after.skip(1) =~= recorded(fields.skip(1), key, value));
        lemma_record_keeps_others(fields.skip(1), key, value, other);
    }
}

} // verus!
