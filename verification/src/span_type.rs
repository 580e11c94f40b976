//! The category of work that a span stands for.

use vstd::prelude::*;

verus! {

/// A coarse category for a span, recorded under `span.type`. Some
/// backends sort traces by it.
#[derive(Clone, Copy, Debug, PartialEq, Eq, Structural)]
pub enum SpanType {
    Web,
    Http,
    Sql,
    Cassandra,
    Redis,
    Memcached,
    Mongodb,
    Elasticsearch,
    Leveldb,
    Dns,
    Queue,
    Consul,
    Graphql,
}

impl SpanType {
    /// The category in lower case.
    pub open spec fn spec_label(self) -> Seq<char> {
        match self {
            SpanType::Web => "web"@,
            SpanType::Http => "http"@,
            SpanType::Sql => "sql"@,
            SpanType::Cassandra => "cassandra"@,
            SpanType::Redis => "redis"@,
            SpanType::Memcached => "memcached"@,
            SpanType::Mongodb => "mongodb"@,
            SpanType::Elasticsearch => "elasticsearch"@,
            SpanType::Leveldb => "leveldb"@,
            SpanType::Dns => "dns"@,
            SpanType::Queue => "queue"@,
            SpanType::Consul => "consul"@,
            SpanType::Graphql => "graphql"@,
        }
    }

    /// The category in lower case.
    pub fn label(self) -> (label: &'static str)
        ensures
            label@ == self.spec_label(),
    {
        match self {
            SpanType::Web => "web",
            SpanType::Http => "http",
            SpanType::Sql => "sql",
            SpanType::Cassandra => "cassandra",
            SpanType::Redis => "redis",
            SpanType::Memcached => "memcached",
            SpanType::Mongodb => "mongodb",
            SpanType::Elasticsearch => "elasticsearch",
            SpanType::Leveldb => "leveldb",
            SpanType::Dns => "dns",
            SpanType::Queue => "queue",
            SpanType::Consul => "consul",
            SpanType::Graphql => "graphql",
        }
    }

    /// The category in lower case, as owned text.
    pub fn to_string(&self) -> (s: String)
        ensures
            s@ == self.spec_label(),
    {
        self.label().to_owned()
    }
}

} // verus!
