//! Log records as the collector hands them to tests.

use crate::collector::common::{cnv_attributes, collected, pairs, KeyValue};
use crate::collector::trace::lemma_flatten_step;
use crate::encoding::{hex_encode, hex_lower};
use vstd::prelude::*;

verus! {

/// A log record as it arrives, with identifiers as bytes and the body in
/// the form that it is printed in.
#[derive(Debug)]
pub struct LogRecord {
    pub trace_id: Vec<u8>,
    pub span_id: Vec<u8>,
    pub observed_time_unix_nano: u64,
    pub severity_number: i32,
    pub severity_text: String,
    pub body: Option<String>,
    pub attributes: Vec<KeyValue>,
    pub dropped_attributes_count: u32,
    pub flags: u32,
}

/// The log records of one instrumentation scope.
#[derive(Debug)]
pub struct ScopeLogs {
    pub log_records: Vec<LogRecord>,
}

/// The log records of one resource.
#[derive(Debug)]
pub struct ResourceLogs {
    pub scope_logs: Vec<ScopeLogs>,
}

/// What one export call brings.
#[derive(Debug)]
pub struct ExportLogsServiceRequest {
    pub resource_logs: Vec<ResourceLogs>,
}

/// A log record as tests see it: identifiers in hexadecimal, attributes
/// in the order of their keys, everything else as it arrived.
#[derive(Debug)]
pub struct ExportedLog {
    pub trace_id: String,
    pub span_id: String,
    pub observed_time_unix_nano: u64,
    pub severity_number: i32,
    pub severity_text: String,
    pub body: Option<String>,
    pub attributes: Vec<KeyValue>,
    pub dropped_attributes_count: u32,
    pub flags: u32,
}

/// Optional text as a mathematical value.
pub open spec fn text_view(s: Option<String>) -> Option<Seq<char>> {
    match s {
        Some(t) => Some(t@),
        None => None,
    }
}

/// Whether `out` is the log that `record` is exported as.
pub open spec fn is_log_of(out: ExportedLog, record: LogRecord) -> bool {
    &&& out.trace_id@ == hex_lower(record.trace_id@)
    &&& out.span_id@ == hex_lower(record.span_id@)
    &&& out.observed_time_unix_nano == record.observed_time_unix_nano
    &&& out.severity_number == record.severity_number
    &&& out.severity_text@ == record.severity_text@
    &&& text_view(out.body) == text_view(record.body)
    &&& pairs(out.attributes@) == collected(pairs(record.attributes@))
    &&& out.dropped_attributes_count == record.dropped_attributes_count
    &&& out.flags == record.flags
}

impl ExportedLog {
    /// The log that a record is exported as.
    pub fn from(value: LogRecord) -> (out: ExportedLog)
        ensures
            is_log_of(out, value),
    {
        ExportedLog::from_record(&value)
    }

    /// The log that a record is exported as.
    pub fn from_record(value: &LogRecord) -> (out: ExportedLog)
        ensures
            is_log_of(out, *value),
    {
        let body = match &value.body {
            Some(b) => Some(b.clone()),
            None => None,
        };
        ExportedLog {
            trace_id: hex_encode(value.trace_id.as_slice()),
            span_id: hex_encode(value.span_id.as_slice()),
            observed_time_unix_nano: value.observed_time_unix_nano,
            severity_number: value.severity_number,
            severity_text: value.severity_text.clone(),
            body,
            attributes: cnv_attributes(&value.attributes),
            dropped_attributes_count: value.dropped_attributes_count,
            flags: value.flags,
        }
    }
}

/// The log records of a request, in the order in which it brings them:
/// resource by resource, scope by scope.
pub open spec fn records_of(request: ExportLogsServiceRequest) -> Seq<LogRecord> {
    request.resource_logs@.map_values(
        |r: ResourceLogs| r.scope_logs@.map_values(|s: ScopeLogs| s.log_records@).flatten(),
    ).flatten()
}

/// Whether `out` holds the exported form of each record, in order.
pub open spec fn are_logs_of(out: Seq<ExportedLog>, records: Seq<LogRecord>) -> bool {
    &&& out.len() == records.len()
    &&& forall|i: int| 0 <= i < records.len() ==> is_log_of(#[trigger] out[i], records[i])
}

/// The logs service of the collector: it turns what an export call brings
/// into log records for tests.
#[derive(Debug)]
pub struct FakeLogsService {}

impl FakeLogsService {
    /// Makes the service.
    pub fn new() -> (service: FakeLogsService) {
        FakeLogsService {  }
    }

    /// Takes the log records out of a request, in the order in which it
    /// brings them.
    pub fn export(&self, request: ExportLogsServiceRequest) -> (out: Vec<ExportedLog>)
        ensures
            are_logs_of(out@, records_of(request)),
    {
        let ghost by_resource = request.resource_logs@.map_values(
            |r: ResourceLogs| r.scope_logs@.map_values(|s: ScopeLogs| s.log_records@).flatten(),
        );
        let mut out: Vec<ExportedLog> = Vec::new();
        let mut i: usize = 0;
        while i < request.resource_logs.len()
            invariant
                i <= request.resource_logs.len(),
                by_resource == request.resource_logs@.map_values(
                    |r: ResourceLogs|
                        r.scope_logs@.map_values(|s: ScopeLogs| s.log_records@).flatten(),
                ),
                are_logs_of(out@, by_resource.take(i as int).flatten()),
            decreases request.resource_logs.len() - i,
        {
            let resource = &request.resource_logs[i];
            let ghost by_scope = resource.scope_logs@.map_values(|s: ScopeLogs| s.log_records@);
            let ghost base = by_resource.take(i as int).flatten();
            let mut j: usize = 0;
            while j < resource.scope_logs.len()
                invariant
                    j <= resource.scope_logs.len(),
                    by_scope == resource.scope_logs@.map_values(|s: ScopeLogs| s.log_records@),
                    are_logs_of(out@, base + by_scope.take(j as int).flatten()),
                decreases resource.scope_logs.len() - j,
            {
                let scope = &resource.scope_logs[j];
                let ghost before = base + by_scope.take(j as int).flatten();
                let mut k: usize = 0;
                while k < scope.log_records.len()
                    invariant
                        k <= scope.log_records.len(),
                        are_logs_of(out@, before + scope.log_records@.take(k as int)),
                    decreases scope.log_records.len() - k,
                {
                    out.push(ExportedLog::from_record(&scope.log_records[k]));
                    k += 1;
                }
                proof {
                    lemma_flatten_step(by_scope, j as int);
                }
                j += 1;
            }
            proof {
                assert(by_scope.take(j as int) == by_scope);
                lemma_flatten_step(by_resource, i as int);
            }
            i += 1;
        }
        assert(by_resource.take(i as int) == by_resource);
        out
    }
}

} // verus!
