//! Trace context: the identifiers that tie a span to a distributed trace.

use crate::encoding::{hex_encode, hex_lower};
use vstd::prelude::*;

verus! {

/// The identifiers of a span within a trace, as they travel in headers.
#[derive(Debug)]
pub struct TraceContext {
    /// Sixteen bytes that name the trace. All zero means none.
    pub trace_id: [u8; 16],
    /// Eight bytes that name the span. All zero means none.
    pub span_id: [u8; 8],
    /// The trace flags; bit 0 is "sampled".
    pub trace_flags: u8,
    /// Whether the context came in from another process.
    pub is_remote: bool,
    /// Vendor entries that travel with the trace, as one header value.
    pub trace_state: String,
}

/// Whether some byte of `id` is not zero.
pub open spec fn has_nonzero(id: Seq<u8>) -> bool {
    exists|i: int| 0 <= i < id.len() && #[trigger] id[i] != 0
}

fn any_nonzero(id: &[u8]) -> (b: bool)
    ensures
        b == has_nonzero(id@),
{
    let mut i: usize = 0;
    while i < id.len()
        invariant
            i <= id.len(),
            forall|j: int| 0 <= j < i ==> #[trigger] id@[j] == 0,
        decreases id.len() - i,
    {
        if id[i] != 0 {
            return true;
        }
        i += 1;
    }
    false
}

impl TraceContext {
    /// A context that names no trace.
    pub fn invalid() -> (cx: TraceContext)
        ensures
            !cx.valid(),
            !cx.is_remote,
            cx.trace_flags == 0,
            cx.trace_state@.len() == 0,
            cx.trace_id@ == Seq::new(16, |i: int| 0u8),
            cx.span_id@ == Seq::new(8, |i: int| 0u8),
    {
        let cx = TraceContext {
            trace_id: [0u8; 16],
            span_id: [0u8; 8],
            trace_flags: 0,
            is_remote: false,
            trace_state: String::new(),
        };
        cx
    }

    /// A context names a trace when neither identifier is all zero.
    pub open spec fn valid(&self) -> bool {
        has_nonzero(self.trace_id@) && has_nonzero(self.span_id@)
    }

    /// Whether the context names a trace.
    pub fn is_valid(&self) -> (b: bool)
        ensures
            b == self.valid(),
    {
        any_nonzero(self.trace_id.as_slice()) && any_nonzero(self.span_id.as_slice())
    }

    /// A copy of the context.
    pub fn duplicate(&self) -> (cx: TraceContext)
        ensures
            cx == *self,
    {
        TraceContext {
            trace_id: self.trace_id,
            span_id: self.span_id,
            trace_flags: self.trace_flags,
            is_remote: self.is_remote,
            trace_state: self.trace_state.clone(),
        }
    }

    /// The trace identifier as 32 hexadecimal digits.
    pub fn trace_id_hex(&self) -> (s: String)
        ensures
            s@ == hex_lower(self.trace_id@),
    {
        hex_encode(self.trace_id.as_slice())
    }

    /// The span identifier as 16 hexadecimal digits.
    pub fn span_id_hex(&self) -> (s: String)
        ensures
            s@ == hex_lower(self.span_id@),
    {
        hex_encode(self.span_id.as_slice())
    }
}

/// The trace identifier of a context, as text, where the context names a
/// trace.
pub fn find_trace_id(context: &TraceContext) -> (id: Option<String>)
    ensures
        context.valid() ==> id.is_some() && id.unwrap()@ == hex_lower(context.trace_id@),
        !context.valid() ==> id.is_none(),
{
    if context.is_valid() {
        Some(context.trace_id_hex())
    } else {
        None
    }
}

/// The span identifier of a context, as text, where the context names a
/// trace.
pub fn find_span_id(context: &TraceContext) -> (id: Option<String>)
    ensures
        context.valid() ==> id.is_some() && id.unwrap()@ == hex_lower(context.span_id@),
        !context.valid() ==> id.is_none(),
{
    if context.is_valid() {
        Some(context.span_id_hex())
    } else {
        None
    }
}

/// The context that a span is made under: the one that the request
/// brought where that names a trace, else one under the fallback
/// identifiers, with the flags and the trace state of what the request did
/// bring.
pub open spec fn span_context(
    remote: TraceContext,
    fallback_trace_id: [u8; 16],
    fallback_span_id: [u8; 8],
) -> TraceContext {
    if remote.valid() {
        remote
    } else {
        TraceContext {
            trace_id: fallback_trace_id,
            span_id: fallback_span_id,
            is_remote: false,
            ..remote
        }
    }
}

/// The context that a new server span hangs under, and the trace
/// identifier that its log lines carry.
///
/// A request that brought a valid context continues that trace. Any other
/// request starts a trace of its own under `fallback_trace_id`, so that the
/// span never goes without an identifier; the flags and the trace state of
/// what the request did bring are kept.
pub fn create_context_with_trace(
    remote: TraceContext,
    fallback_trace_id: [u8; 16],
    fallback_span_id: [u8; 8],
) -> (r: (TraceContext, [u8; 16]))
    ensures
        r.0 == span_context(remote, fallback_trace_id, fallback_span_id),
        r.1 == r.0.trace_id,
{
    if remote.is_valid() {
        let id = remote.trace_id;
        (remote, id)
    } else {
        (
            TraceContext {
                trace_id: fallback_trace_id,
                span_id: fallback_span_id,
                trace_flags: remote.trace_flags,
                is_remote: false,
                trace_state: remote.trace_state,
            },
            fallback_trace_id,
        )
    }
}

} // verus!
