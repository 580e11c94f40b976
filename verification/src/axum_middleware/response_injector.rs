//! The layer that hands the trace context back to the client.

use vstd::prelude::*;

verus! {

/// Makes the layer that writes the trace context of the current span into
/// the headers of each response.
pub fn response_with_trace_layer() -> (layer: OtelInResponseLayer) {
    OtelInResponseLayer {  }
}

/// A layer whose service writes the trace context of the current span
/// into the headers of each response. It has no settings.
#[derive(Default, Debug, Clone)]
pub struct OtelInResponseLayer {}

impl OtelInResponseLayer {
    /// Wraps `inner`.
    pub fn layer<S>(&self, inner: S) -> (service: OtelInResponseService<S>)
        ensures
            service.inner == inner,
    {
        OtelInResponseService { inner }
    }
}

/// The service of [`OtelInResponseLayer`].
#[derive(Default, Debug, Clone)]
pub struct OtelInResponseService<S> {
    pub inner: S,
}

} // verus!
