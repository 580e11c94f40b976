//! Predicates that callers supply to leave some requests untraced.

use vstd::prelude::*;

verus! {

/// What a filter on paths may have answered for `path`: without a filter
/// every path is accepted.
pub open spec fn path_verdict<F: Fn(&str) -> bool>(
    filter: Option<F>,
    path: &str,
    accepted: bool,
) -> bool {
    match filter {
        Some(f) => f.ensures((path,), accepted),
        None => accepted,
    }
}

/// Asks the filter, if there is one, whether requests to `path` are traced.
pub fn path_accepted<F: Fn(&str) -> bool>(filter: &Option<F>, path: &str) -> (accepted: bool)
    requires
        filter matches Some(f) ==> f.requires((path,)),
    ensures
        path_verdict(*filter, path, accepted),
{
    match filter {
        Some(f) => f(path),
        None => true,
    }
}

/// What a filter on gRPC calls may have answered for `service` and
/// `method`: without a filter every call is accepted.
pub open spec fn call_verdict<F: Fn(&str, &str) -> bool>(
    filter: Option<F>,
    service: &str,
    method: &str,
    accepted: bool,
) -> bool {
    match filter {
        Some(f) => f.ensures((service, method), accepted),
        None => accepted,
    }
}

/// Asks the filter, if there is one, whether calls of `method` on
/// `service` are traced.
pub fn call_accepted<F: Fn(&str, &str) -> bool>(
    filter: &Option<F>,
    service: &str,
    method: &str,
) -> (accepted: bool)
    requires
        filter matches Some(f) ==> f.requires((service, method)),
    ensures
        call_verdict(*filter, service, method, accepted),
{
    match filter {
        Some(f) => f(service, method),
        None => true,
    }
}

} // verus!
