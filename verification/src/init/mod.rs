//! Setting up tracing at process start: which propagators to install,
//! where to export to, how to write logs.

pub mod config;
pub mod error;
pub mod formats;
pub mod otlp;
pub mod propagator;
pub mod resource;
pub mod stdio;
pub mod tracing_subscriber_ext;

use vstd::prelude::*;

verus! {

/// Where finished spans go.
#[derive(Clone, Copy, Debug, PartialEq, Eq, Structural)]
pub enum CollectorKind {
    /// To a collector, over OTLP.
    Otlp,
    /// To standard output.
    Stdout,
    /// To standard error.
    Stderr,
    /// Nowhere: spans are made and passed on, and not exported.
    NoWrite,
}

impl CollectorKind {
    /// Whether spans are sent to a collector.
    pub fn uses_collector(self) -> (b: bool)
        ensures
            b == (self == CollectorKind::Otlp),
    {
        match self {
            CollectorKind::Otlp => true,
            _ => false,
        }
    }
}

} // verus!
