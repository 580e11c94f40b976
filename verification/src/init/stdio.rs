//! Writing traces to nowhere: for a process that is to create and pass on
//! trace context without exporting anything.

use vstd::prelude::*;

verus! {

/// A writer that takes everything and keeps nothing.
#[derive(Debug, Default)]
pub struct WriteNoWhere;

impl WriteNoWhere {
    /// Takes all of `buf`.
    pub fn write(&mut self, buf: &[u8]) -> (written: usize)
        ensures
            written == buf@.len(),
    {
        buf.len()
    }

    /// Has nothing to flush.
    pub fn flush(&mut self) {
    }
}

} // verus!
