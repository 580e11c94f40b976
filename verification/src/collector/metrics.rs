//! The parts of exported metrics that are whole numbers.

use vstd::prelude::*;

verus! {

/// The buckets of one side of an exponential histogram, as they arrive.
#[derive(Debug)]
pub struct BucketsRecord {
    pub offset: i32,
    pub bucket_counts: Vec<u64>,
}

/// The buckets of one side of an exponential histogram: the index of the
/// first bucket, and the count of each bucket from there on.
#[derive(Debug, Clone, PartialEq, Eq)]
pub struct Buckets {
    pub offset: i32,
    pub bucket_counts: Vec<u64>,
}

impl Buckets {
    /// The buckets that a record is exported as.
    pub fn from(value: &BucketsRecord) -> (out: Buckets)
        ensures
            out.offset == value.offset,
            out.bucket_counts@ == value.bucket_counts@,
    {
        let mut bucket_counts: Vec<u64> = Vec::new();
        let mut i: usize = 0;
        while i < value.bucket_counts.len()
            invariant
                i <= value.bucket_counts.len(),
                bucket_counts@ == value.bucket_counts@.take(i as int),
            decreases value.bucket_counts.len() - i,
        {
            bucket_counts.push(value.bucket_counts[i]);
            i += 1;
        }
        Buckets { offset: value.offset, bucket_counts }
    }
}

} // verus!
