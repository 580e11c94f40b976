//! A collector for tests: what it receives is flattened into records that
//! are easy to compare and to print.

pub mod common;
pub mod logs;
pub mod metrics;
pub mod trace;

use vstd::prelude::*;

verus! {

/// The URL of a collector that listens on `address`.
pub fn endpoint(address: &str) -> (url: String)
    ensures
        url@ == "http://"@ + address@,
{
    let mut url = "http://".to_owned();
    url.append(address);
    url
}

/// How long to sleep between two looks at what has arrived, in
/// milliseconds: a tenth of the time that the caller is willing to wait,
/// and ten milliseconds at most.
pub fn poll_pause_millis(timeout_millis: u64) -> (pause: u64)
    ensures
        pause == if timeout_millis / 10 < 10 {
            timeout_millis / 10
        } else {
            10
        },
{
    let tenth = timeout_millis / 10;
    if tenth < 10 {
        tenth
    } else {
        10
    }
}

/// Whether to go on waiting for records: as long as fewer than
/// `at_least` have arrived and the time is not up.
pub fn recv_many(received: usize, at_least: usize, elapsed_millis: u64, timeout_millis: u64) -> (wait:
    bool)
    ensures
        wait == (received < at_least && elapsed_millis < timeout_millis),
{
    received < at_least && elapsed_millis < timeout_millis
}

} // verus!
