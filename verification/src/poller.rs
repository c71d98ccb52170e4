//! The pace of the telemetry poller. Time is counted in milliseconds on a
//! clock that never runs backwards.

use crate::status::{has_line_trouble, shows_line_trouble};
use vstd::prelude::*;

verus! {

/// The time between two polling passes while the line is quiet.
pub const POLL_INTERVAL_MS: u64 = 500;

/// The time between two polling passes while the status tells of trouble on
/// the line: an unresponsive device is asked less often.
pub const BACKOFF_INTERVAL_MS: u64 = 2_000;

/// The deadline of a single device operation, so that an absent device
/// holds up a tick no longer than this per call.
pub const IO_TIMEOUT_MS: u64 = 10;

/// The time after which the screen is drawn again, whether or not the device
/// was touched.
pub const REDRAW_INTERVAL_MS: u64 = 100;

/// The time that has to pass between two polling passes under `status`.
pub open spec fn poll_interval(status: Seq<char>) -> u64 {
    if shows_line_trouble(status) {
        BACKOFF_INTERVAL_MS
    } else {
        POLL_INTERVAL_MS
    }
}

/// At `now_ms` the interval that `status` asks for has passed since the last
/// pass at `last_poll_ms`.
pub open spec fn interval_elapsed(status: Seq<char>, last_poll_ms: u64, now_ms: u64) -> bool {
    now_ms - last_poll_ms >= poll_interval(status)
}

/// Picks the polling interval for the message on display.
pub fn interval_for(status: &str) -> (interval: u64)
    ensures
        interval == poll_interval(status@),
{
    if has_line_trouble(status) {
        BACKOFF_INTERVAL_MS
    } else {
        POLL_INTERVAL_MS
    }
}

/// Whether the interval for `status` has passed since `last_poll_ms`.
pub fn has_elapsed(status: &str, last_poll_ms: u64, now_ms: u64) -> (elapsed: bool)
    ensures
        elapsed == interval_elapsed(status@, last_poll_ms, now_ms),
{
    now_ms >= last_poll_ms && now_ms - last_poll_ms >= interval_for(status)
}

} // verus!
