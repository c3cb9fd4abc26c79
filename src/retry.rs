//! Randomised waits between retries, so that a fleet of agents does not retry
//! in step.
use vstd::prelude::*;

verus! {

/// Shortest wait, in seconds, before a failed report is sent again.
pub const REPORT_RETRY_MIN_SECS: u64 = 10;

/// Longest wait, in seconds, before a failed report is sent again.
pub const REPORT_RETRY_MAX_SECS: u64 = 15;

/// Shortest wait, in seconds, before registering with the controller again.
pub const REGISTER_RETRY_MIN_SECS: u64 = 5;

/// Longest wait, in seconds, before registering with the controller again.
pub const REGISTER_RETRY_MAX_SECS: u64 = 15;

/// Relies on rand's `thread_rng` and `Rng::gen_range` over the inclusive range
/// `lo..=hi`: a value drawn from that range. `gen_range` panics on an empty
/// range, which `lo <= hi` rules out.
#[verifier::external_body]
fn draw_between(lo: u64, hi: u64) -> (r: u64)
    requires
        lo <= hi,
    ensures
        lo <= r <= hi,
{
    rand::Rng::gen_range(&mut rand::thread_rng(), lo..=hi)
}

/// Seconds to wait before sending a failed report again.
pub fn report_retry_secs() -> (r: u64)
    ensures
        REPORT_RETRY_MIN_SECS <= r <= REPORT_RETRY_MAX_SECS,
{
    draw_between(REPORT_RETRY_MIN_SECS, REPORT_RETRY_MAX_SECS)
}

/// Seconds to wait before registering with the controller again, after a
/// failed registration or a lost subscription.
pub fn register_retry_secs() -> (r: u64)
    ensures
        REGISTER_RETRY_MIN_SECS <= r <= REGISTER_RETRY_MAX_SECS,
{
    draw_between(REGISTER_RETRY_MIN_SECS, REGISTER_RETRY_MAX_SECS)
}

} // verus!
