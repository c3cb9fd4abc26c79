//! UTC instants as plain values, and the clock that produces them.
use vstd::prelude::*;

verus! {

pub const NANOS_PER_SEC: u64 = 1_000_000_000;

pub const NANOS_PER_MILLI: u64 = 1_000_000;

/// A UTC instant: whole seconds since the Unix epoch and the nanoseconds
/// past that second.
#[derive(Clone, Copy, Debug, PartialEq, Eq, Structural)]
pub struct UtcInstant {
    pub secs: i64,
    pub nanos: u32,
}

impl UtcInstant {
    /// Nanoseconds since the Unix epoch.
    pub open spec fn as_nanos(self) -> int {
        self.secs * NANOS_PER_SEC + self.nanos
    }

    /// The instant truncated to whole seconds.
    pub open spec fn truncated(self) -> UtcInstant {
        UtcInstant { secs: self.secs, nanos: 0 }
    }
}

/// `x` limited to the range `[0, cap]`.
pub open spec fn clamp(x: int, cap: int) -> int {
    if x < 0 {
        0
    } else if x > cap {
        cap
    } else {
        x
    }
}

/// Relies on chrono's `Utc::now`, read back through `DateTime::timestamp` and
/// `DateTime::timestamp_subsec_nanos`. It builds the instant from the system
/// time's whole seconds since the epoch and its sub-second nanoseconds, so the
/// seconds are not negative and the nanoseconds stay under one second.
/// (`Utc::now` panics on a system clock set before 1970.)
#[verifier::external_body]
pub(crate) fn utc_now() -> (r: UtcInstant)
    ensures
        r.secs >= 0,
        r.nanos < NANOS_PER_SEC,
{
    let now = chrono::Utc::now();
    UtcInstant { secs: now.timestamp(), nanos: now.timestamp_subsec_nanos() }
}

/// The time from `from` to `to` in nanoseconds, limited to `[0, cap]`: a clock
/// that stepped backwards gives zero, and no elapsed time exceeds the cap.
pub fn elapsed_nanos_capped(from: UtcInstant, to: UtcInstant, cap: u64) -> (r: u64)
    ensures
        r == clamp(to.as_nanos() - from.as_nanos(), cap as int),
{
    let ds: i128 = to.secs as i128 - from.secs as i128;
    let dn: i128 = to.nanos as i128 - from.nanos as i128;
    assert(ds * 1_000_000_000 <= 18_446_744_073_709_551_615i128 * 1_000_000_000) by (nonlinear_arith)
        requires -18_446_744_073_709_551_615i128 <= ds <= 18_446_744_073_709_551_615i128;
    assert(ds * 1_000_000_000 >= -18_446_744_073_709_551_615i128 * 1_000_000_000) by (nonlinear_arith)
        requires -18_446_744_073_709_551_615i128 <= ds <= 18_446_744_073_709_551_615i128;
    let d: i128 = ds * 1_000_000_000 + dn;
    assert(d == to.as_nanos() - from.as_nanos()) by (nonlinear_arith)
        requires
            ds == to.secs - from.secs,
            dn == to.nanos - from.nanos,
            d == ds * 1_000_000_000 + dn,
    ;
    if d < 0 {
        0
    } else if d > cap as i128 {
        cap
    } else {
        d as u64
    }
}

} // verus!
