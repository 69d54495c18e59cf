//! The process clock. Every operation of this crate takes its time as an
//! explicit argument, so that expiry decisions are verified and can be
//! exercised against a simulated clock; this module supplies the reading a
//! live caller passes in.
use vstd::prelude::*;

verus! {

/// Relies on chrono's `Utc::now` and `timestamp`: the current civil time as
/// seconds of Unix time. Nothing is promised of a clock reading. On a
/// system clock set before the Unix epoch, `Utc::now` itself panics, so a
/// negative reading never actually comes back; the clamp below stands as
/// defence in depth only.
#[verifier::external_body]
fn chrono_now_seconds() -> (r: i64) {
    chrono::Utc::now().timestamp()
}

/// The current time in the non-negative seconds the rest of this crate
/// works in; a negative reading would clamp to zero.
pub fn current_unix_time() -> (r: u64) {
    let t = chrono_now_seconds();
    if t < 0 {
        0
    } else {
        t as u64
    }
}

} // verus!
