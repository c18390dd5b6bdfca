//! The shared-deadline model for the host's bounded operations.
//!
//! Every transport operation the host performs — connect, subscribe, each
//! wait for a notification, disconnect — is raced against one shared
//! deadline `D`. If the underlying call completes within `D`, its result is
//! delivered; otherwise the operation is cancelled at the deadline and a
//! timeout outcome is delivered instead. Either way control returns to the
//! caller no later than `D` (plus whatever scheduling slack the runtime
//! adds, which lies outside this model): a bounded operation never blocks
//! indefinitely.

use vstd::prelude::*;

verus! {

/// The outcome of racing one transport call against the deadline.
#[derive(Clone, Copy, PartialEq, Eq, Debug)]
pub enum BoundedOutcome {
    /// The call completed first, after the given number of milliseconds.
    Completed { elapsed_ms: u64 },
    /// The deadline expired first; the call was cancelled.
    TimedOut,
}

/// When a bounded operation hands control back: at the call's own
/// completion time if that is within the deadline, else at the deadline.
pub open spec fn spec_return_time(deadline_ms: u64, completion_ms: Option<u64>) -> u64 {
    match completion_ms {
        Some(t) => if t <= deadline_ms {
            t
        } else {
            deadline_ms
        },
        None => deadline_ms,
    }
}

/// Whether the race ends in a timeout: the call would complete only after
/// the deadline, or never (`None`).
pub open spec fn spec_times_out(deadline_ms: u64, completion_ms: Option<u64>) -> bool {
    match completion_ms {
        Some(t) => t > deadline_ms,
        None => true,
    }
}

/// Resolve the race between one transport call and the deadline.
///
/// `completion_ms` is when the underlying call would complete on its own,
/// if ever (`None`: it would block forever). The result says what outcome
/// the caller observes and at what time control returns to it.
pub fn resolve_bounded(deadline_ms: u64, completion_ms: Option<u64>) -> (r: (
    BoundedOutcome,
    u64,
))
    ensures
        r.1 == spec_return_time(deadline_ms, completion_ms),
        r.1 <= deadline_ms,
        spec_times_out(deadline_ms, completion_ms) ==> r.0 is TimedOut,
        !spec_times_out(deadline_ms, completion_ms) ==> r.0 == (BoundedOutcome::Completed {
            elapsed_ms: completion_ms->0,
        }),
{
    match completion_ms {
        Some(t) => {
            if t <= deadline_ms {
                (BoundedOutcome::Completed { elapsed_ms: t }, t)
            } else {
                (BoundedOutcome::TimedOut, deadline_ms)
            }
        },
        None => (BoundedOutcome::TimedOut, deadline_ms),
    }
}

/// A bounded operation returns control no later than the deadline, for
/// every behaviour of the underlying transport call — even one that would
/// take longer than the deadline, or never complete at all.
pub proof fn lemma_bounded_returns_by_deadline(deadline_ms: u64, completion_ms: Option<u64>)
    ensures
        spec_return_time(deadline_ms, completion_ms) <= deadline_ms,
{
}

} // verus!
