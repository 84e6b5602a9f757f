//! The graceful-shutdown race: after an interrupt signal the dispatch
//! loop is asked to stop cooperatively, and the process then waits at
//! most a grace period before exiting anyway — best-effort graceful,
//! hard deadline.
//!
//! The race is modelled from the moment the signal arrives: the one
//! input is how long the loop takes to honour the shutdown request,
//! if it ever does, and the decision says which side of the race wins
//! and after how many seconds the process exits.

use vstd::prelude::*;

verus! {

/// Which side of the shutdown race finished first.
#[derive(PartialEq, Eq, Structural, Debug)]
pub enum Termination {
    /// The dispatch loop honoured the shutdown request within the
    /// grace period; the process exits as soon as the loop stops.
    LoopCompleted,
    /// The grace period elapsed first; the process exits without
    /// waiting any further for the loop.
    GraceExpired,
}

/// Outcome of the race, measured in seconds after the signal: a loop
/// that stops strictly within the grace period ends the process at
/// its stopping time; a loop that stops later, or never, leaves the
/// bounded wait to end the process when the grace period elapses.
pub open spec fn race_spec(loop_stop_delay: Option<u64>, grace_secs: u64) -> (Termination, u64) {
    match loop_stop_delay {
        Some(d) => if d < grace_secs {
            (Termination::LoopCompleted, d)
        } else {
            (Termination::GraceExpired, grace_secs)
        },
        None => (Termination::GraceExpired, grace_secs),
    }
}

/// Decides the shutdown race. `loop_stop_delay` is how many seconds
/// after the shutdown request the dispatch loop stops, or `None` when
/// it never honours the request; the result is which side won and how
/// many seconds after the signal the process exits.
pub fn race_after_signal(loop_stop_delay: Option<u64>, grace_secs: u64) -> (r: (Termination, u64))
    ensures
        r == race_spec(loop_stop_delay, grace_secs),
{
    match loop_stop_delay {
        Some(d) => {
            if d < grace_secs {
                (Termination::LoopCompleted, d)
            } else {
                (Termination::GraceExpired, grace_secs)
            }
        },
        None => (Termination::GraceExpired, grace_secs),
    }
}

/// However the dispatch loop behaves — even if it never honours the
/// shutdown request — the process exits no later than the grace
/// period after the signal.
pub proof fn lemma_termination_bounded(loop_stop_delay: Option<u64>, grace_secs: u64)
    ensures
        race_spec(loop_stop_delay, grace_secs).1 <= grace_secs,
{
}

/// A loop that stops promptly — strictly within the grace period —
/// ends the process the moment it stops, without waiting out the full
/// grace period.
pub proof fn lemma_prompt_stop_exits_early(loop_stop_delay: u64, grace_secs: u64)
    requires
        loop_stop_delay < grace_secs,
    ensures
        race_spec(Some(loop_stop_delay), grace_secs) == (Termination::LoopCompleted,
        loop_stop_delay),
{
}

} // verus!
