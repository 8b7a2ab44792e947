//! The decision a decoded source takes when its current track ends, once the
//! native queue is in the picture.

use vstd::prelude::*;

verus! {

/// What a decoded source does at its auto-advance point.
#[derive(Debug, Clone, Copy, PartialEq, Eq)]
pub enum Decision {
    /// Nothing to do (still playing, or a track change is already in flight).
    Nothing,
    /// Advance within the source's own context.
    AdvanceContext,
    /// Suspend the context and hand the sink to the native queue.
    SuspendToQueue,
    /// Context exhausted and the queue is empty: tear the session down.
    Teardown,
}

/// The decision table: nothing unless the track finished with no change in
/// flight; then a non-empty queue takes priority; otherwise the context
/// advances if it can, else tears down.
pub open spec fn decide(finished: bool, advancing: bool, has_next: bool, queue_len: nat) -> Decision {
    if !finished || advancing {
        Decision::Nothing
    } else if queue_len > 0 {
        Decision::SuspendToQueue
    } else if has_next {
        Decision::AdvanceContext
    } else {
        Decision::Teardown
    }
}

/// Decide what a decoded source should do when its current track ends.
pub fn advance_decision(finished: bool, advancing: bool, has_next: bool, queue_len: usize) -> (d:
    Decision)
    ensures
        d == decide(finished, advancing, has_next, queue_len as nat),
{
    if !finished || advancing {
        return Decision::Nothing;
    }
    if queue_len > 0 {
        return Decision::SuspendToQueue;
    }
    if has_next {
        Decision::AdvanceContext
    } else {
        Decision::Teardown
    }
}

/// The native queue always wins: whenever a track finished with no change in
/// flight and the queue is non-empty, the context is suspended, whatever the
/// context's own next track.
pub proof fn law_nonempty_queue_takes_priority(has_next: bool, queue_len: nat)
    requires
        queue_len > 0,
    ensures
        decide(true, false, has_next, queue_len) == Decision::SuspendToQueue,
{
}

/// An in-flight change or an unfinished track is never acted on.
pub proof fn law_no_action_unless_finished_and_idle(
    finished: bool,
    advancing: bool,
    has_next: bool,
    queue_len: nat,
)
    requires
        !finished || advancing,
    ensures
        decide(finished, advancing, has_next, queue_len) == Decision::Nothing,
{
}

/// With the queue empty, a finished track with no change in flight moves
/// the context on when it has a next track and ends the session when it
/// has none; no other case suspends the context for the queue.
pub proof fn law_empty_queue_follows_the_context(finished: bool, advancing: bool, has_next: bool, queue_len: nat)
    ensures
        queue_len == 0 && finished && !advancing ==> decide(finished, advancing, has_next, queue_len) == if has_next {
            Decision::AdvanceContext
        } else {
            Decision::Teardown
        },
        decide(finished, advancing, has_next, queue_len) == Decision::SuspendToQueue <==> (finished
            && !advancing && queue_len > 0),
        decide(finished, advancing, has_next, queue_len) == Decision::AdvanceContext ==> has_next,
{
}

} // verus!
