//! Where a unit of work runs when some host calls are bound to the main
//! thread, and what becomes of its result.

use crate::handlers::ActOutcome;
use vstd::prelude::*;

verus! {

/// Where a unit of work is to run.
#[derive(Clone, Copy, Debug, PartialEq, Eq, Structural)]
pub enum Placement {
    /// On the calling thread, at once.
    Inline,
    /// On the main thread, while the caller waits for it to complete.
    MainQueue,
}

/// Work is handed to the main thread only where the platform binds it to that
/// thread and the caller is another thread. A caller that is the main thread
/// runs the work itself: waiting for its own queue would never end.
pub open spec fn placement_of(main_thread_bound: bool, on_main_thread: bool) -> Placement {
    if main_thread_bound && !on_main_thread {
        Placement::MainQueue
    } else {
        Placement::Inline
    }
}

/// Decides where a unit of work runs.
pub fn placement(main_thread_bound: bool, on_main_thread: bool) -> (r: Placement)
    ensures
        r == placement_of(main_thread_bound, on_main_thread),
{
    if main_thread_bound && !on_main_thread {
        Placement::MainQueue
    } else {
        Placement::Inline
    }
}

/// The outcome of an autopilot action that was dispatched. The work ended
/// abnormally (`None`), found no executor on the host (`Some(None)`), or
/// returned what the executor gave.
pub open spec fn act_outcome_of(dispatched: Option<Option<Result<String, String>>>) -> ActOutcome {
    match dispatched {
        Some(Some(Ok(summary))) => ActOutcome::Done(summary),
        Some(Some(Err(err))) => ActOutcome::Failed(err),
        Some(None) => ActOutcome::Unavailable,
        None => ActOutcome::Panicked,
    }
}

/// Turns the result of dispatched work into the outcome of the action.
pub fn act_outcome(dispatched: Option<Option<Result<String, String>>>) -> (r: ActOutcome)
    ensures
        r == act_outcome_of(dispatched),
{
    match dispatched {
        Some(Some(Ok(summary))) => ActOutcome::Done(summary),
        Some(Some(Err(err))) => ActOutcome::Failed(err),
        Some(None) => ActOutcome::Unavailable,
        None => ActOutcome::Panicked,
    }
}

/// Work submitted from the main thread is never queued, and without a
/// main-thread constraint nothing is.
pub proof fn lemma_no_self_dispatch(main_thread_bound: bool, on_main_thread: bool)
    ensures
        on_main_thread ==> placement_of(main_thread_bound, on_main_thread) == Placement::Inline,
        !main_thread_bound ==> placement_of(main_thread_bound, on_main_thread)
            == Placement::Inline,
        placement_of(main_thread_bound, on_main_thread) == Placement::MainQueue <==> (
        main_thread_bound && !on_main_thread),
{
}

} // verus!
