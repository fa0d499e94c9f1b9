//! The render-job state machine.
//!
//! A full-file render is a strict cycle: `Idle -> Rendering -> (Abort ->)
//! Done -> Idle`.  At most one render job is active at a time; a finished
//! job must be dismissed explicitly before a new one may start.
//! Timestamps and durations are carried as whole milliseconds.

use vstd::prelude::*;

verus! {

/// Lifecycle of the single full-file render job.
///
/// `Rendering` carries the start timestamp (milliseconds); `Done` carries
/// the elapsed duration (milliseconds) of the finished or aborted job.
#[derive(Clone, Copy, PartialEq, Eq, Structural, Debug)]
pub enum RenderState {
    Idle,
    Rendering(u64),
    Abort,
    Done(u64),
}

/// What the render worker must do after one bounded wait on the child
/// process.
#[derive(Clone, Copy, PartialEq, Eq, Structural, Debug)]
pub enum RenderPollAction {
    /// The process is still running and no abort was requested: poll again.
    Continue,
    /// An abort was requested: terminate the process, then poll again until
    /// it is observed to have exited.
    Kill,
    /// The process has exited: leave the poll loop and report completion.
    Finish,
}

/// Whether a render request made in state `r` is accepted: only from `Idle`.
pub open spec fn render_request_accepted(r: RenderState) -> bool {
    r is Idle
}

/// State after a render request at time `now_ms`: a rejected request leaves
/// the state untouched.
pub open spec fn render_request_step(r: RenderState, now_ms: u64) -> RenderState {
    if r is Idle {
        RenderState::Rendering(now_ms)
    } else {
        r
    }
}

/// State after an abort request: only an in-flight render can be aborted;
/// anything else is a no-op.
pub open spec fn render_abort_step(r: RenderState) -> RenderState {
    if r is Rendering {
        RenderState::Abort
    } else {
        r
    }
}

/// State after dismissing a finished render: only `Done` can be dismissed.
pub open spec fn render_dismiss_step(r: RenderState) -> RenderState {
    if r is Done {
        RenderState::Idle
    } else {
        r
    }
}

/// The worker's decision after one bounded wait: an exited process always
/// finishes the job; otherwise a pending abort makes the worker kill the
/// process, and in all other cases it keeps polling.
pub open spec fn render_poll_step(r: RenderState, process_exited: bool) -> RenderPollAction {
    if process_exited {
        RenderPollAction::Finish
    } else if r is Abort {
        RenderPollAction::Kill
    } else {
        RenderPollAction::Continue
    }
}

/// State after the worker reports completion: always `Done`, whether the
/// process exited on its own or was killed after an abort.
pub open spec fn render_finish_step(elapsed_ms: u64) -> RenderState {
    RenderState::Done(elapsed_ms)
}

} // verus!
