//! The UI-facing facade over both state machines.
//!
//! One `Orchestrator` value owns the preview state, the render state and
//! the last committed settings snapshot.  Callers are expected to keep it
//! behind an exclusive lock and to hold that lock only across a single
//! call: every operation here is a short read or a single transition, and
//! none of them blocks or performs I/O.  The background workers talk to
//! the same value through the poll / commit operations.

use vstd::prelude::*;

use crate::gateway::GatewayError;
use crate::preview::{outcome_model, preview_commit_step, PreviewModel, PreviewState};
use crate::render::{
    render_abort_step, render_dismiss_step, render_finish_step, render_poll_step,
    render_request_accepted, render_request_step, RenderPollAction, RenderState,
};
use crate::settings::{default_settings, Settings, SettingsModel};

verus! {

/// Mathematical model of the whole shared state.
#[verifier::ext_equal]
pub struct OrchModel {
    pub preview: PreviewModel,
    pub render: RenderState,
    pub prev: SettingsModel,
}

/// The state a fresh orchestrator starts in: no file, no render job, the
/// default settings as the last committed snapshot.
pub open spec fn init_model() -> OrchModel {
    OrchModel {
        preview: PreviewModel::NoFile,
        render: RenderState::Idle,
        prev: default_settings(),
    }
}

/// The state after one settings submission.
///
/// While a pointer interaction is in progress nothing is committed at all.
/// Otherwise the snapshot is compared by value against the last committed
/// one: an unchanged snapshot changes nothing (the debounce gate), a
/// changed snapshot with an empty path clears the preview to `NoFile`, and
/// a changed snapshot with a non-empty path makes it the new pending
/// preview job.  The render state is never touched by a submission.
pub open spec fn submit_step(m: OrchModel, snap: SettingsModel, interacting: bool) -> OrchModel {
    if interacting {
        m
    } else if snap == m.prev {
        OrchModel { prev: snap, ..m }
    } else if snap.path.len() == 0 {
        OrchModel { preview: PreviewModel::NoFile, prev: snap, ..m }
    } else {
        OrchModel { preview: PreviewModel::Loading(snap), prev: snap, ..m }
    }
}

/// The shared state both workers and the UI facade operate on.
pub struct Orchestrator {
    preview: PreviewState,
    render: RenderState,
    prev: Settings,
}

impl View for Orchestrator {
    type V = OrchModel;

    closed spec fn view(&self) -> OrchModel {
        OrchModel { preview: self.preview@, render: self.render, prev: self.prev@ }
    }
}

impl Orchestrator {
    /// A fresh orchestrator: no file selected, render idle.
    pub fn new() -> (r: Self)
        ensures
            r@ == init_model(),
    {
        let r = Orchestrator {
            preview: PreviewState::NoFile,
            render: RenderState::Idle,
            prev: Settings::default(),
        };
        proof {
            assert(r@ =~= init_model());
        }
        r
    }

    /// Submits the settings as they stand after one UI refresh.
    /// `interacting` reports whether a pointer interaction (a drag) is
    /// still in progress; while it is, commits are suppressed entirely so
    /// that intermediate slider positions never spawn a job.
    pub fn submit_settings(&mut self, snapshot: Settings, interacting: bool)
        ensures
            final(self)@ == submit_step(old(self)@, snapshot@, interacting),
    {
        if !interacting {
            let unchanged = self.prev == snapshot;
            if !unchanged {
                if snapshot.path.as_str().is_empty() {
                    self.preview = PreviewState::NoFile;
                } else {
                    self.preview = PreviewState::Loading(snapshot.clone());
                }
            }
            self.prev = snapshot;
            proof {
                assert(self@ =~= submit_step(old(self)@, snapshot@, interacting));
            }
        }
    }

    /// Non-blocking read of the preview state.
    pub fn read_preview(&self) -> (r: PreviewState)
        ensures
            r@ == self@.preview,
    {
        self.preview.clone()
    }

    /// Non-blocking read of the render state.
    pub fn read_render(&self) -> (r: RenderState)
        ensures
            r == self@.render,
    {
        self.render
    }

    /// The preview worker's read at the top of each debounce tick: if a
    /// job is pending, its snapshot is captured by value, so the lock can
    /// be released before any gateway work starts.
    pub fn preview_poll(&self) -> (job: Option<Settings>)
        ensures
            (self@.preview matches PreviewModel::Loading(s) ==> job matches Some(j) && j@ == s),
            !(self@.preview is Loading) ==> job is None,
    {
        match &self.preview {
            PreviewState::Loading(s) => Some(s.clone()),
            _ => None,
        }
    }

    /// The preview worker reports the outcome of the job it ran for
    /// snapshot `job`; the preview state moves as `preview_commit_step`
    /// says, and nothing else changes.
    pub fn preview_commit(&mut self, job: &Settings, outcome: Result<Vec<u8>, GatewayError>)
        ensures
            final(self)@ == (OrchModel {
                preview: preview_commit_step(old(self)@.preview, job@, outcome_model(outcome)),
                ..old(self)@
            }),
    {
        match outcome {
            Result::Ok(img) => {
                let fresh = match &self.preview {
                    PreviewState::Loading(s) => s.eq(job),
                    _ => false,
                };
                if fresh {
                    self.preview = PreviewState::Loaded(img);
                }
            },
            Result::Err(GatewayError::NotFound) => {
                self.preview = PreviewState::Failed;
            },
            Result::Err(e) => {
                self.preview = PreviewState::InternalError(e);
            },
        }
        proof {
            assert(self@ =~= (OrchModel {
                preview: preview_commit_step(old(self)@.preview, job@, outcome_model(outcome)),
                ..old(self)@
            }));
        }
    }

    /// Asks to start a full render at time `now_ms`.  Accepted only while
    /// the render state is `Idle`; any other state rejects the request and
    /// leaves everything untouched.
    pub fn request_render(&mut self, now_ms: u64) -> (accepted: bool)
        ensures
            accepted == render_request_accepted(old(self)@.render),
            final(self)@ == (OrchModel {
                render: render_request_step(old(self)@.render, now_ms),
                ..old(self)@
            }),
    {
        let accepted = match self.render {
            RenderState::Idle => {
                self.render = RenderState::Rendering(now_ms);
                true
            },
            _ => false,
        };
        proof {
            assert(self@ =~= (OrchModel {
                render: render_request_step(old(self)@.render, now_ms),
                ..old(self)@
            }));
        }
        accepted
    }

    /// Asks to cancel the running render.  Accepted only while `Rendering`;
    /// the worker observes the `Abort` mark at its next poll.
    pub fn request_abort(&mut self) -> (accepted: bool)
        ensures
            accepted == (old(self)@.render is Rendering),
            final(self)@ == (OrchModel {
                render: render_abort_step(old(self)@.render),
                ..old(self)@
            }),
    {
        let accepted = match self.render {
            RenderState::Rendering(_) => {
                self.render = RenderState::Abort;
                true
            },
            _ => false,
        };
        proof {
            assert(self@ =~= (OrchModel {
                render: render_abort_step(old(self)@.render),
                ..old(self)@
            }));
        }
        accepted
    }

    /// Dismisses a finished render, unlocking the controls.  Accepted only
    /// while `Done`.
    pub fn dismiss_render(&mut self) -> (accepted: bool)
        ensures
            accepted == (old(self)@.render is Done),
            final(self)@ == (OrchModel {
                render: render_dismiss_step(old(self)@.render),
                ..old(self)@
            }),
    {
        let accepted = match self.render {
            RenderState::Done(_) => {
                self.render = RenderState::Idle;
                true
            },
            _ => false,
        };
        proof {
            assert(self@ =~= (OrchModel {
                render: render_dismiss_step(old(self)@.render),
                ..old(self)@
            }));
        }
        accepted
    }

    /// The render worker's decision after one bounded wait on the child
    /// process: finish if it exited, kill it if an abort is pending,
    /// otherwise keep polling.
    pub fn render_poll_action(&self, process_exited: bool) -> (a: RenderPollAction)
        ensures
            a == render_poll_step(self@.render, process_exited),
    {
        if process_exited {
            RenderPollAction::Finish
        } else {
            match self.render {
                RenderState::Abort => RenderPollAction::Kill,
                _ => RenderPollAction::Continue,
            }
        }
    }

    /// The render worker reports completion, whether the process exited on
    /// its own or was killed after an abort: the job always ends in
    /// `Done`, never back in `Idle` - the user has to dismiss it.
    pub fn render_finish(&mut self, elapsed_ms: u64)
        requires
            old(self)@.render is Rendering || old(self)@.render is Abort,
        ensures
            final(self)@ == (OrchModel {
                render: render_finish_step(elapsed_ms),
                ..old(self)@
            }),
    {
        self.render = RenderState::Done(elapsed_ms);
        proof {
            assert(self@ =~= (OrchModel { render: render_finish_step(elapsed_ms), ..old(self)@ }));
        }
    }
}

} // verus!
