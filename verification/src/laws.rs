//! Laws of the orchestration layer, proved once and for all over the
//! transition functions that the facade's contracts are stated with.

use vstd::prelude::*;

use crate::gateway::GatewayErrorModel;
use crate::orchestrator::{submit_step, OrchModel};
use crate::preview::{preview_commit_step, PreviewModel};
use crate::render::{
    render_abort_step, render_finish_step, render_poll_step, render_request_step,
    render_request_accepted, RenderPollAction, RenderState,
};
use crate::settings::SettingsModel;

verus! {

/// Staleness: a successful job commits its image only while its own
/// snapshot is still the pending one.  In every other state - a newer
/// snapshot pending as `Loading`, a committed image, a failure, or no
/// file at all - the late result is discarded and the state is left
/// untouched.
pub proof fn lemma_stale_result_discarded(
    pv: PreviewModel,
    job: SettingsModel,
    img: Seq<u8>,
)
    requires
        !(pv matches PreviewModel::Loading(s) && s == job),
    ensures
        preview_commit_step(pv, job, Result::Ok(img)) == pv,
{
}

/// Idempotence: submitting the same snapshot value twice in a row without
/// any interaction changes nothing the second time - in particular there
/// is at most one `Loading` transition.
pub proof fn lemma_submit_idempotent(m: OrchModel, snap: SettingsModel)
    ensures
        submit_step(submit_step(m, snap, false), snap, false) == submit_step(m, snap, false),
{
    let m1 = submit_step(m, snap, false);
    assert(m1.prev == snap);
    assert(submit_step(m1, snap, false) =~= m1);
}

/// Render exclusivity: a render request in any state but `Idle` is
/// rejected and leaves the state untouched, so a second job can never
/// start while one is active.
pub proof fn lemma_render_exclusive(r: RenderState, now_ms: u64)
    requires
        !(r is Idle),
    ensures
        !render_request_accepted(r),
        render_request_step(r, now_ms) == r,
{
}

/// Abort correctness: an abort requested while rendering marks the job
/// `Abort`; at the worker's next poll a still-running process is killed,
/// an exited one finishes, and completion always lands in `Done`.  The
/// bounded time comes from the worker's bounded poll interval; that the
/// process itself is gone is the poll loop's part, which kills it before
/// ever reporting completion.
pub proof fn lemma_abort_leads_to_done(r: RenderState, process_exited: bool, elapsed_ms: u64)
    requires
        r is Rendering,
    ensures
        render_abort_step(r) is Abort,
        !process_exited ==> render_poll_step(render_abort_step(r), process_exited)
            is Kill,
        process_exited ==> render_poll_step(render_abort_step(r), process_exited)
            is Finish,
        render_finish_step(elapsed_ms) is Done,
{
}

/// Round trip, cleared path: a snapshot whose path is empty, submitted
/// outside an interaction and differing from the last committed one,
/// always lands the preview in `NoFile`.
pub proof fn lemma_cleared_path_gives_no_file(m: OrchModel, snap: SettingsModel)
    requires
        snap.path.len() == 0,
        snap != m.prev,
    ensures
        submit_step(m, snap, false).preview is NoFile,
{
}

/// Round trip, selected path: a snapshot with a non-empty path, submitted
/// outside an interaction and differing from the last committed one,
/// always makes that snapshot the pending preview job.
pub proof fn lemma_new_path_starts_loading(m: OrchModel, snap: SettingsModel)
    requires
        snap.path.len() > 0,
        snap != m.prev,
    ensures
        submit_step(m, snap, false).preview == PreviewModel::Loading(snap),
{
}

/// Round trip, resolution: a pending job, once its own worker reports,
/// always resolves - to the image on success, to `Failed` for a missing
/// source file, to `InternalError` for any other gateway failure.  No
/// outcome leaves the preview pending.
pub proof fn lemma_loading_resolves(
    snap: SettingsModel,
    outcome: Result<Seq<u8>, GatewayErrorModel>,
)
    ensures
        ({
            let pv = preview_commit_step(PreviewModel::Loading(snap), snap, outcome);
            match outcome {
                Result::Ok(img) => pv == PreviewModel::Loaded(img),
                Result::Err(GatewayErrorModel::NotFound) => pv == PreviewModel::Failed,
                Result::Err(e) => pv == PreviewModel::InternalError(e),
            }
        }),
{
}

} // verus!
