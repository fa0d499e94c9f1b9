//! The preview state machine.
//!
//! The preview of the currently selected file runs through a small tagged
//! union: no file, a pending job for one settings snapshot, a loaded image,
//! or one of two failure states.  The commit step carries the staleness
//! guard: a finished job's image is taken only while its own snapshot is
//! still the pending one, so a slow, superseded job can never overwrite
//! state derived from a newer snapshot.

use vstd::prelude::*;

use crate::gateway::{GatewayError, GatewayErrorModel};
use crate::settings::{Settings, SettingsModel};

verus! {

/// Mathematical model of the preview state; the image as a byte sequence.
#[verifier::ext_equal]
pub enum PreviewModel {
    NoFile,
    Loading(SettingsModel),
    Loaded(Seq<u8>),
    Failed,
    InternalError(GatewayErrorModel),
}

/// Lifecycle of the single-frame preview.
#[derive(Debug)]
pub enum PreviewState {
    /// No source file is selected.
    NoFile,
    /// A preview is being generated for this settings snapshot.
    Loading(Settings),
    /// The most recent successfully generated preview image.
    Loaded(Vec<u8>),
    /// The source file does not exist.
    Failed,
    /// The gateway failed unexpectedly.
    InternalError(GatewayError),
}

impl View for PreviewState {
    type V = PreviewModel;

    open spec fn view(&self) -> PreviewModel {
        match self {
            PreviewState::NoFile => PreviewModel::NoFile,
            PreviewState::Loading(s) => PreviewModel::Loading(s@),
            PreviewState::Loaded(img) => PreviewModel::Loaded(img@),
            PreviewState::Failed => PreviewModel::Failed,
            PreviewState::InternalError(e) => PreviewModel::InternalError(e@),
        }
    }
}

impl Clone for PreviewState {
    fn clone(&self) -> (r: Self)
        ensures
            r@ == self@,
    {
        match self {
            PreviewState::NoFile => PreviewState::NoFile,
            PreviewState::Loading(s) => PreviewState::Loading(s.clone()),
            PreviewState::Loaded(img) => {
                let c = img.clone();
                proof {
                    assert(c@ =~= img@);
                }
                PreviewState::Loaded(c)
            },
            PreviewState::Failed => PreviewState::Failed,
            PreviewState::InternalError(e) => PreviewState::InternalError(e.clone()),
        }
    }
}

/// Model of a finished preview job: the extracted image, or what went
/// wrong at the gateway.
pub open spec fn outcome_model(r: Result<Vec<u8>, GatewayError>) -> Result<
    Seq<u8>,
    GatewayErrorModel,
> {
    match r {
        Result::Ok(img) => Result::Ok(img@),
        Result::Err(e) => Result::Err(e@),
    }
}

/// The preview state after a worker reports the outcome of the job it ran
/// for snapshot `job`.
///
/// A successful image is committed only if `job` is still the pending
/// snapshot (the staleness guard); otherwise it is discarded and the state
/// is left untouched.  Errors are not guarded: a missing source file
/// always yields `Failed`, any other gateway error always yields
/// `InternalError`, since there is no competing success to protect.
pub open spec fn preview_commit_step(
    pv: PreviewModel,
    job: SettingsModel,
    outcome: Result<Seq<u8>, GatewayErrorModel>,
) -> PreviewModel {
    match outcome {
        Result::Ok(img) => {
            if pv matches PreviewModel::Loading(s) && s == job {
                PreviewModel::Loaded(img)
            } else {
                pv
            }
        },
        Result::Err(GatewayErrorModel::NotFound) => PreviewModel::Failed,
        Result::Err(e) => PreviewModel::InternalError(e),
    }
}

} // verus!
