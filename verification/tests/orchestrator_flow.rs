use media_mangler::gateway::GatewayError;
use media_mangler::orchestrator::Orchestrator;
use media_mangler::preview::PreviewState;
use media_mangler::render::{RenderPollAction, RenderState};
use media_mangler::settings::Settings;

fn snap(path: &str) -> Settings {
    let mut s = Settings::default();
    s.path = path.to_string();
    s
}

#[test]
fn starts_with_no_file_and_idle() {
    let o = Orchestrator::new();
    assert!(matches!(o.read_preview(), PreviewState::NoFile));
    assert_eq!(o.read_render(), RenderState::Idle);
    assert!(o.preview_poll().is_none());
}

#[test]
fn empty_path_gives_no_file_and_no_job() {
    let mut o = Orchestrator::new();
    let mut s = Settings::default();
    s.fps = 24;
    o.submit_settings(s, false);
    assert!(matches!(o.read_preview(), PreviewState::NoFile));
    assert!(o.preview_poll().is_none());
}

#[test]
fn new_path_starts_loading() {
    let mut o = Orchestrator::new();
    o.submit_settings(snap("clip.mp4"), false);
    match o.read_preview() {
        PreviewState::Loading(s) => assert_eq!(s.path, "clip.mp4"),
        other => panic!("expected a pending job, got {other:?}"),
    }
    let job = o.preview_poll().expect("a job should be pending");
    assert_eq!(job, snap("clip.mp4"));
}

#[test]
fn interaction_suppresses_commit() {
    let mut o = Orchestrator::new();
    o.submit_settings(snap("clip.mp4"), true);
    assert!(matches!(o.read_preview(), PreviewState::NoFile));
    assert!(o.preview_poll().is_none());
    o.submit_settings(snap("clip.mp4"), false);
    assert!(matches!(o.read_preview(), PreviewState::Loading(_)));
}

#[test]
fn resubmitting_same_snapshot_is_a_no_op() {
    let mut o = Orchestrator::new();
    o.submit_settings(snap("clip.mp4"), false);
    let job = o.preview_poll().expect("a job should be pending");
    o.preview_commit(&job, Ok(vec![1, 2, 3]));
    assert!(matches!(o.read_preview(), PreviewState::Loaded(_)));
    // The same value again: no second Loading transition.
    o.submit_settings(snap("clip.mp4"), false);
    match o.read_preview() {
        PreviewState::Loaded(img) => assert_eq!(img, vec![1, 2, 3]),
        other => panic!("expected the loaded image to survive, got {other:?}"),
    }
}

#[test]
fn stale_result_is_discarded() {
    let mut o = Orchestrator::new();
    o.submit_settings(snap("first.mp4"), false);
    let stale_job = o.preview_poll().expect("a job should be pending");
    // A newer snapshot supersedes the job before it commits.
    o.submit_settings(snap("second.mp4"), false);
    o.preview_commit(&stale_job, Ok(vec![9, 9]));
    match o.read_preview() {
        PreviewState::Loading(s) => assert_eq!(s.path, "second.mp4"),
        other => panic!("stale result must not overwrite newer state, got {other:?}"),
    }
    // The current job's result is taken.
    let job = o.preview_poll().expect("a job should be pending");
    o.preview_commit(&job, Ok(vec![4, 2]));
    match o.read_preview() {
        PreviewState::Loaded(img) => assert_eq!(img, vec![4, 2]),
        other => panic!("expected the fresh image, got {other:?}"),
    }
}

#[test]
fn missing_file_reports_failed() {
    let mut o = Orchestrator::new();
    o.submit_settings(snap("gone.mp4"), false);
    let job = o.preview_poll().expect("a job should be pending");
    o.preview_commit(&job, Err(GatewayError::NotFound));
    assert!(matches!(o.read_preview(), PreviewState::Failed));
}

#[test]
fn gateway_fault_reports_internal_error() {
    let mut o = Orchestrator::new();
    o.submit_settings(snap("clip.mp4"), false);
    let job = o.preview_poll().expect("a job should be pending");
    o.preview_commit(&job, Err(GatewayError::Io("probe exited abnormally".to_string())));
    match o.read_preview() {
        PreviewState::InternalError(GatewayError::Io(d)) => {
            assert_eq!(d, "probe exited abnormally")
        },
        other => panic!("expected an internal error, got {other:?}"),
    }
}

#[test]
fn second_render_request_is_rejected() {
    let mut o = Orchestrator::new();
    assert!(o.request_render(5));
    assert_eq!(o.read_render(), RenderState::Rendering(5));
    assert!(!o.request_render(6));
    assert_eq!(o.read_render(), RenderState::Rendering(5));
}

#[test]
fn render_request_rejected_until_dismissed() {
    let mut o = Orchestrator::new();
    assert!(o.request_render(0));
    o.render_finish(70);
    assert_eq!(o.read_render(), RenderState::Done(70));
    assert!(!o.request_render(80));
    assert_eq!(o.read_render(), RenderState::Done(70));
    assert!(o.dismiss_render());
    assert_eq!(o.read_render(), RenderState::Idle);
    assert!(o.request_render(90));
}

#[test]
fn abort_kills_then_finishes() {
    let mut o = Orchestrator::new();
    assert!(o.request_render(0));
    assert!(o.request_abort());
    assert_eq!(o.read_render(), RenderState::Abort);
    // Next poll with the process still running: kill it.
    assert_eq!(o.render_poll_action(false), RenderPollAction::Kill);
    // Once the killed process is observed gone, the job finishes.
    assert_eq!(o.render_poll_action(true), RenderPollAction::Finish);
    o.render_finish(180);
    assert_eq!(o.read_render(), RenderState::Done(180));
}

#[test]
fn abort_and_dismiss_outside_their_states_are_no_ops() {
    let mut o = Orchestrator::new();
    assert!(!o.request_abort());
    assert_eq!(o.read_render(), RenderState::Idle);
    assert!(!o.dismiss_render());
    assert_eq!(o.read_render(), RenderState::Idle);
    assert!(o.request_render(1));
    assert!(!o.dismiss_render());
    assert_eq!(o.read_render(), RenderState::Rendering(1));
    assert!(o.request_abort());
    assert!(!o.request_abort());
    assert_eq!(o.read_render(), RenderState::Abort);
}

#[test]
fn poll_keeps_waiting_while_rendering() {
    let mut o = Orchestrator::new();
    assert!(o.request_render(0));
    assert_eq!(o.render_poll_action(false), RenderPollAction::Continue);
    assert_eq!(o.render_poll_action(true), RenderPollAction::Finish);
}

#[test]
fn render_state_is_independent_of_preview() {
    let mut o = Orchestrator::new();
    assert!(o.request_render(3));
    o.submit_settings(snap("clip.mp4"), false);
    assert_eq!(o.read_render(), RenderState::Rendering(3));
    let job = o.preview_poll().expect("a job should be pending");
    o.preview_commit(&job, Ok(vec![7]));
    assert_eq!(o.read_render(), RenderState::Rendering(3));
    assert!(matches!(o.read_preview(), PreviewState::Loaded(_)));
}
