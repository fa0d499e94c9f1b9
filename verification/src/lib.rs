//! Job-orchestration core of a media-mangling tool.
//!
//! A user tunes degradation settings and watches a live single-frame
//! preview while a separate, cancellable full transcode can run in the
//! background.  This crate holds the coordination logic: the preview and
//! render state machines, the debounce / staleness policy that decides when
//! a new preview job supersedes an in-flight one, the render-job lifecycle
//! (request, poll, abort, completion), and the parsing of the probe tool's
//! duration output.  Process spawning, file I/O and the user interface live
//! outside, feeding plain values in and reading the state machines back.

pub mod duration;
pub mod gateway;
pub mod laws;
pub mod orchestrator;
pub mod preview;
pub mod render;
pub mod seek;
pub mod settings;
