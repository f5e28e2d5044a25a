//! Orchestration of a multipart upload to a blob store.
//!
//! An upload opens a session, sends the parts one after another in the
//! order given, and finalizes the session. Whenever a part or the
//! finalization fails, the session is aborted, so that the store never
//! keeps a half-finished upload. The orchestrator here is a state machine:
//! it is told what the backend answered and says which call comes next,
//! which leaves the transport to the caller.
//!
//! `model` states each step over plain values, and `laws` proves what
//! whole runs of it do.
pub mod laws;
pub mod model;
mod orchestrator;
mod payload;
pub mod types;

pub use orchestrator::Orchestrator;
pub use payload::part_body;
pub use types::{Action, CompletedPart, FailureKind, Reply, UploadFailure, UploadTarget};
