//! Verified core of a multi-agent DevOps orchestrator.
//!
//! The library tracks coding agents that work on version-controlled issues:
//! it allocates deterministic, collision-free resources (branch names,
//! terminal sessions, container sandboxes, port ranges), drives each work
//! item through a pipeline state machine, breaks epics into phases and
//! sub-issues, and classifies crashed or orphaned resources for recovery.
//!
//! Everything here is pure logic over plain values; the thin shell around
//! the library performs the actual subprocess and network calls and hands
//! their results back in as data.

pub mod clock;
pub mod deps;
pub mod commands;
pub mod epic;
pub mod github;
pub mod lifecycle;
pub mod names;
pub mod orchestration;
pub mod orchestrator;
pub mod pipeline;
pub mod plan;
pub mod ports;
pub mod recovery;
pub mod sandbox;
pub mod seqs;
pub mod sidecar;
pub mod store;
pub mod text;
pub mod worktree;
