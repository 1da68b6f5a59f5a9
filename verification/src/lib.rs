//! Core of a minimal continuous-integration server.
//!
//! The library models and verifies the build-dispatch and execution engine:
//! the pipeline data model and its branch-trigger predicate, a hand-written
//! parser for the pipeline configuration header, the pipeline runner's
//! step-by-step status machine with cooperative cancellation, the per-build
//! log registry, and the fixed-size executor pool with its admission and
//! cancellation routing. All I/O (HTTP, subprocesses, files, channels) lives
//! outside the library and drives these verified state machines.

pub mod build_executor;
pub mod build_message;
pub mod dispatch;
pub mod error;
pub mod executor_pool;
pub mod git;
pub mod github;
pub mod log_hub;
pub mod parser;
pub mod pipeline;
pub mod runner;
pub mod running_build;
pub mod workspace_context;
