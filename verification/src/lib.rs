//! Orchestration core of an LLM-driven coding agent.
//!
//! The library turns a user request into a sequence of model calls,
//! interprets model output as plain text or structured tool invocations,
//! normalizes tool outcomes into results that are fed back to the model,
//! and reports progress as an ordered stream of events.
//!
//! All I/O (the model transport, the actual tool handlers, skill discovery)
//! lives outside this crate: callers drive the run state machine by asking
//! it for the next action and handing back the outside world's answer as a
//! plain value.

pub mod catalog;
pub mod dispatch;
pub mod prompt;
pub mod run;
pub mod strutil;
pub mod text;
pub mod types;
pub mod wire;
