//! Streaming text-to-speech pipeline.
//!
//! Turns a synthesis request into a formatted model prompt and a sampling
//! configuration, drives a generation session that converts backend events
//! into ordered audio chunks, and models a backpressure-aware streaming
//! response adapter. The HTTP transport and the model backend themselves are
//! outside this crate; the pipeline exposes the decisions they need as plain
//! functions and state machines.

pub mod adapter;
pub mod errors;
pub mod pipeline;
pub mod prompt;
pub mod request;
pub mod sampling;
pub mod session;

pub use errors::PipelineError;
pub use request::SpeechRequest;
