//! Streaming subprocess pipeline orchestration for video-to-GIF conversion.
//!
//! A conversion runs two child processes: a *producer* that decodes the source
//! media and a *consumer* that encodes the final image. This crate holds the
//! decisions of that pipeline as pure, verified state machines and rules; the
//! embedding program performs the process and stream operations that the
//! machines ask for and reports back what happened.

pub mod collector;
pub mod config;
pub mod diagnostics;
pub mod exit;
pub mod forwarder;
pub mod orchestrator;
pub mod outcome;
pub mod payload;
pub mod reply;
pub mod request;
pub mod text;
pub mod verdict;
