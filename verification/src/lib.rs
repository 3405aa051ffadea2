//! Core pipeline of a local command-line assistant: it turns a
//! natural-language request into a single shell command by driving a small
//! on-device language model.
//!
//! This crate holds the parts with algorithmic content: request assembly,
//! prompt construction, the prompt-length gate, the batch model, the
//! incremental decode loop's state machine, the stop policy, and output
//! sanitization. The native inference engine, the model cache on disk, and
//! the process boundary live outside; they exchange plain values (token ids
//! and strings) with this crate.

pub mod decode;
pub mod errors;
pub mod prompt;
pub mod request;
pub mod sanitize;
