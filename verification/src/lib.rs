//! A verified core for a natural-language-to-shell-command assistant.
//!
//! The heart of the crate is the unified streaming completion layer: the
//! per-protocol frame decoders with cross-chunk buffering, the request
//! builders for each provider wire format, the headless aggregation of a
//! fragment stream, and the interactive mode state machine.  Network I/O,
//! terminal drawing and file-system access live outside the library; the
//! library takes and returns plain values and its contracts are checked by
//! Verus.

pub mod anthropic;
pub mod brain;
pub mod client;
pub mod components;
pub mod config;
pub mod executor;
pub mod prompts;
pub mod scanner;
pub mod shell;
pub mod state;
pub mod compose;
pub mod decode;
pub mod frame;
pub mod gemini;
pub mod mock;
pub mod ollama;
pub mod openai;
pub mod text;

use vstd::prelude::*;

verus! {

pub use brain::CommandAnalysis;
pub use client::{CompletionRequest, CompletionResponse, ErrorKind, ModelType, StreamOutcome};
pub use config::Config;
pub use decode::{DecoderSession, Dialect};
pub use executor::CommandExecutor;
pub use mock::MockAIProvider;
pub use scanner::FileScanner;
pub use shell::ShellContext;
pub use state::{AppMode, AppState, ChatMessage, KeyInput};

} // verus!
