//! A small gateway library around a prompt-completion backend.
//!
//! The crate normalizes heterogeneous request/response shapes into one
//! message envelope, binds credentials to a provider behind a client,
//! relays incremental backend output as ordered transport events, and
//! drives a per-connection session state machine.

pub mod errors;
pub mod gemini;
pub mod gemini_client;
pub mod message;
pub mod model_client;
pub mod model_llm;
pub mod relay;
pub mod select_model;
pub mod session;
pub mod traits;
pub mod wire;
