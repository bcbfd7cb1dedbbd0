//! The decision core of a single-shot text-generation agent.
//!
//! One run takes a pending task from a key-addressed document store, sends its
//! prompt to an inference endpoint (or reads a recorded reply), and writes the
//! generated text back under the same key. This crate holds every decision of
//! that run and performs none of its I/O: the caller carries out each
//! [`Action`] and hands back the matching [`Event`].

pub mod agent;
pub mod laws;
pub mod payload;
pub mod protocol;
pub mod types;
pub mod world;

pub use agent::{Agent, AgentInterface};
pub use payload::get_llama_payload;
pub use protocol::{Action, Event, Stage};
pub use types::{AgentError, LlamaResponse, Mode, Parameters, StoreError, Task};
