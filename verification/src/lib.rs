//! A provider abstraction layer for large-language-model backends.
//!
//! The crate offers a uniform conversation model ([`message::Message`],
//! [`message::Role`]), a closed error taxonomy ([`error::AgentError`]),
//! per-backend adapters that translate the uniform model into a backend's
//! request schema and normalize responses and failures back into the uniform
//! model, and the plain result records ([`executor::StepResult`],
//! [`executor::ExecutionResult`]) exchanged with an external executor.

pub mod anthropic;
pub mod config;
pub mod error;
pub mod executor;
pub mod message;
pub mod openai;

pub use config::LLMConfig;
pub use error::AgentError;
pub use executor::{ExecutionResult, StepResult};
pub use message::{Message, Role};
