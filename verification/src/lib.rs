//! Core of an archetype-based LLM routing library.
//!
//! A user request names an archetype (a persona/mode); the registry binds
//! that name to a system prompt, a model identifier, and a provider; the
//! composer merges the system prompt, optional user instructions, and the
//! user's prompt into one text blob; the dispatcher sends it through the
//! archetype's provider and hands the answer (or a descriptive error
//! string) back to the caller.

pub mod compose;
pub mod dispatch;
pub mod groq;
mod json;
pub mod provider;
pub mod registry;
pub mod reply;
pub mod text;
pub mod types;

pub use compose::compose;
pub use dispatch::ask_guardian;
pub use groq::build_request_body;
pub use groq::GroqProvider;
pub use json::first_choice_of;
pub use provider::HttpTransport;
pub use provider::LLMProvider;
pub use provider::ProviderError;
pub use provider::ScriptedTransport;
pub use registry::Archetype;
pub use registry::Registry;
pub use types::AppRequest;
pub use types::HttpReply;
pub use types::LLMResponse;
pub use types::ProviderRequest;
