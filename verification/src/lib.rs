//! A minimal client library for a remote large-language-model inference API.
//!
//! The library builds the JSON request payload for a conversation, checks the
//! provider's JSON reply against the expected schema, and normalizes it into a
//! provider-agnostic [`types::ModelResponse`]. Transport (the actual HTTPS
//! POST) is left to the caller: [`client::AnthropicInference::prepare_request`]
//! produces everything the transport needs, and
//! [`client::AnthropicInference::conclude`] turns the transport's outcome into
//! the final result.

pub mod client;
mod ext;
pub mod json;
pub mod laws;
pub mod request;
pub mod response;
pub mod types;

pub use client::AnthropicInference;
pub use client::PreparedRequest;
pub use client::TransportOutcome;
pub use types::ContentItem;
pub use types::InferenceError;
pub use types::Message;
pub use types::ModelResponse;
pub use types::ProjectConfig;
pub use types::Usage;
