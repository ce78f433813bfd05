//! Data model of the client: conversation messages, the normalized response,
//! the error taxonomy, and the client configuration.

use vstd::prelude::*;

verus! {

/// One message of the conversation history: a role (for example `"user"` or
/// `"assistant"`) together with its text content.
#[derive(Debug, Clone, PartialEq, Eq)]
pub struct Message {
    pub role: String,
    pub content: String,
}

/// One piece of model output. Currently the provider only produces text, but
/// the tagged representation leaves room for further content kinds.
#[derive(Debug, Clone, PartialEq, Eq)]
pub enum ContentItem {
    Text { text: String },
}

/// Token accounting for one request/response exchange. Counters the provider
/// does not report are zero.
#[derive(Debug, Clone, Copy, PartialEq, Eq)]
pub struct Usage {
    pub input_tokens: i32,
    pub output_tokens: i32,
    pub cache_creation_input_tokens: i32,
    pub cache_read_input_tokens: i32,
}

/// The provider-agnostic result of a successful query.
#[derive(Debug, Clone, PartialEq, Eq)]
pub struct ModelResponse {
    pub id: String,
    pub model: String,
    pub role: String,
    pub message_type: String,
    pub stop_reason: String,
    pub stop_sequence: Option<String>,
    pub content: Vec<ContentItem>,
    pub usage: Usage,
}

/// Everything that can go wrong during a query, surfaced to the caller as a
/// typed value; the library never panics and never retries.
#[derive(Debug, Clone, PartialEq, Eq)]
pub enum InferenceError {
    /// No API key is configured; detected locally, before any transport work.
    MissingApiKey(String),
    /// The tool schema handed in by the collaborator was unusable.
    SerializationError(String),
    /// The transport failed: connect, send, or reading the response body.
    NetworkError(String),
    /// The provider answered with a non-success HTTP status; the raw body is
    /// preserved verbatim for diagnostics.
    ApiError(u16, String),
    /// The provider answered with a success status but the body does not match
    /// the expected schema.
    InvalidResponse(String),
}

/// Configuration for an inference client, supplied at construction. Loading it
/// from disk or the environment is the caller's business; [`Self::default`]
/// gives the documented fallback values.
#[derive(Debug, Clone, PartialEq, Eq)]
pub struct ProjectConfig {
    pub model: String,
    pub api_key: String,
    pub max_output_tokens: u32,
}

impl Default for ProjectConfig {
    /// The fallback configuration: a current general-purpose model, no API key
    /// (queries fail fast with `MissingApiKey` until one is supplied), and a
    /// moderate output budget.
    fn default() -> (c: ProjectConfig)
        ensures
            c.model@ == "sonnet-latest"@,
            c.api_key@ == Seq::<char>::empty(),
            c.max_output_tokens == 4096,
    {
        ProjectConfig {
            model: "sonnet-latest".to_owned(),
            api_key: String::new(),
            max_output_tokens: 4096,
        }
    }
}

} // verus!
