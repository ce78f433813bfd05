//! The inference client: building a request from a conversation and turning
//! the transport's outcome into a normalized response or a typed error.
//!
//! The client itself performs no I/O. [`AnthropicInference::prepare_request`]
//! yields everything the transport needs (URL, headers' values, payload), and
//! [`AnthropicInference::conclude`] maps what came back — an HTTP status with
//! a body, or a transport failure — to the final result. A caller owning a
//! transport runs the two around one HTTPS POST.

use vstd::prelude::*;
use vstd::string::StringExecFns;
use crate::json::spec_valid_json_text;
use crate::json::valid_json_text;
use crate::request::build_request_body;
use crate::request::msg_views;
use crate::request::spec_request_body;
use crate::response::opt_view;
use crate::response::parse_reply;
use crate::response::spec_parse_reply;
use crate::response::texts_view;
use crate::response::ProviderReply;
use crate::response::SpecReply;
use crate::types::ContentItem;
use crate::types::InferenceError;
use crate::types::Message;
use crate::types::ModelResponse;
use crate::types::ProjectConfig;
use crate::types::Usage;

verus! {

/// Everything the transport needs for the HTTPS POST: the target URL, the two
/// provider header values, and the JSON payload.
#[derive(Debug, Clone, PartialEq, Eq)]
pub struct PreparedRequest {
    pub url: String,
    pub api_key: String,
    pub version: String,
    pub body: String,
}

/// What the transport came back with: a status and a body text, read whatever
/// the status was; or a failure before a body could be read.
#[derive(Debug, Clone, PartialEq, Eq)]
pub enum TransportOutcome {
    Response { status: u16, body: String },
    Failure { message: String },
}

/// The inference client: immutable configuration, no state across calls.
#[derive(Debug, Clone, PartialEq, Eq)]
pub struct AnthropicInference {
    pub model: String,
    pub base_url: String,
    pub api_key: String,
    pub max_output_tokens: u32,
}

/// An HTTP success status.
pub open spec fn spec_success(status: u16) -> bool {
    200 <= status < 300
}

/// The text the normalized response carries: the first content item's text,
/// or — kept as the provider client has always behaved — the empty string when
/// the provider returned no content items.
pub open spec fn spec_first_text(ts: Seq<Seq<char>>) -> Seq<char> {
    if ts.len() == 0 {
        Seq::<char>::empty()
    } else {
        ts[0]
    }
}

/// The normalized response a well-formed reply `m` must become: fields copied
/// through, exactly one text content item, `message_type` fixed to `"text"`,
/// and the cache counters zero since this provider variant does not report
/// them.
pub open spec fn spec_normalized(r: ModelResponse, m: SpecReply) -> bool {
    &&& r.id@ == m.id
    &&& r.model@ == m.model
    &&& r.role@ == m.role
    &&& r.message_type@ == "text"@
    &&& r.stop_reason@ == m.stop_reason
    &&& opt_view(r.stop_sequence) == m.stop_sequence
    &&& r.content@.len() == 1
    &&& match r.content@[0] {
        ContentItem::Text { text } => text@ == spec_first_text(m.texts),
    }
    &&& r.usage.input_tokens == m.input_tokens
    &&& r.usage.output_tokens == m.output_tokens
    &&& r.usage.cache_creation_input_tokens == 0
    &&& r.usage.cache_read_input_tokens == 0
}

/// What concluding a transport response must yield: a non-success status
/// becomes `ApiError` with the body verbatim; a success status with a body
/// that misses the schema becomes `InvalidResponse`; a success status with a
/// well-formed body becomes the normalized response.
pub open spec fn spec_concluded(
    status: u16,
    body: Seq<char>,
    r: Result<ModelResponse, InferenceError>,
) -> bool {
    &&& !spec_success(status) ==> (r matches Err(e) && e matches InferenceError::ApiError(st, b)
        && st == status && b@ == body)
    &&& (spec_success(status) && spec_parse_reply(body) is None) ==> (r matches Err(e)
        && e matches InferenceError::InvalidResponse(msg) && msg@
        == "response body does not match the expected schema"@)
    &&& spec_success(status) ==> match spec_parse_reply(body) {
        Some(m) => r matches Ok(resp) && spec_normalized(resp, m),
        None => true,
    }
}

/// The view of an optional system message: its text, or empty when none was
/// given.
pub open spec fn spec_system_text(sm: Option<&str>) -> Seq<char> {
    match sm {
        Some(t) => t@,
        None => Seq::<char>::empty(),
    }
}

/// Turns a well-formed provider reply into the provider-agnostic response.
fn normalize(rep: ProviderReply) -> (r: ModelResponse)
    ensures
        r.id@ == rep.id@,
        r.model@ == rep.model@,
        r.role@ == rep.role@,
        r.message_type@ == "text"@,
        r.stop_reason@ == rep.stop_reason@,
        opt_view(r.stop_sequence) == opt_view(rep.stop_sequence),
        r.content@.len() == 1,
        match r.content@[0] {
            ContentItem::Text { text } => text@ == spec_first_text(texts_view(rep.texts)),
        },
        r.usage.input_tokens == rep.input_tokens,
        r.usage.output_tokens == rep.output_tokens,
        r.usage.cache_creation_input_tokens == 0,
        r.usage.cache_read_input_tokens == 0,
{
    let ProviderReply {
        id,
        model,
        role,
        mut texts,
        stop_reason,
        stop_sequence,
        input_tokens,
        output_tokens,
    } = rep;
    let first: String = if texts.len() == 0 {
        String::new()
    } else {
        texts.remove(0)
    };
    let mut content: Vec<ContentItem> = Vec::new();
    content.push(ContentItem::Text { text: first });
    ModelResponse {
        id,
        model,
        role,
        message_type: "text".to_owned(),
        stop_reason,
        stop_sequence,
        content,
        usage: Usage {
            input_tokens,
            output_tokens,
            cache_creation_input_tokens: 0,
            cache_read_input_tokens: 0,
        },
    }
}

impl AnthropicInference {
    /// A client for the given configuration; the base URL is the provider's
    /// fixed API root.
    pub fn new(config: ProjectConfig) -> (c: AnthropicInference)
        ensures
            c.model@ == config.model@,
            c.api_key@ == config.api_key@,
            c.max_output_tokens == config.max_output_tokens,
            c.base_url@ == "https://api.anthropic.com/v1"@,
    {
        let ProjectConfig { model, api_key, max_output_tokens } = config;
        AnthropicInference {
            model,
            base_url: "https://api.anthropic.com/v1".to_owned(),
            api_key,
            max_output_tokens,
        }
    }

    /// Builds everything the transport needs for one query, or fails fast:
    /// with `MissingApiKey` when no key is configured (before anything else,
    /// so no transport work happens), and with `SerializationError` when the
    /// tool schema was not delivered or is not JSON.
    pub fn prepare_request(
        &self,
        messages: &Vec<Message>,
        system_message: Option<&str>,
        tools: Result<String, String>,
    ) -> (r: Result<PreparedRequest, InferenceError>)
        ensures
            self.api_key@.len() == 0 ==> (r matches Err(e) && e matches
                InferenceError::MissingApiKey(msg) && msg@ == "Anthropic API key not found"@),
            self.api_key@.len() > 0 ==> match tools {
                Err(m) => r matches Err(e) && e matches InferenceError::SerializationError(em)
                    && em@ == m@,
                Ok(t) => if !spec_valid_json_text(t@) {
                    r matches Err(e) && e matches InferenceError::SerializationError(msg) && msg@
                        == "tool schema is not a JSON value"@
                } else {
                    r matches Ok(p) && p.url@ == self.base_url@ + "/messages"@ && p.api_key@
                        == self.api_key@ && p.version@ == "2023-06-01"@ && p.body@
                        == spec_request_body(
                        self.model@,
                        msg_views(messages@),
                        self.max_output_tokens,
                        t@,
                        spec_system_text(system_message),
                    )
                },
            },
    {
        if self.api_key.as_str().is_empty() {
            return Err(
                InferenceError::MissingApiKey("Anthropic API key not found".to_owned()),
            );
        }
        let tools_text = match tools {
            Ok(t) => t,
            Err(m) => {
                return Err(InferenceError::SerializationError(m));
            },
        };
        if !valid_json_text(tools_text.as_str()) {
            return Err(
                InferenceError::SerializationError(
                    "tool schema is not a JSON value".to_owned(),
                ),
            );
        }
        let system: &str = match system_message {
            Some(t) => t,
            None => "",
        };
        proof {
            reveal_strlit("");
            assert(system@ =~= spec_system_text(system_message));
        }
        let body = build_request_body(
            self.model.as_str(),
            messages,
            self.max_output_tokens,
            tools_text.as_str(),
            system,
        );
        let url = self.base_url.clone().concat("/messages");
        Ok(
            PreparedRequest {
                url,
                api_key: self.api_key.clone(),
                version: "2023-06-01".to_owned(),
                body,
            },
        )
    }

    /// Maps an HTTP status and body to the final result, as
    /// [`spec_concluded`] states.
    pub fn handle_response(status: u16, body: String) -> (r: Result<
        ModelResponse,
        InferenceError,
    >)
        ensures
            spec_concluded(status, body@, r),
    {
        if !(200 <= status && status < 300) {
            return Err(InferenceError::ApiError(status, body));
        }
        match parse_reply(body.as_str()) {
            None => Err(
                InferenceError::InvalidResponse(
                    "response body does not match the expected schema".to_owned(),
                ),
            ),
            Some(rep) => Ok(normalize(rep)),
        }
    }

    /// Maps the transport's outcome to the final result: a failure becomes
    /// `NetworkError` with the transport's message; a response is handled as
    /// [`spec_concluded`] states.
    pub fn conclude(outcome: TransportOutcome) -> (r: Result<ModelResponse, InferenceError>)
        ensures
            outcome matches TransportOutcome::Failure { message } ==> (r matches Err(e)
                && e matches InferenceError::NetworkError(msg) && msg@ == message@),
            outcome matches TransportOutcome::Response { status, body } ==> spec_concluded(
                status,
                body@,
                r,
            ),
    {
        match outcome {
            TransportOutcome::Failure { message } => Err(InferenceError::NetworkError(message)),
            TransportOutcome::Response { status, body } => Self::handle_response(status, body),
        }
    }
}

impl Default for AnthropicInference {
    /// The client for the fallback configuration.
    fn default() -> (c: AnthropicInference)
        ensures
            c.model@ == "sonnet-latest"@,
            c.api_key@ == Seq::<char>::empty(),
            c.max_output_tokens == 4096,
            c.base_url@ == "https://api.anthropic.com/v1"@,
    {
        AnthropicInference::new(ProjectConfig::default())
    }
}

} // verus!
