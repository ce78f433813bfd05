//! Properties that hold across calls, stated and proved over the client's
//! contracts.

use vstd::prelude::*;
use crate::client::spec_concluded;
use crate::client::spec_success;
use crate::response::opt_view;
use crate::response::spec_parse_reply;
use crate::types::ContentItem;
use crate::types::InferenceError;
use crate::types::ModelResponse;

verus! {

/// Two responses carry the same data, field by field.
pub open spec fn responses_alike(a: ModelResponse, b: ModelResponse) -> bool {
    &&& a.id@ == b.id@
    &&& a.model@ == b.model@
    &&& a.role@ == b.role@
    &&& a.message_type@ == b.message_type@
    &&& a.stop_reason@ == b.stop_reason@
    &&& opt_view(a.stop_sequence) == opt_view(b.stop_sequence)
    &&& a.content@.len() == b.content@.len()
    &&& (a.content@.len() == 1 ==> match (a.content@[0], b.content@[0]) {
        (ContentItem::Text { text: t1 }, ContentItem::Text { text: t2 }) => t1@ == t2@,
    })
    &&& a.usage == b.usage
}

/// Concluding the same transport response twice gives the same result: both
/// succeed with responses carrying the same data, or both fail the same way.
pub proof fn lemma_conclude_deterministic(
    status: u16,
    body: Seq<char>,
    r1: Result<ModelResponse, InferenceError>,
    r2: Result<ModelResponse, InferenceError>,
)
    requires
        spec_concluded(status, body, r1),
        spec_concluded(status, body, r2),
    ensures
        match (r1, r2) {
            (Ok(a), Ok(b)) => responses_alike(a, b),
            (Err(e1), Err(e2)) => match (e1, e2) {
                (
                    InferenceError::ApiError(s1, b1),
                    InferenceError::ApiError(s2, b2),
                ) => s1 == s2 && b1@ == b2@,
                (
                    InferenceError::InvalidResponse(m1),
                    InferenceError::InvalidResponse(m2),
                ) => m1@ == m2@,
                _ => false,
            },
            _ => false,
        },
{
}

/// A non-success status always becomes `ApiError`, carrying that status and
/// the body verbatim: nothing is retried and nothing in the body is
/// interpreted.
pub proof fn lemma_non_success_preserves_body(
    status: u16,
    body: Seq<char>,
    r: Result<ModelResponse, InferenceError>,
)
    requires
        spec_concluded(status, body, r),
        !spec_success(status),
    ensures
        r matches Err(e) && e matches InferenceError::ApiError(st, b) && st == status && b@
            == body,
{
}

/// A success reply with no content items is normalized to exactly one content
/// item holding the empty text: the client substitutes an empty string rather
/// than failing.
pub proof fn lemma_empty_content_is_empty_text(
    status: u16,
    body: Seq<char>,
    r: Result<ModelResponse, InferenceError>,
)
    requires
        spec_concluded(status, body, r),
        spec_success(status),
        match spec_parse_reply(body) {
            Some(m) => m.texts.len() == 0,
            None => false,
        },
    ensures
        match r {
            Ok(resp) => resp.content@.len() == 1 && match resp.content@[0] {
                ContentItem::Text { text } => text@ == Seq::<char>::empty(),
            },
            Err(_) => false,
        },
{
}

/// A success reply always normalizes to exactly one text content item, tagged
/// `message_type == "text"`.
pub proof fn lemma_success_single_text_item(
    status: u16,
    body: Seq<char>,
    r: Result<ModelResponse, InferenceError>,
)
    requires
        spec_concluded(status, body, r),
        spec_success(status),
        spec_parse_reply(body) is Some,
    ensures
        match r {
            Ok(resp) => resp.content@.len() == 1 && resp.message_type@ == "text"@,
            Err(_) => false,
        },
{
}

} // verus!

