//! The request sent to the model provider for one text.
use vstd::prelude::*;
use vstd::string::*;
use crate::json::JsonValue;
use crate::schema::{describes_answer, response_schema};

verus! {

/// The instruction that frames every request.
pub const SYSTEM_PROMPT: &'static str = "You are an expert proofreader. Analyze the provided text and identify every correction needed to fix its grammar or spelling. For each mistake, report its startIndex, its endIndex, its type, the correction and an explanation. startIndex is the position of the first character of the mistake in the original text and endIndex the position of its last character, counting characters from zero. Getting startIndex and endIndex exactly right is essential: they must bound the mistake in the original text, not in the corrected one. Finally, provide the entire corrected text.";

/// The model that answers the requests.
pub const MODEL: &'static str = "gemini-2.0-pro-exp-02-05";

/// The answer format asked of the model.
pub const RESPONSE_MIME_TYPE: &'static str = "application/json";

/// A generation request: one system instruction, one user turn, and the
/// structured output it must produce.
pub struct GenerationRequest {
    pub model: String,
    pub system_instruction: String,
    pub user_text: String,
    pub response_mime_type: String,
    pub response_schema: JsonValue,
}

/// Builds the request that asks for the corrections of `input`, which is
/// sent as it is.
pub fn compose_request(input: &str) -> (r: GenerationRequest)
    ensures
        r.model@ == MODEL@,
        r.system_instruction@ == SYSTEM_PROMPT@,
        r.user_text@ == input@,
        r.response_mime_type@ == RESPONSE_MIME_TYPE@,
        describes_answer(r.response_schema),
{
    GenerationRequest {
        model: String::from_str(MODEL),
        system_instruction: String::from_str(SYSTEM_PROMPT),
        user_text: String::from_str(input),
        response_mime_type: String::from_str(RESPONSE_MIME_TYPE),
        response_schema: response_schema(),
    }
}

} // verus!
