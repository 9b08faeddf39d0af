//! Request and response shapes for an OpenAI-style Chat Completions backend.
//!
//! This backend models system instructions inline: System-role turns stay in
//! the message list under the role tag `"system"`, so no out-of-band system
//! field exists. Response translation selects the first returned choice.

use vstd::prelude::*;

use crate::error::AgentError;

verus! {

/// One turn in the backend's message schema: a role name and the content.
#[derive(Clone, Debug)]
pub struct OpenAIMessage {
    /// The role of the message sender: `"system"`, `"user"` or `"assistant"`.
    pub role: String,
    /// The content of the message.
    pub content: String,
}

/// The request shape of the backend's Chat Completions API.
///
/// The sampling temperature is carried in milli-units, as in
/// [`crate::config::LLMConfig`].
#[derive(Clone, Debug)]
pub struct ChatCompletionRequest {
    /// The backend model identifier.
    pub model: String,
    /// The conversation messages, in original order, system turns inline.
    pub messages: Vec<OpenAIMessage>,
    /// Sampling temperature in milli-units (0 to 2000 stands for 0.0 to 2.0).
    pub temperature_milli: u32,
    /// Maximum number of output tokens.
    pub max_tokens: usize,
}

/// The response shape of the backend's Chat Completions API.
#[derive(Clone, Debug)]
pub struct ChatCompletionResponse {
    /// Unique identifier for the completion.
    pub id: String,
    /// The backend's object type tag.
    pub object: String,
    /// Unix timestamp of when the completion was created.
    pub created: u64,
    /// The model used for the completion.
    pub model: String,
    /// The returned choices; the first one carries the reply.
    pub choices: Vec<Choice>,
}

/// Individual choice in the response.
#[derive(Clone, Debug)]
pub struct Choice {
    /// Index of this choice in the choices list.
    pub index: u32,
    /// The generated message.
    pub message: OpenAIMessage,
    /// Why the model stopped generating, if reported.
    pub finish_reason: Option<String>,
}

/// Extract the reply text from a parsed completion: the message content of
/// the first choice, or `EmptyResponse` if there is none.
pub fn first_choice_text(response: &ChatCompletionResponse) -> (r: Result<String, AgentError>)
    ensures
        (response.choices@.len() == 0 ==> (r matches Err(e) && e == AgentError::EmptyResponse)),
        (response.choices@.len() > 0 ==> (r matches Ok(t) && t@
            == response.choices@[0].message.content@)),
{
    if response.choices.len() == 0 {
        Err(AgentError::EmptyResponse)
    } else {
        Ok(response.choices[0].message.content.clone())
    }
}

} // verus!
