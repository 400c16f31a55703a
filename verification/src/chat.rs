//! Request and response shapes of the chat-completion surface.

use vstd::prelude::*;

verus! {

/// One turn of a conversation.
///
/// The role is a small open string enumeration: `system`, `user` and
/// `assistant` are recognized; any other value is treated as `user` by the
/// prompt encoder.
#[derive(Debug, Clone)]
pub struct ChatMessage {
    pub role: String,
    pub content: String,
}

/// A chat-completion request: the target model, the ordered conversation,
/// and optional per-request overrides of the configured sampling knobs.
#[derive(Debug, Clone)]
pub struct ChatRequest {
    pub model: String,
    pub messages: Vec<ChatMessage>,
    /// Per-request temperature override, in thousandths.
    pub temperature_permille: Option<u32>,
    /// Per-request nucleus threshold override, in thousandths.
    pub top_p_permille: Option<u32>,
    /// Per-request cap on generated tokens.
    pub max_tokens: Option<u32>,
    /// Accepted for interface compatibility; streaming delivery is not
    /// implemented and the flag has no effect.
    pub stream: Option<bool>,
}

/// One generated alternative inside a response.
#[derive(Debug, Clone)]
pub struct ChatChoice {
    pub index: u32,
    pub message: ChatMessage,
    pub finish_reason: Option<String>,
}

/// Token accounting for one completed request.
#[derive(Debug, Clone, Copy, PartialEq, Eq, Structural)]
pub struct ChatUsage {
    pub prompt_tokens: u32,
    pub completion_tokens: u32,
    pub total_tokens: u32,
}

/// The accounting invariant of every completed response: the total is the
/// sum of the prompt and completion counts.
pub open spec fn usage_consistent(u: ChatUsage) -> bool {
    u.total_tokens == u.prompt_tokens + u.completion_tokens
}

/// A chat-completion response.
#[derive(Debug, Clone)]
pub struct ChatResponse {
    pub id: String,
    pub object: String,
    pub created: u64,
    pub model: String,
    pub choices: Vec<ChatChoice>,
    pub usage: Option<ChatUsage>,
}

/// One entry of a model listing.
#[derive(Debug, Clone)]
pub struct ModelInfo {
    pub id: String,
    pub object: String,
    pub created: u64,
    pub owned_by: String,
}

/// The shape of a model listing.
#[derive(Debug, Clone)]
pub struct ModelsResponse {
    pub object: String,
    pub data: Vec<ModelInfo>,
}

/// A snapshot of the service's lifecycle state.
#[derive(Debug, Clone)]
pub struct LlmServiceStatus {
    pub is_running: bool,
    /// There is no network endpoint for a local engine; always 0.
    pub port: u16,
    pub model_name: String,
    /// Locator placeholder; always `"local"`.
    pub base_url: String,
}

} // verus!
