use vstd::prelude::*;

verus! {

/// Who speaks a message of a conversation.
#[derive(Debug, Clone, Copy, PartialEq, Eq)]
pub enum ChatRole {
    User,
    Assistant,
    System,
}

/// One message of a conversation sent to a provider.
#[derive(Debug, Clone, PartialEq, Eq)]
pub struct ChatMessage {
    pub role: ChatRole,
    pub content: String,
}

/// Per-request generation parameters. Fractional parameters are held in
/// thousandths (a temperature of 0.7 is 700), so they stay exact integers.
#[derive(Debug, Clone, Copy, PartialEq, Eq)]
pub struct GenerationParams {
    pub max_tokens: Option<u32>,
    pub temperature_milli: Option<u32>,
    pub top_p_milli: Option<u32>,
    pub top_k: Option<u32>,
}

} // verus!
