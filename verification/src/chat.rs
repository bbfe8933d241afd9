//! Chat conversation data types.
//!
//! The chat service itself wraps a third-party language-model client
//! and lives with the host; these are the plain values it exchanges
//! with the command surface.

use vstd::prelude::*;

verus! {

/// One message of a conversation.
pub struct ChatMessage {
    pub role: String,
    pub content: String,
    pub timestamp: Option<u64>,
}

/// One chat invocation.
pub struct ChatRequest {
    pub prompt: String,
    pub provider: String,
    pub model: String,
    pub stream_id: Option<String>,
    pub chat_history: Option<Vec<ChatMessage>>,
}

/// One event of a streaming chat session.
pub struct ChatStreamEvent {
    pub stream_id: String,
    pub content: String,
    pub event_type: String,
    pub is_final: bool,
}

/// The complete answer of a non-streaming chat.
pub struct ChatResponse {
    pub stream_id: String,
    pub content: String,
    pub status: String,
}

/// A chat request as received from the host's command surface.
pub struct StreamChatRequest {
    pub prompt: String,
    pub provider: String,
    pub model: String,
    pub stream_id: Option<String>,
    pub chat_history: Option<Vec<ChatMessage>>,
}

/// Relies on std::time::SystemTime::now: the seconds since the Unix
/// epoch at the time of the call, zero if the clock reads earlier than
/// the epoch.  Nothing can be promised of a clock reading.
#[verifier::external_body]
fn now_unix_secs() -> u64 {
    match std::time::SystemTime::now().duration_since(std::time::UNIX_EPOCH) {
        Ok(d) => d.as_secs(),
        Err(_) => 0,
    }
}

impl ChatMessage {
    /// A user message carrying the given content, stamped with the
    /// current time.
    pub fn new_user(content: String) -> (r: ChatMessage)
        ensures
            r.role@ == "user"@,
            r.content == content,
            r.timestamp is Some,
    {
        ChatMessage { role: "user".to_owned(), content, timestamp: Some(now_unix_secs()) }
    }

    /// An assistant message carrying the given content, stamped with
    /// the current time.
    pub fn new_assistant(content: String) -> (r: ChatMessage)
        ensures
            r.role@ == "assistant"@,
            r.content == content,
            r.timestamp is Some,
    {
        ChatMessage { role: "assistant".to_owned(), content, timestamp: Some(now_unix_secs()) }
    }

    /// A system message carrying the given content, stamped with the
    /// current time.
    pub fn new_system(content: String) -> (r: ChatMessage)
        ensures
            r.role@ == "system"@,
            r.content == content,
            r.timestamp is Some,
    {
        ChatMessage { role: "system".to_owned(), content, timestamp: Some(now_unix_secs()) }
    }
}

} // verus!
