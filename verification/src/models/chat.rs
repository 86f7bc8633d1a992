//! Chat message model.
use vstd::prelude::*;
use crate::deps::{new_uuid, now, Timestamp};
use crate::text::owned;

verus! {

/// Role of a chat message sender
#[derive(Clone, Copy, Debug, PartialEq, Eq, Structural)]
pub enum ChatRole {
    User,
    Assistant,
    System,
}

/// The lowercase name of a role, as it is displayed and stored.
pub open spec fn role_name(r: ChatRole) -> Seq<char> {
    match r {
        ChatRole::User => "user"@,
        ChatRole::Assistant => "assistant"@,
        ChatRole::System => "system"@,
    }
}

impl ChatRole {
    /// The role's name (its `Display` rendering).
    pub fn to_string(&self) -> (s: String)
        ensures
            s@ == role_name(*self),
    {
        match self {
            ChatRole::User => owned("user"),
            ChatRole::Assistant => owned("assistant"),
            ChatRole::System => owned("system"),
        }
    }
}

/// Represents a chat message in a conversation
#[derive(Clone, Debug)]
pub struct ChatMessage {
    pub id: uuid::Uuid,
    pub session_id: uuid::Uuid,
    pub role: ChatRole,
    pub content: String,
    pub created_at: Timestamp,
}

impl ChatMessage {
    pub fn new(session_id: uuid::Uuid, role: ChatRole, content: String) -> (m: Self)
        ensures
            m.session_id == session_id,
            m.role == role,
            m.content == content,
    {
        ChatMessage { id: new_uuid(), session_id, role, content, created_at: now() }
    }

    pub fn user(session_id: uuid::Uuid, content: String) -> (m: Self)
        ensures
            m.session_id == session_id,
            m.role == ChatRole::User,
            m.content == content,
    {
        Self::new(session_id, ChatRole::User, content)
    }

    pub fn assistant(session_id: uuid::Uuid, content: String) -> (m: Self)
        ensures
            m.session_id == session_id,
            m.role == ChatRole::Assistant,
            m.content == content,
    {
        Self::new(session_id, ChatRole::Assistant, content)
    }

    pub fn system(session_id: uuid::Uuid, content: String) -> (m: Self)
        ensures
            m.session_id == session_id,
            m.role == ChatRole::System,
            m.content == content,
    {
        Self::new(session_id, ChatRole::System, content)
    }
}

} // verus!
