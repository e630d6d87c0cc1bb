//! Conversation and message model. Roles follow the `system / user /
//! assistant / tool` convention so any provider adapter can consume them.

use vstd::prelude::*;

verus! {

/// The author of a message.
#[derive(Debug, Clone, Copy, PartialEq, Eq, Structural)]
pub enum Role {
    System,
    User,
    Assistant,
    Tool,
}

/// The stable string form of each [`Role`].
pub open spec fn role_name(x: Role) -> Seq<char> {
    match x {
        Role::System => "system"@,
        Role::User => "user"@,
        Role::Assistant => "assistant"@,
        Role::Tool => "tool"@,
    }
}

/// The [`Role`] whose string form is `s`, if any.
pub open spec fn role_from_name(s: Seq<char>) -> Option<Role> {
    if s == "system"@ {
        Some(Role::System)
    } else if s == "user"@ {
        Some(Role::User)
    } else if s == "assistant"@ {
        Some(Role::Assistant)
    } else if s == "tool"@ {
        Some(Role::Tool)
    } else {
        None
    }
}

impl Role {
    /// The stable string form.
    pub fn as_str(self) -> (s: &'static str)
        ensures
            s@ == role_name(self),
    {
        match self {
            Role::System => "system",
            Role::User => "user",
            Role::Assistant => "assistant",
            Role::Tool => "tool",
        }
    }

    /// Parse the stable string form.
    pub fn parse(s: &str) -> (r: Option<Self>)
        ensures
            r == role_from_name(s@),
    {
        if crate::text::str_eq(s, "system") {
            Some(Role::System)
        } else if crate::text::str_eq(s, "user") {
            Some(Role::User)
        } else if crate::text::str_eq(s, "assistant") {
            Some(Role::Assistant)
        } else if crate::text::str_eq(s, "tool") {
            Some(Role::Tool)
        } else {
            None
        }
    }
}

/// Parsing the string form of a [`Role`] gives it back.
pub proof fn lemma_role_round_trip(x: Role)
    ensures
        role_from_name(role_name(x)) == Some(x),
{
    match x {
        Role::System => {
            reveal_strlit("system");
        },
        Role::User => {
            reveal_strlit("user");
            reveal_strlit("system");
            assert("user"@.len() != "system"@.len());
        },
        Role::Assistant => {
            reveal_strlit("assistant");
            reveal_strlit("system");
            assert("assistant"@.len() != "system"@.len());
            reveal_strlit("user");
            assert("assistant"@.len() != "user"@.len());
        },
        Role::Tool => {
            reveal_strlit("tool");
            reveal_strlit("system");
            assert("tool"@.len() != "system"@.len());
            reveal_strlit("user");
            assert("tool"@[0] != "user"@[0]);
            reveal_strlit("assistant");
            assert("tool"@.len() != "assistant"@.len());
        },
    }
}

/// A conversation row.
#[derive(Debug, Clone)]
pub struct Conversation {
    pub conversation_id: String,
    pub title: Option<String>,
    pub created_at: String,
    pub updated_at: String,
}

/// A message row; `seq` orders messages within a conversation.
#[derive(Debug, Clone)]
pub struct Message {
    pub message_id: String,
    pub conversation_id: String,
    pub role: String,
    pub content: String,
    pub created_at: String,
    pub seq: i64,
}

/// Provider and model metadata recorded for every assistant message.
#[derive(Debug, Clone)]
pub struct MessageMeta {
    pub provider: String,
    pub model: String,
    pub routing_mode: String,
    /// Whether the turn's content crossed to a cloud provider.
    pub crossed_to_cloud: bool,
}

} // verus!
