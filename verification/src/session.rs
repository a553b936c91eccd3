//! The session records the agents read: the session itself, its messages and
//! the intake of the current turn.

use vstd::prelude::*;
use crate::text::str_eq;

verus! {

/// Whether a session is still in use.
#[derive(Debug, Clone, Copy, PartialEq, Eq)]
pub enum SessionStatus {
    Active,
}

impl SessionStatus {
    /// The stored name of this status: `active`.
    pub fn as_str(&self) -> (r: &'static str)
        ensures
            r@ == "active"@,
    {
        "active"
    }

    /// The status with the given stored name, if any.
    pub fn from_str(value: &str) -> (r: Option<Self>)
        ensures
            r == (if value@ == "active"@ {
                Some(SessionStatus::Active)
            } else {
                None::<SessionStatus>
            }),
    {
        if str_eq(value, "active") {
            Some(SessionStatus::Active)
        } else {
            None
        }
    }
}

/// A conversation between the user and Distilllab.
#[derive(Debug, Clone)]
pub struct Session {
    pub id: String,
    pub title: String,
    pub manual_title: Option<String>,
    pub pinned: bool,
    pub status: SessionStatus,
    pub current_intent: String,
    pub current_object_type: String,
    pub current_object_id: String,
    pub summary: String,
    pub started_at: String,
    pub updated_at: String,
    pub last_user_message_at: String,
    pub last_run_at: String,
    pub last_compacted_at: String,
    pub metadata_json: String,
}

/// Who wrote a session message.
#[derive(Debug, Clone, Copy, PartialEq, Eq, Structural)]
pub enum SessionMessageRole {
    User,
    Assistant,
    System,
}

/// The name of a message role.
pub open spec fn role_text(r: SessionMessageRole) -> Seq<char> {
    match r {
        SessionMessageRole::User => "user"@,
        SessionMessageRole::Assistant => "assistant"@,
        SessionMessageRole::System => "system"@,
    }
}

impl SessionMessageRole {
    /// The name of this role: `user`, `assistant` or `system`.
    pub fn as_str(&self) -> (r: &'static str)
        ensures
            r@ == role_text(*self),
    {
        match self {
            SessionMessageRole::User => "user",
            SessionMessageRole::Assistant => "assistant",
            SessionMessageRole::System => "system",
        }
    }

    /// The role with the given name, if any.
    pub fn from_str(value: &str) -> (r: Option<Self>)
        ensures
            match r {
                Some(x) => role_text(x) == value@,
                None => forall|x: SessionMessageRole| role_text(x) != value@,
            },
    {
        if str_eq(value, "user") {
            Some(SessionMessageRole::User)
        } else if str_eq(value, "assistant") {
            Some(SessionMessageRole::Assistant)
        } else if str_eq(value, "system") {
            Some(SessionMessageRole::System)
        } else {
            None
        }
    }
}

/// Reading a role back from its name gives the role.
pub proof fn lemma_role_name_round_trip(r: SessionMessageRole)
    ensures
        forall|x: SessionMessageRole| role_text(x) == role_text(r) ==> x == r,
{
    reveal_strlit("user");
    reveal_strlit("assistant");
    reveal_strlit("system");
    assert forall|x: SessionMessageRole| role_text(x) == role_text(r) implies x == r by {
        if x != r {
            assert(role_text(x).len() != role_text(r).len() || role_text(x)[0] != role_text(r)[0]);
        }
    }
}

/// One message of a session's timeline.
#[derive(Debug, Clone)]
pub struct SessionMessage {
    pub id: String,
    pub session_id: String,
    pub run_id: Option<String>,
    pub message_type: String,
    pub role: SessionMessageRole,
    pub content: String,
    pub data_json: String,
    pub created_at: String,
}

/// A file or other material attached to a turn.
#[derive(Debug, Clone)]
pub struct AttachmentRef {
    pub attachment_id: String,
    pub kind: String,
    pub name: String,
    pub mime_type: String,
    pub path_or_locator: String,
    pub size: u64,
    pub metadata_json: String,
}

/// What the user sent in the current turn.
#[derive(Debug, Clone)]
pub struct SessionIntake {
    pub session_id: String,
    pub user_message: String,
    pub attachments: Vec<AttachmentRef>,
    pub current_object_type: Option<String>,
    pub current_object_id: Option<String>,
}

} // verus!
