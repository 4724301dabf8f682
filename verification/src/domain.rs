//! The records of a roleplay world and the storage values of their enums.

use vstd::prelude::*;

use crate::text::{concat_str, str_eq};
use crate::time::Timestamp;

verus! {

/// The kinds of background job the server schedules.
#[derive(Clone, Copy, Debug, PartialEq, Eq, Structural)]
pub enum JobKind {
    UpdateMemoryAfterTurn,
}

impl JobKind {
    /// The text under which the kind is stored.
    pub open spec fn db_text(self) -> Seq<char> {
        match self {
            JobKind::UpdateMemoryAfterTurn => "update_memory_after_turn"@,
        }
    }

    /// The kind stored under `value`, if any.
    pub open spec fn from_db_text(value: Seq<char>) -> Option<JobKind> {
        if value == "update_memory_after_turn"@ {
            Some(JobKind::UpdateMemoryAfterTurn)
        } else {
            None
        }
    }

    /// The text under which the kind is stored.
    pub fn as_db_value(self) -> (s: &'static str)
        ensures
            s@ == self.db_text(),
    {
        match self {
            JobKind::UpdateMemoryAfterTurn => "update_memory_after_turn",
        }
    }

    /// Reads a kind back from its stored text; `None` for any other text.
    pub fn from_db_value(value: &str) -> (r: Option<JobKind>)
        ensures
            r == JobKind::from_db_text(value@),
    {
        if str_eq(value, "update_memory_after_turn") {
            Some(JobKind::UpdateMemoryAfterTurn)
        } else {
            None
        }
    }
}

/// The life cycle states of a background job.
#[derive(Clone, Copy, Debug, PartialEq, Eq, Structural)]
pub enum JobStatus {
    Pending,
    Running,
    Succeeded,
    Failed,
}

impl JobStatus {
    /// The text under which the status is stored.
    pub open spec fn db_text(self) -> Seq<char> {
        match self {
            JobStatus::Pending => "pending"@,
            JobStatus::Running => "running"@,
            JobStatus::Succeeded => "succeeded"@,
            JobStatus::Failed => "failed"@,
        }
    }

    /// The status stored under `value`, if any.
    pub open spec fn from_db_text(value: Seq<char>) -> Option<JobStatus> {
        if value == "pending"@ {
            Some(JobStatus::Pending)
        } else if value == "running"@ {
            Some(JobStatus::Running)
        } else if value == "succeeded"@ {
            Some(JobStatus::Succeeded)
        } else if value == "failed"@ {
            Some(JobStatus::Failed)
        } else {
            None
        }
    }

    /// The text under which the status is stored.
    pub fn as_db_value(self) -> (s: &'static str)
        ensures
            s@ == self.db_text(),
    {
        match self {
            JobStatus::Pending => "pending",
            JobStatus::Running => "running",
            JobStatus::Succeeded => "succeeded",
            JobStatus::Failed => "failed",
        }
    }

    /// Reads a status back from its stored text; `None` for any other text.
    pub fn from_db_value(value: &str) -> (r: Option<JobStatus>)
        ensures
            r == JobStatus::from_db_text(value@),
    {
        if str_eq(value, "pending") {
            Some(JobStatus::Pending)
        } else if str_eq(value, "running") {
            Some(JobStatus::Running)
        } else if str_eq(value, "succeeded") {
            Some(JobStatus::Succeeded)
        } else if str_eq(value, "failed") {
            Some(JobStatus::Failed)
        } else {
            None
        }
    }
}

/// Who wrote a message of a session.
#[derive(Clone, Copy, Debug, PartialEq, Eq, Structural)]
pub enum MessageRole {
    System,
    User,
    Assistant,
}

impl MessageRole {
    /// The text under which the role is stored.
    pub open spec fn db_text(self) -> Seq<char> {
        match self {
            MessageRole::System => "system"@,
            MessageRole::User => "user"@,
            MessageRole::Assistant => "assistant"@,
        }
    }

    /// The role stored under `value`, if any.
    pub open spec fn from_db_text(value: Seq<char>) -> Option<MessageRole> {
        if value == "system"@ {
            Some(MessageRole::System)
        } else if value == "user"@ {
            Some(MessageRole::User)
        } else if value == "assistant"@ {
            Some(MessageRole::Assistant)
        } else {
            None
        }
    }

    /// The text under which the role is stored.
    pub fn as_db_value(self) -> (s: &'static str)
        ensures
            s@ == self.db_text(),
    {
        match self {
            MessageRole::System => "system",
            MessageRole::User => "user",
            MessageRole::Assistant => "assistant",
        }
    }

    /// Reads a role back from its stored text; `None` for any other text.
    pub fn from_db_value(value: &str) -> (r: Option<MessageRole>)
        ensures
            r == MessageRole::from_db_text(value@),
    {
        if str_eq(value, "system") {
            Some(MessageRole::System)
        } else if str_eq(value, "user") {
            Some(MessageRole::User)
        } else if str_eq(value, "assistant") {
            Some(MessageRole::Assistant)
        } else {
            None
        }
    }
}

/// The kinds of edge in the story graph.
#[derive(Clone, Copy, Debug, PartialEq, Eq, Structural)]
pub enum GraphRelationKind {
    SessionInGame,
    MessageInSession,
    EventInSession,
    CharacterInGame,
    LocationInGame,
    WorldFactInGame,
    MemoryInSession,
    EventInvolvesCharacter,
    EventHappenedAtLocation,
    CharacterKnowsWorldFact,
    MemorySupportsWorldFact,
}

/// The failures the server reports, each with its message.
#[derive(Clone, Debug, PartialEq, Eq)]
pub enum HarpeError {
    Validation(String),
    NotFound(String),
    PermissionDenied(String),
    Store(String),
    Llm(String),
}

/// A player profile.
#[derive(Clone, Debug, PartialEq, Eq)]
pub struct User {
    pub id: String,
    pub display_name: String,
    pub created_at: Timestamp,
}

/// The input that creates a user.
#[derive(Clone, Debug, PartialEq, Eq)]
pub struct NewUser {
    pub display_name: String,
}

/// A story world owned by a user.
#[derive(Clone, Debug, PartialEq, Eq)]
pub struct Game {
    pub id: String,
    pub owner_user_id: String,
    pub title: String,
    pub system_prompt: String,
    pub created_at: Timestamp,
}

/// The input that creates a game.
#[derive(Clone, Debug, PartialEq, Eq)]
pub struct NewGame {
    pub owner_user_id: String,
    pub title: String,
    pub system_prompt: String,
}

/// One play-through of a game.
#[derive(Clone, Debug, PartialEq, Eq)]
pub struct Session {
    pub id: String,
    pub game_id: String,
    pub title: String,
    pub created_at: Timestamp,
}

/// The input that creates a session.
#[derive(Clone, Debug, PartialEq, Eq)]
pub struct NewSession {
    pub game_id: String,
    pub title: String,
}

/// One message of a session transcript.
#[derive(Clone, Debug, PartialEq, Eq)]
pub struct Message {
    pub id: String,
    pub session_id: String,
    pub role: MessageRole,
    pub content: String,
    pub created_at: Timestamp,
}

/// The input that appends a message; `id` is chosen by the store when absent.
#[derive(Clone, Debug, PartialEq, Eq)]
pub struct NewMessage {
    pub id: Option<String>,
    pub session_id: String,
    pub role: MessageRole,
    pub content: String,
}

/// The running summary of a session.
#[derive(Clone, Debug, PartialEq, Eq)]
pub struct StorySummary {
    pub session_id: String,
    pub content: String,
    pub updated_at: Timestamp,
}

/// The input that writes the summary of a session.
#[derive(Clone, Debug, PartialEq, Eq)]
pub struct UpsertStorySummary {
    pub session_id: String,
    pub content: String,
}

/// A character of a game.
#[derive(Clone, Debug, PartialEq, Eq)]
pub struct Character {
    pub id: String,
    pub game_id: String,
    pub name: String,
    pub description: String,
    pub status: String,
    pub updated_at: Timestamp,
}

/// The input that creates or replaces a character.
#[derive(Clone, Debug, PartialEq, Eq)]
pub struct UpsertCharacter {
    pub id: Option<String>,
    pub game_id: String,
    pub name: String,
    pub description: String,
    pub status: String,
}

/// Something that happened in a session.
#[derive(Clone, Debug, PartialEq, Eq)]
pub struct Event {
    pub id: String,
    pub session_id: String,
    pub summary: String,
    pub importance: i32,
    pub created_at: Timestamp,
}

/// The input that records an event.
#[derive(Clone, Debug, PartialEq, Eq)]
pub struct NewEvent {
    pub session_id: String,
    pub summary: String,
    pub importance: i32,
}

/// A place of a game.
#[derive(Clone, Debug, PartialEq, Eq)]
pub struct Location {
    pub id: String,
    pub game_id: String,
    pub name: String,
    pub description: String,
    pub updated_at: Timestamp,
}

/// The input that creates or replaces a location.
#[derive(Clone, Debug, PartialEq, Eq)]
pub struct UpsertLocation {
    pub id: Option<String>,
    pub game_id: String,
    pub name: String,
    pub description: String,
}

/// An edge of the story graph.
#[derive(Clone, Debug, PartialEq, Eq)]
pub struct GraphEdge {
    pub relation: GraphRelationKind,
    pub in_record: String,
    pub out_record: String,
    pub created_at: Timestamp,
}

/// A queued unit of background work; its payload is held as JSON text.
#[derive(Clone, Debug, PartialEq, Eq)]
pub struct BackgroundJob {
    pub id: String,
    pub kind: JobKind,
    pub status: JobStatus,
    pub payload_json: String,
    pub attempts: i32,
    pub max_attempts: i32,
    pub last_error: Option<String>,
    pub run_after: Timestamp,
    pub created_at: Timestamp,
    pub updated_at: Timestamp,
}

/// The input that queues a background job.
#[derive(Clone, Debug, PartialEq, Eq)]
pub struct NewBackgroundJob {
    pub kind: JobKind,
    pub payload_json: String,
    pub max_attempts: i32,
    pub run_after: Option<Timestamp>,
}

/// An event read out of a turn by the extraction model.
#[derive(Clone, Debug, PartialEq, Eq)]
pub struct ExtractedEvent {
    pub summary: String,
    pub importance: i32,
}

/// A character change read out of a turn by the extraction model.
#[derive(Clone, Debug, PartialEq, Eq)]
pub struct ExtractedCharacterUpdate {
    pub name: String,
    pub description: String,
    pub status: String,
}

/// A location read out of a turn by the extraction model.
#[derive(Clone, Debug, PartialEq, Eq)]
pub struct ExtractedLocation {
    pub name: String,
    pub description: String,
}

/// Reading a role back from its stored text gives the role, and only its own
/// text reads back as that role.
pub proof fn message_role_db_round_trip(role: MessageRole, value: Seq<char>)
    ensures
        MessageRole::from_db_text(role.db_text()) == Some(role),
        MessageRole::from_db_text(value) == Some(role) ==> value == role.db_text(),
{
    reveal_strlit("system");
    reveal_strlit("user");
    reveal_strlit("assistant");
    assert("system"@.len() != "user"@.len());
    assert("system"@.len() != "assistant"@.len());
    assert("user"@.len() != "assistant"@.len());
}

/// Reading a kind back from its stored text gives the kind, and only its own
/// text reads back as that kind.
pub proof fn job_kind_db_round_trip(kind: JobKind, value: Seq<char>)
    ensures
        JobKind::from_db_text(kind.db_text()) == Some(kind),
        JobKind::from_db_text(value) == Some(kind) ==> value == kind.db_text(),
{
}

/// Reading a status back from its stored text gives the status, and only its
/// own text reads back as that status.
pub proof fn job_status_db_round_trip(status: JobStatus, value: Seq<char>)
    ensures
        JobStatus::from_db_text(status.db_text()) == Some(status),
        JobStatus::from_db_text(value) == Some(status) ==> value == status.db_text(),
{
    reveal_strlit("pending");
    reveal_strlit("running");
    reveal_strlit("succeeded");
    reveal_strlit("failed");
    assert("pending"@[0] != "running"@[0]);
    assert("pending"@.len() != "succeeded"@.len());
    assert("pending"@.len() != "failed"@.len());
    assert("running"@.len() != "succeeded"@.len());
    assert("running"@.len() != "failed"@.len());
    assert("succeeded"@.len() != "failed"@.len());
}

} // verus!
