//! The messages and enums of the Harpe gRPC API, as plain values.

use vstd::prelude::*;

verus! {

/// The wire numbers of `harpe.v1.MessageRole`.
#[derive(Clone, Copy, Debug, PartialEq, Eq, Structural)]
pub enum PbMessageRole {
    Unspecified,
    System,
    User,
    Assistant,
}

/// The wire numbers of `harpe.v1.MessageFinishReason`.
#[derive(Clone, Copy, Debug, PartialEq, Eq, Structural)]
pub enum PbFinishReason {
    Unspecified,
    InProgress,
    AssistantComplete,
}

/// The wire numbers of `harpe.v1.ServingStatus`.
#[derive(Clone, Copy, Debug, PartialEq, Eq, Structural)]
pub enum PbServingStatus {
    Unspecified,
    Serving,
    Degraded,
    NotServing,
}

/// The wire numbers of `harpe.v1.AdminJobStatus`.
#[derive(Clone, Copy, Debug, PartialEq, Eq, Structural)]
pub enum PbAdminJobStatus {
    Unspecified,
    Pending,
    Running,
    Succeeded,
    Failed,
}

/// The wire numbers of `harpe.v1.AdminJobKind`.
#[derive(Clone, Copy, Debug, PartialEq, Eq, Structural)]
pub enum PbAdminJobKind {
    Unspecified,
    UpdateMemoryAfterTurn,
}

/// The wire numbers of `harpe.v1.MetricsExportFormat`.
#[derive(Clone, Copy, Debug, PartialEq, Eq, Structural)]
pub enum PbMetricsExportFormat {
    Unspecified,
    PrometheusText,
}

impl PbMessageRole {
    /// The wire number of the role.
    pub open spec fn code(self) -> i32 {
        match self {
            PbMessageRole::Unspecified => 0,
            PbMessageRole::System => 1,
            PbMessageRole::User => 2,
            PbMessageRole::Assistant => 3,
        }
    }

    /// The wire number of the role.
    pub fn as_i32(self) -> (r: i32)
        ensures
            r == self.code(),
    {
        match self {
            PbMessageRole::Unspecified => 0,
            PbMessageRole::System => 1,
            PbMessageRole::User => 2,
            PbMessageRole::Assistant => 3,
        }
    }

    /// The role with wire number `value`, if any.
    pub fn from_i32(value: i32) -> (r: Option<PbMessageRole>)
        ensures
            r matches Some(x) ==> x.code() == value,
            r is None ==> forall|x: PbMessageRole| x.code() != value,
    {
        match value {
            0 => Some(PbMessageRole::Unspecified),
            1 => Some(PbMessageRole::System),
            2 => Some(PbMessageRole::User),
            3 => Some(PbMessageRole::Assistant),
            _ => None,
        }
    }
}

impl PbFinishReason {
    /// The wire number of the reason.
    pub open spec fn code(self) -> i32 {
        match self {
            PbFinishReason::Unspecified => 0,
            PbFinishReason::InProgress => 1,
            PbFinishReason::AssistantComplete => 2,
        }
    }

    /// The wire number of the reason.
    pub fn as_i32(self) -> (r: i32)
        ensures
            r == self.code(),
    {
        match self {
            PbFinishReason::Unspecified => 0,
            PbFinishReason::InProgress => 1,
            PbFinishReason::AssistantComplete => 2,
        }
    }

    /// The reason with wire number `value`, if any.
    pub fn from_i32(value: i32) -> (r: Option<PbFinishReason>)
        ensures
            r matches Some(x) ==> x.code() == value,
            r is None ==> forall|x: PbFinishReason| x.code() != value,
    {
        match value {
            0 => Some(PbFinishReason::Unspecified),
            1 => Some(PbFinishReason::InProgress),
            2 => Some(PbFinishReason::AssistantComplete),
            _ => None,
        }
    }
}

impl PbServingStatus {
    /// The wire number of the status.
    pub open spec fn code(self) -> i32 {
        match self {
            PbServingStatus::Unspecified => 0,
            PbServingStatus::Serving => 1,
            PbServingStatus::Degraded => 2,
            PbServingStatus::NotServing => 3,
        }
    }

    /// The wire number of the status.
    pub fn as_i32(self) -> (r: i32)
        ensures
            r == self.code(),
    {
        match self {
            PbServingStatus::Unspecified => 0,
            PbServingStatus::Serving => 1,
            PbServingStatus::Degraded => 2,
            PbServingStatus::NotServing => 3,
        }
    }

    /// The status with wire number `value`, if any.
    pub fn from_i32(value: i32) -> (r: Option<PbServingStatus>)
        ensures
            r matches Some(x) ==> x.code() == value,
            r is None ==> forall|x: PbServingStatus| x.code() != value,
    {
        match value {
            0 => Some(PbServingStatus::Unspecified),
            1 => Some(PbServingStatus::Serving),
            2 => Some(PbServingStatus::Degraded),
            3 => Some(PbServingStatus::NotServing),
            _ => None,
        }
    }
}

impl PbAdminJobStatus {
    /// The wire number of the status.
    pub open spec fn code(self) -> i32 {
        match self {
            PbAdminJobStatus::Unspecified => 0,
            PbAdminJobStatus::Pending => 1,
            PbAdminJobStatus::Running => 2,
            PbAdminJobStatus::Succeeded => 3,
            PbAdminJobStatus::Failed => 4,
        }
    }

    /// The wire number of the status.
    pub fn as_i32(self) -> (r: i32)
        ensures
            r == self.code(),
    {
        match self {
            PbAdminJobStatus::Unspecified => 0,
            PbAdminJobStatus::Pending => 1,
            PbAdminJobStatus::Running => 2,
            PbAdminJobStatus::Succeeded => 3,
            PbAdminJobStatus::Failed => 4,
        }
    }

    /// The status with wire number `value`, if any.
    pub fn from_i32(value: i32) -> (r: Option<PbAdminJobStatus>)
        ensures
            r matches Some(x) ==> x.code() == value,
            r is None ==> forall|x: PbAdminJobStatus| x.code() != value,
    {
        match value {
            0 => Some(PbAdminJobStatus::Unspecified),
            1 => Some(PbAdminJobStatus::Pending),
            2 => Some(PbAdminJobStatus::Running),
            3 => Some(PbAdminJobStatus::Succeeded),
            4 => Some(PbAdminJobStatus::Failed),
            _ => None,
        }
    }
}

impl PbAdminJobKind {
    /// The wire number of the kind.
    pub open spec fn code(self) -> i32 {
        match self {
            PbAdminJobKind::Unspecified => 0,
            PbAdminJobKind::UpdateMemoryAfterTurn => 1,
        }
    }

    /// The wire number of the kind.
    pub fn as_i32(self) -> (r: i32)
        ensures
            r == self.code(),
    {
        match self {
            PbAdminJobKind::Unspecified => 0,
            PbAdminJobKind::UpdateMemoryAfterTurn => 1,
        }
    }

    /// The kind with wire number `value`, if any.
    pub fn from_i32(value: i32) -> (r: Option<PbAdminJobKind>)
        ensures
            r matches Some(x) ==> x.code() == value,
            r is None ==> forall|x: PbAdminJobKind| x.code() != value,
    {
        match value {
            0 => Some(PbAdminJobKind::Unspecified),
            1 => Some(PbAdminJobKind::UpdateMemoryAfterTurn),
            _ => None,
        }
    }
}

impl PbMetricsExportFormat {
    /// The wire number of the format.
    pub open spec fn code(self) -> i32 {
        match self {
            PbMetricsExportFormat::Unspecified => 0,
            PbMetricsExportFormat::PrometheusText => 1,
        }
    }

    /// The format with wire number `value`, if any.
    pub fn from_i32(value: i32) -> (r: Option<PbMetricsExportFormat>)
        ensures
            r matches Some(x) ==> x.code() == value,
            r is None ==> forall|x: PbMetricsExportFormat| x.code() != value,
    {
        match value {
            0 => Some(PbMetricsExportFormat::Unspecified),
            1 => Some(PbMetricsExportFormat::PrometheusText),
            _ => None,
        }
    }
}

/// `harpe.v1.User`.
#[derive(Clone, Debug, PartialEq, Eq)]
pub struct User {
    pub id: String,
    pub display_name: String,
    pub created_at: String,
}

/// `harpe.v1.Game`.
#[derive(Clone, Debug, PartialEq, Eq)]
pub struct Game {
    pub id: String,
    pub title: String,
    pub system_prompt: String,
    pub created_at: String,
    pub owner_user_id: String,
}

/// `harpe.v1.Session`.
#[derive(Clone, Debug, PartialEq, Eq)]
pub struct Session {
    pub id: String,
    pub game_id: String,
    pub title: String,
    pub created_at: String,
}

/// `harpe.v1.Message`; `role` holds a `MessageRole` wire number.
#[derive(Clone, Debug, PartialEq, Eq)]
pub struct Message {
    pub id: String,
    pub session_id: String,
    pub role: i32,
    pub content: String,
    pub created_at: String,
}

/// `harpe.v1.StorySummary`.
#[derive(Clone, Debug, PartialEq, Eq)]
pub struct StorySummary {
    pub session_id: String,
    pub content: String,
    pub updated_at: String,
}

/// `harpe.v1.Character`.
#[derive(Clone, Debug, PartialEq, Eq)]
pub struct Character {
    pub id: String,
    pub game_id: String,
    pub name: String,
    pub description: String,
    pub status: String,
    pub updated_at: String,
}

/// `harpe.v1.Event`.
#[derive(Clone, Debug, PartialEq, Eq)]
pub struct Event {
    pub id: String,
    pub session_id: String,
    pub summary: String,
    pub importance: i32,
    pub created_at: String,
}

/// `harpe.v1.Location`.
#[derive(Clone, Debug, PartialEq, Eq)]
pub struct Location {
    pub id: String,
    pub game_id: String,
    pub name: String,
    pub description: String,
    pub updated_at: String,
}

/// `harpe.v1.PageRequest`.
#[derive(Clone, Debug, PartialEq, Eq)]
pub struct PageRequest {
    pub page_size: u32,
    pub page_token: String,
}

/// `harpe.v1.PageInfo`.
#[derive(Clone, Debug, PartialEq, Eq)]
pub struct PageInfo {
    pub next_page_token: String,
    pub returned_count: u32,
}

/// `harpe.v1.ContextMessage`.
#[derive(Clone, Debug, PartialEq, Eq)]
pub struct ContextMessage {
    pub role: i32,
    pub content: String,
    pub estimated_tokens: u32,
}

/// `harpe.v1.PreviewContextResponse`.
#[derive(Clone, Debug, PartialEq, Eq)]
pub struct PreviewContextResponse {
    pub messages: Vec<ContextMessage>,
    pub estimated_tokens: u32,
}

/// `harpe.v1.HealthCheckResponse`; `status` holds a `ServingStatus` wire number.
#[derive(Clone, Debug, PartialEq, Eq)]
pub struct HealthCheckResponse {
    pub status: i32,
    pub service: String,
    pub version: String,
    pub database_ok: bool,
    pub pending_jobs: u32,
    pub failed_jobs: u32,
    pub checked_at: String,
}

/// `harpe.v1.MessageDelta`; `finish_reason` holds a `MessageFinishReason` wire number.
#[derive(Clone, Debug, PartialEq, Eq)]
pub struct MessageDelta {
    pub session_id: String,
    pub message_id: String,
    pub delta: String,
    pub done: bool,
    pub sequence: u32,
    pub finish_reason: i32,
}

/// `harpe.v1.GameBackupChunk`.
#[derive(Clone, Debug, PartialEq, Eq)]
pub struct GameBackupChunk {
    pub game_id: String,
    pub kind: String,
    pub sequence: u32,
    pub payload_json: String,
    pub done: bool,
}

/// `harpe.v1.HistogramBucket`.
#[derive(Clone, Debug, PartialEq, Eq)]
pub struct HistogramBucket {
    pub le: String,
    pub count: u64,
}

/// `harpe.v1.MetricsSnapshot`.
#[derive(Clone, Debug, PartialEq, Eq)]
pub struct MetricsSnapshot {
    pub grpc_requests: u64,
    pub grpc_failures: u64,
    pub streamed_messages: u64,
    pub jobs_processed: u64,
    pub jobs_succeeded: u64,
    pub jobs_retried: u64,
    pub jobs_failed: u64,
    pub health_checks: u64,
    pub grpc_latency_count: u64,
    pub grpc_latency_sum_ms: u64,
    pub grpc_latency_buckets: Vec<HistogramBucket>,
    pub collected_at: String,
}

/// `harpe.v1.BackgroundJobDebug`; `kind` and `status` hold wire numbers.
#[derive(Clone, Debug, PartialEq, Eq)]
pub struct BackgroundJobDebug {
    pub id: String,
    pub kind: i32,
    pub status: i32,
    pub payload_json: String,
    pub attempts: i32,
    pub max_attempts: i32,
    pub last_error: String,
    pub run_after: String,
    pub created_at: String,
    pub updated_at: String,
}

} // verus!
