//! What the `harpe` client prints: the stable names of the numbered values
//! of the wire protocol, and the text line of each record.

use vstd::prelude::*;

use crate::pb::{
    self, PbAdminJobKind, PbAdminJobStatus, PbFinishReason, PbMessageRole, PbServingStatus,
};
use crate::text::{i64_to_text, int_text, nat_text, u64_to_text};

verus! {

/// The name of the message role numbered `role`; an unknown number reads
/// as unspecified.
pub open spec fn role_name_of(role: i32) -> Seq<char> {
    if role == PbMessageRole::System.code() {
        "system"@
    } else if role == PbMessageRole::User.code() {
        "user"@
    } else if role == PbMessageRole::Assistant.code() {
        "assistant"@
    } else {
        "unspecified"@
    }
}

/// The name of the message role numbered `role`.
pub fn role_name(role: i32) -> (r: &'static str)
    ensures
        r@ == role_name_of(role),
{
    match PbMessageRole::from_i32(role) {
        Some(PbMessageRole::System) => "system",
        Some(PbMessageRole::User) => "user",
        Some(PbMessageRole::Assistant) => "assistant",
        _ => "unspecified",
    }
}

/// The name of the finish reason numbered `reason`.
pub open spec fn finish_reason_name_of(reason: i32) -> Seq<char> {
    if reason == PbFinishReason::InProgress.code() {
        "in_progress"@
    } else if reason == PbFinishReason::AssistantComplete.code() {
        "assistant_complete"@
    } else {
        "unspecified"@
    }
}

/// The name of the finish reason numbered `reason`.
pub fn finish_reason_name(reason: i32) -> (r: &'static str)
    ensures
        r@ == finish_reason_name_of(reason),
{
    match PbFinishReason::from_i32(reason) {
        Some(PbFinishReason::InProgress) => "in_progress",
        Some(PbFinishReason::AssistantComplete) => "assistant_complete",
        _ => "unspecified",
    }
}

/// The name of the serving status numbered `status`.
pub open spec fn serving_status_name_of(status: i32) -> Seq<char> {
    if status == PbServingStatus::Serving.code() {
        "serving"@
    } else if status == PbServingStatus::Degraded.code() {
        "degraded"@
    } else if status == PbServingStatus::NotServing.code() {
        "not_serving"@
    } else {
        "unspecified"@
    }
}

/// The name of the serving status numbered `status`.
pub fn serving_status_name(status: i32) -> (r: &'static str)
    ensures
        r@ == serving_status_name_of(status),
{
    match PbServingStatus::from_i32(status) {
        Some(PbServingStatus::Serving) => "serving",
        Some(PbServingStatus::Degraded) => "degraded",
        Some(PbServingStatus::NotServing) => "not_serving",
        _ => "unspecified",
    }
}

/// The name of the job status numbered `status`.
pub open spec fn admin_status_name_of(status: i32) -> Seq<char> {
    if status == PbAdminJobStatus::Pending.code() {
        "pending"@
    } else if status == PbAdminJobStatus::Running.code() {
        "running"@
    } else if status == PbAdminJobStatus::Succeeded.code() {
        "succeeded"@
    } else if status == PbAdminJobStatus::Failed.code() {
        "failed"@
    } else {
        "unspecified"@
    }
}

/// The name of the job status numbered `status`.
pub fn admin_status_name(status: i32) -> (r: &'static str)
    ensures
        r@ == admin_status_name_of(status),
{
    match PbAdminJobStatus::from_i32(status) {
        Some(PbAdminJobStatus::Pending) => "pending",
        Some(PbAdminJobStatus::Running) => "running",
        Some(PbAdminJobStatus::Succeeded) => "succeeded",
        Some(PbAdminJobStatus::Failed) => "failed",
        _ => "unspecified",
    }
}

/// The name of the job kind numbered `kind`.
pub open spec fn job_kind_name_of(kind: i32) -> Seq<char> {
    if kind == PbAdminJobKind::UpdateMemoryAfterTurn.code() {
        "update_memory_after_turn"@
    } else {
        "unspecified"@
    }
}

/// The name of the job kind numbered `kind`.
pub fn job_kind_name(kind: i32) -> (r: &'static str)
    ensures
        r@ == job_kind_name_of(kind),
{
    match PbAdminJobKind::from_i32(kind) {
        Some(PbAdminJobKind::UpdateMemoryAfterTurn) => "update_memory_after_turn",
        _ => "unspecified",
    }
}


/// The names printed for the wire numbers of the protocol: roles 1, 2, 3 are
/// system, user and assistant; finish reasons 1, 2 are in progress and
/// assistant complete; serving statuses 1, 2, 3 are serving, degraded and
/// not serving; job statuses 1 to 4 are pending, running, succeeded and
/// failed; job kind 1 updates memory after a turn; any other number is
/// unspecified.
pub proof fn wire_numbers_print_by_name(other: i32)
    requires
        other < 0 || other > 4,
    ensures
        role_name_of(1) == "system"@,
        role_name_of(2) == "user"@,
        role_name_of(3) == "assistant"@,
        role_name_of(0) == "unspecified"@,
        role_name_of(other) == "unspecified"@,
        finish_reason_name_of(1) == "in_progress"@,
        finish_reason_name_of(2) == "assistant_complete"@,
        finish_reason_name_of(other) == "unspecified"@,
        serving_status_name_of(1) == "serving"@,
        serving_status_name_of(2) == "degraded"@,
        serving_status_name_of(3) == "not_serving"@,
        serving_status_name_of(other) == "unspecified"@,
        admin_status_name_of(1) == "pending"@,
        admin_status_name_of(2) == "running"@,
        admin_status_name_of(3) == "succeeded"@,
        admin_status_name_of(4) == "failed"@,
        admin_status_name_of(other) == "unspecified"@,
        job_kind_name_of(1) == "update_memory_after_turn"@,
        job_kind_name_of(other) == "unspecified"@,
{
}

/// The text of `b`.
pub open spec fn bool_text(b: bool) -> Seq<char> {
    if b {
        "true"@
    } else {
        "false"@
    }
}

/// The text of `b`.
fn bool_to_text(b: bool) -> (r: &'static str)
    ensures
        r@ == bool_text(b),
{
    if b {
        "true"
    } else {
        "false"
    }
}

/// The line of a user: id, display name and creation time.
pub fn user_line(u: &pb::User) -> (r: String)
    ensures
        r@ == u.id@ + "\t"@ + u.display_name@ + "\tcreated_at="@ + u.created_at@,
{
    let mut r = u.id.clone();
    r.append("\t");
    r.append(u.display_name.as_str());
    r.append("\tcreated_at=");
    r.append(u.created_at.as_str());
    r
}

/// The line of a game: id, title, owner and creation time.
pub fn game_line(g: &pb::Game) -> (r: String)
    ensures
        r@ == g.id@ + "\t"@ + g.title@ + "\towner="@ + g.owner_user_id@ + "\tcreated_at="@
            + g.created_at@,
{
    let mut r = g.id.clone();
    r.append("\t");
    r.append(g.title.as_str());
    r.append("\towner=");
    r.append(g.owner_user_id.as_str());
    r.append("\tcreated_at=");
    r.append(g.created_at.as_str());
    r
}

/// The line of a session: id, title, game and creation time.
pub fn session_line(s: &pb::Session) -> (r: String)
    ensures
        r@ == s.id@ + "\t"@ + s.title@ + "\tgame="@ + s.game_id@ + "\tcreated_at="@
            + s.created_at@,
{
    let mut r = s.id.clone();
    r.append("\t");
    r.append(s.title.as_str());
    r.append("\tgame=");
    r.append(s.game_id.as_str());
    r.append("\tcreated_at=");
    r.append(s.created_at.as_str());
    r
}

/// The line that opens an interactive session.
pub fn play_banner(s: &pb::Session) -> (r: String)
    ensures
        r@ == "session="@ + s.id@ + " title="@ + s.title@ + " game="@ + s.game_id@,
{
    let mut r = "session=".to_owned();
    r.append(s.id.as_str());
    r.append(" title=");
    r.append(s.title.as_str());
    r.append(" game=");
    r.append(s.game_id.as_str());
    r
}

/// The line of a transcript message: its time, its role by name, its text.
pub fn message_line(m: &pb::Message) -> (r: String)
    ensures
        r@ == "["@ + m.created_at@ + "] "@ + role_name_of(m.role) + ": "@ + m.content@,
{
    let mut r = "[".to_owned();
    r.append(m.created_at.as_str());
    r.append("] ");
    r.append(role_name(m.role));
    r.append(": ");
    r.append(m.content.as_str());
    r
}

/// The line of a job: id, kind and status by name, and attempts out of the
/// maximum.
pub fn job_line(j: &pb::BackgroundJobDebug) -> (r: String)
    ensures
        r@ == j.id@ + "\t"@ + job_kind_name_of(j.kind) + "\tstatus="@ + admin_status_name_of(
            j.status,
        ) + "\tattempts="@ + int_text(j.attempts as int) + "/"@ + int_text(j.max_attempts as int),
{
    let mut r = j.id.clone();
    r.append("\t");
    r.append(job_kind_name(j.kind));
    r.append("\tstatus=");
    r.append(admin_status_name(j.status));
    r.append("\tattempts=");
    let attempts = i64_to_text(j.attempts as i64);
    r.append(attempts.as_str());
    r.append("/");
    let max = i64_to_text(j.max_attempts as i64);
    r.append(max.as_str());
    r
}

/// The line of a job in a job listing: the job's line, then when it may run
/// next and its last error.
pub fn job_listing_line(j: &pb::BackgroundJobDebug) -> (r: String)
    ensures
        r@ == j.id@ + "\t"@ + job_kind_name_of(j.kind) + "\tstatus="@ + admin_status_name_of(
            j.status,
        ) + "\tattempts="@ + int_text(j.attempts as int) + "/"@ + int_text(j.max_attempts as int)
            + "\trun_after="@ + j.run_after@ + "\t"@ + j.last_error@,
{
    let mut r = job_line(j);
    r.append("\trun_after=");
    r.append(j.run_after.as_str());
    r.append("\t");
    r.append(j.last_error.as_str());
    r
}

/// The line of a character: id, name, status and description.
pub fn character_line(c: &pb::Character) -> (r: String)
    ensures
        r@ == c.id@ + "\t"@ + c.name@ + "\tstatus="@ + c.status@ + "\t"@ + c.description@,
{
    let mut r = c.id.clone();
    r.append("\t");
    r.append(c.name.as_str());
    r.append("\tstatus=");
    r.append(c.status.as_str());
    r.append("\t");
    r.append(c.description.as_str());
    r
}

/// A single character shown on its own: the description below the line.
pub fn character_detail(c: &pb::Character) -> (r: String)
    ensures
        r@ == c.id@ + "\t"@ + c.name@ + "\tstatus="@ + c.status@ + "\n"@ + c.description@,
{
    let mut r = c.id.clone();
    r.append("\t");
    r.append(c.name.as_str());
    r.append("\tstatus=");
    r.append(c.status.as_str());
    r.append("\n");
    r.append(c.description.as_str());
    r
}

/// The line of an event: id, importance, time and summary.
pub fn event_line(e: &pb::Event) -> (r: String)
    ensures
        r@ == e.id@ + "\timportance="@ + int_text(e.importance as int) + "\t"@ + e.created_at@
            + "\t"@ + e.summary@,
{
    let mut r = e.id.clone();
    r.append("\timportance=");
    let importance = i64_to_text(e.importance as i64);
    r.append(importance.as_str());
    r.append("\t");
    r.append(e.created_at.as_str());
    r.append("\t");
    r.append(e.summary.as_str());
    r
}

/// The line of a location: id, name and description.
pub fn location_line(l: &pb::Location) -> (r: String)
    ensures
        r@ == l.id@ + "\t"@ + l.name@ + "\t"@ + l.description@,
{
    let mut r = l.id.clone();
    r.append("\t");
    r.append(l.name.as_str());
    r.append("\t");
    r.append(l.description.as_str());
    r
}

/// The first line of a context preview: the estimated total.
pub fn estimated_tokens_line(estimated_tokens: u32) -> (r: String)
    ensures
        r@ == "estimated_tokens="@ + nat_text(estimated_tokens as nat),
{
    let mut r = "estimated_tokens=".to_owned();
    let n = u64_to_text(estimated_tokens as u64);
    r.append(n.as_str());
    r
}

/// A message of a context preview: its role by name and its estimate, and
/// its text on the next line.
pub fn context_message_text(m: &pb::ContextMessage) -> (r: String)
    ensures
        r@ == role_name_of(m.role) + " ["@ + nat_text(m.estimated_tokens as nat) + " tokens]\n"@
            + m.content@,
{
    let mut r = role_name(m.role).to_owned();
    r.append(" [");
    let n = u64_to_text(m.estimated_tokens as u64);
    r.append(n.as_str());
    r.append(" tokens]\n");
    r.append(m.content.as_str());
    r
}

/// The line of a health check: the service, its status by name, whether the
/// database answered, the job counts and the time of the check.
pub fn health_line(h: &pb::HealthCheckResponse) -> (r: String)
    ensures
        r@ == h.service@ + " status="@ + serving_status_name_of(h.status) + " database_ok="@
            + bool_text(h.database_ok) + " pending_jobs="@ + nat_text(h.pending_jobs as nat)
            + " failed_jobs="@ + nat_text(h.failed_jobs as nat) + " checked_at="@ + h.checked_at@,
{
    let mut r = h.service.clone();
    r.append(" status=");
    r.append(serving_status_name(h.status));
    r.append(" database_ok=");
    r.append(bool_to_text(h.database_ok));
    r.append(" pending_jobs=");
    let pending = u64_to_text(h.pending_jobs as u64);
    r.append(pending.as_str());
    r.append(" failed_jobs=");
    let failed = u64_to_text(h.failed_jobs as u64);
    r.append(failed.as_str());
    r.append(" checked_at=");
    r.append(h.checked_at.as_str());
    r
}


/// The line of the server's counters, each as `name=value`, then the time
/// they were collected.
pub fn metrics_line(m: &pb::MetricsSnapshot) -> (r: String)
    ensures
        r@ == "grpc_requests="@ + nat_text(m.grpc_requests as nat) + " grpc_failures="@ + nat_text(
            m.grpc_failures as nat,
        ) + " streamed_messages="@ + nat_text(m.streamed_messages as nat) + " jobs_processed="@
            + nat_text(m.jobs_processed as nat) + " jobs_succeeded="@ + nat_text(
            m.jobs_succeeded as nat,
        ) + " jobs_retried="@ + nat_text(m.jobs_retried as nat) + " jobs_failed="@ + nat_text(
            m.jobs_failed as nat,
        ) + " health_checks="@ + nat_text(m.health_checks as nat) + " collected_at="@
            + m.collected_at@,
{
    let mut r = "grpc_requests=".to_owned();
    let t = u64_to_text(m.grpc_requests);
    r.append(t.as_str());
    r.append(" grpc_failures=");
    let t = u64_to_text(m.grpc_failures);
    r.append(t.as_str());
    r.append(" streamed_messages=");
    let t = u64_to_text(m.streamed_messages);
    r.append(t.as_str());
    r.append(" jobs_processed=");
    let t = u64_to_text(m.jobs_processed);
    r.append(t.as_str());
    r.append(" jobs_succeeded=");
    let t = u64_to_text(m.jobs_succeeded);
    r.append(t.as_str());
    r.append(" jobs_retried=");
    let t = u64_to_text(m.jobs_retried);
    r.append(t.as_str());
    r.append(" jobs_failed=");
    let t = u64_to_text(m.jobs_failed);
    r.append(t.as_str());
    r.append(" health_checks=");
    let t = u64_to_text(m.health_checks);
    r.append(t.as_str());
    r.append(" collected_at=");
    r.append(m.collected_at.as_str());
    r
}

} // verus!
