//! The decisions of the gRPC services: request checks, ownership, paging,
//! health, error codes, and the conversion of records into API messages.

use vstd::prelude::*;

use crate::domain::{
    BackgroundJob, Character, Event, Game, HarpeError, JobKind, JobStatus, Location, Message,
    MessageRole, NewMessage, Session, StorySummary, User,
};
use crate::pb::{
    self, PbAdminJobKind, PbAdminJobStatus, PbFinishReason, PbMessageRole, PbServingStatus,
};
use crate::ids::{is_uuid_v7_text, new_id};
use crate::store::required_message;
use crate::text::{
    concat_str, i64_to_text, int_text, is_blank, is_blank_str, nat_text, str_eq, trim, trim_str,
    u64_to_text,
};
use crate::time::{rfc3339_text, to_rfc3339, Timestamp};

verus! {

/// The gRPC status codes the services answer with.
#[derive(Clone, Copy, Debug, PartialEq, Eq, Structural)]
pub enum StatusCode {
    InvalidArgument,
    NotFound,
    PermissionDenied,
    Internal,
    Unavailable,
}

/// A gRPC error answer: a code and a message.
#[derive(Clone, Debug, PartialEq, Eq)]
pub struct Status {
    pub code: StatusCode,
    pub message: String,
}

/// The status code that answers each kind of failure.
pub open spec fn status_code_of(error: HarpeError) -> StatusCode {
    match error {
        HarpeError::Validation(_) => StatusCode::InvalidArgument,
        HarpeError::NotFound(_) => StatusCode::NotFound,
        HarpeError::PermissionDenied(_) => StatusCode::PermissionDenied,
        HarpeError::Store(_) => StatusCode::Internal,
        HarpeError::Llm(_) => StatusCode::Unavailable,
    }
}

/// Invalid input is answered as an invalid argument, a missing record as not
/// found, a refused owner as permission denied, a store failure as internal
/// and a model failure as unavailable.
pub proof fn failures_answer_with_their_codes(m: String)
    ensures
        status_code_of(HarpeError::Validation(m)) == StatusCode::InvalidArgument,
        status_code_of(HarpeError::NotFound(m)) == StatusCode::NotFound,
        status_code_of(HarpeError::PermissionDenied(m)) == StatusCode::PermissionDenied,
        status_code_of(HarpeError::Store(m)) == StatusCode::Internal,
        status_code_of(HarpeError::Llm(m)) == StatusCode::Unavailable,
        error_message(HarpeError::Validation(m)) == m,
        error_message(HarpeError::NotFound(m)) == m,
        error_message(HarpeError::PermissionDenied(m)) == m,
        error_message(HarpeError::Store(m)) == m,
        error_message(HarpeError::Llm(m)) == m,
{
}

/// The message carried by a failure.
pub open spec fn error_message(error: HarpeError) -> String {
    match error {
        HarpeError::Validation(m) => m,
        HarpeError::NotFound(m) => m,
        HarpeError::PermissionDenied(m) => m,
        HarpeError::Store(m) => m,
        HarpeError::Llm(m) => m,
    }
}

/// The gRPC answer to a failure: invalid input, not found, permission
/// denied, internal for the store, unavailable for the model; the message is kept.
pub fn status_from_error(error: HarpeError) -> (s: Status)
    ensures
        s.code == status_code_of(error),
        s.message == error_message(error),
{
    match error {
        HarpeError::Validation(message) => Status { code: StatusCode::InvalidArgument, message },
        HarpeError::NotFound(message) => Status { code: StatusCode::NotFound, message },
        HarpeError::PermissionDenied(message) => Status { code: StatusCode::PermissionDenied, message },
        HarpeError::Store(message) => Status { code: StatusCode::Internal, message },
        HarpeError::Llm(message) => Status { code: StatusCode::Unavailable, message },
    }
}

/// The wire role of a message role.
pub open spec fn pb_role(role: MessageRole) -> PbMessageRole {
    match role {
        MessageRole::System => PbMessageRole::System,
        MessageRole::User => PbMessageRole::User,
        MessageRole::Assistant => PbMessageRole::Assistant,
    }
}

/// The wire number of a message role.
pub fn role_to_pb(role: MessageRole) -> (r: i32)
    ensures
        r == pb_role(role).code(),
{
    match role {
        MessageRole::System => PbMessageRole::System.as_i32(),
        MessageRole::User => PbMessageRole::User.as_i32(),
        MessageRole::Assistant => PbMessageRole::Assistant.as_i32(),
    }
}

/// The wire kind of a job kind.
pub open spec fn pb_job_kind(kind: JobKind) -> PbAdminJobKind {
    match kind {
        JobKind::UpdateMemoryAfterTurn => PbAdminJobKind::UpdateMemoryAfterTurn,
    }
}

/// The wire number of a job kind.
pub fn admin_job_kind_to_pb(kind: JobKind) -> (r: i32)
    ensures
        r == pb_job_kind(kind).code(),
{
    match kind {
        JobKind::UpdateMemoryAfterTurn => PbAdminJobKind::UpdateMemoryAfterTurn.as_i32(),
    }
}

/// The wire status of a job status.
pub open spec fn pb_job_status(status: JobStatus) -> PbAdminJobStatus {
    match status {
        JobStatus::Pending => PbAdminJobStatus::Pending,
        JobStatus::Running => PbAdminJobStatus::Running,
        JobStatus::Succeeded => PbAdminJobStatus::Succeeded,
        JobStatus::Failed => PbAdminJobStatus::Failed,
    }
}

/// The wire number of a job status.
pub fn admin_job_status_to_pb(status: JobStatus) -> (r: i32)
    ensures
        r == pb_job_status(status).code(),
{
    match status {
        JobStatus::Pending => PbAdminJobStatus::Pending.as_i32(),
        JobStatus::Running => PbAdminJobStatus::Running.as_i32(),
        JobStatus::Succeeded => PbAdminJobStatus::Succeeded.as_i32(),
        JobStatus::Failed => PbAdminJobStatus::Failed.as_i32(),
    }
}

/// The message of the error for a status filter that names no status.
pub open spec fn unknown_filter_message(status: i32) -> Seq<char> {
    "unknown admin job status "@ + int_text(status as int)
}

/// The job status a listing is filtered by: none for the unspecified wire
/// status, the matching status for the others, and an input error for a
/// number that names no status.
pub fn admin_job_status_filter(status: i32) -> (r: Result<Option<JobStatus>, HarpeError>)
    ensures
        r matches Ok(None) <==> status == PbAdminJobStatus::Unspecified.code(),
        r matches Ok(Some(s)) ==> pb_job_status(s).code() == status,
        r is Err <==> (forall|x: PbAdminJobStatus| x.code() != status),
        r matches Err(e) ==> e matches HarpeError::Validation(m) && m@ == unknown_filter_message(
            status,
        ),
{
    match PbAdminJobStatus::from_i32(status) {
        Some(PbAdminJobStatus::Unspecified) => Ok(None),
        Some(PbAdminJobStatus::Pending) => Ok(Some(JobStatus::Pending)),
        Some(PbAdminJobStatus::Running) => Ok(Some(JobStatus::Running)),
        Some(PbAdminJobStatus::Succeeded) => Ok(Some(JobStatus::Succeeded)),
        Some(PbAdminJobStatus::Failed) => Ok(Some(JobStatus::Failed)),
        None => {
            let text = i64_to_text(status as i64);
            Err(HarpeError::Validation(concat_str("unknown admin job status ", text.as_str())))
        },
    }
}

/// Filtering by the wire number of a status selects exactly that status.
pub proof fn job_status_filter_inverts_wire_status(status: JobStatus)
    ensures
        pb_job_status(status).code() != PbAdminJobStatus::Unspecified.code(),
        forall|s: JobStatus| pb_job_status(s).code() == pb_job_status(status).code() ==> s == status,
{
}

/// Checks that a job id was given.
pub fn validate_job_id(job_id: &str) -> (r: Result<(), HarpeError>)
    ensures
        r is Ok <==> !is_blank(job_id@),
        r matches Err(e) ==> e matches HarpeError::Validation(m) && m@ == "job id is required"@,
{
    if is_blank_str(job_id) {
        return Err(HarpeError::Validation("job id is required".to_owned()));
    }
    Ok(())
}

/// `value`, or `u32::MAX` when it does not fit.
pub open spec fn spec_saturating_u32(value: nat) -> u32 {
    if value <= u32::MAX {
        value as u32
    } else {
        u32::MAX
    }
}

/// `value` as a `u32`, or `u32::MAX` when it does not fit.
pub fn saturating_u32(value: usize) -> (r: u32)
    ensures
        r == spec_saturating_u32(value as nat),
{
    if value <= u32::MAX as usize {
        value as u32
    } else {
        u32::MAX
    }
}

/// A wire limit as a row count.
pub fn limit_from_u32(limit: u32) -> (r: usize)
    ensures
        r == limit,
{
    limit as usize
}

/// The number of rows a listing asks for: the page size when a page with a
/// positive size is given, the legacy limit otherwise.
pub open spec fn spec_request_limit(legacy_limit: u32, page: Option<pb::PageRequest>) -> nat {
    match page {
        Some(p) => if p.page_size > 0 {
            p.page_size as nat
        } else {
            legacy_limit as nat
        },
        None => legacy_limit as nat,
    }
}

/// A listing asks for the page size of a page that has one, and for the
/// plain limit when no page is given or its size is zero; counts that do
/// not fit the wire are sent as `u32::MAX`, others as they are.
pub proof fn listings_prefer_the_page_size(legacy_limit: u32, p: pb::PageRequest, value: nat)
    ensures
        p.page_size > 0 ==> spec_request_limit(legacy_limit, Some(p)) == p.page_size,
        p.page_size == 0 ==> spec_request_limit(legacy_limit, Some(p)) == legacy_limit,
        spec_request_limit(legacy_limit, None) == legacy_limit,
        value <= u32::MAX ==> spec_saturating_u32(value) == value,
        value > u32::MAX ==> spec_saturating_u32(value) == u32::MAX,
{
}

/// The number of rows a listing asks for.
pub fn request_limit(legacy_limit: u32, page: Option<&pb::PageRequest>) -> (r: usize)
    ensures
        r == spec_request_limit(
            legacy_limit,
            match page {
                Some(p) => Some(*p),
                None => None,
            },
        ),
{
    let page_size = match page {
        Some(p) => if p.page_size > 0 {
            p.page_size
        } else {
            legacy_limit
        },
        None => legacy_limit,
    };
    limit_from_u32(page_size)
}

/// Keeps at most `limit` items when a positive limit is given.
pub fn truncate_to_limit<T>(items: &mut Vec<T>, limit: usize)
    ensures
        limit > 0 && limit < old(items)@.len() ==> final(items)@ == old(items)@.take(limit as int),
        limit == 0 || limit >= old(items)@.len() ==> final(items)@ == old(items)@,
{
    if limit > 0 {
        items.truncate(limit);
    }
}

/// The page description of a listing that returned `returned_count` rows;
/// there is never a next page token.
pub fn page_info(returned_count: usize) -> (r: pb::PageInfo)
    ensures
        r.next_page_token@ == Seq::<char>::empty(),
        r.returned_count == spec_saturating_u32(returned_count as nat),
{
    pb::PageInfo { next_page_token: String::new(), returned_count: saturating_u32(returned_count) }
}

/// The model a turn asks for: the trimmed name, or none when it is blank.
pub fn optional_model_override(model: &str) -> (r: Option<String>)
    ensures
        r is None <==> is_blank(model@),
        r matches Some(m) ==> m@ == trim(model@),
{
    let trimmed = trim_str(model);
    if trimmed.as_str().is_empty() {
        None
    } else {
        Some(trimmed)
    }
}

/// The service a health check reports on: the trimmed name, or `harpe.v1`
/// when it is blank.
pub fn normalize_health_service(service: &str) -> (r: String)
    ensures
        is_blank(service@) ==> r@ == "harpe.v1"@,
        !is_blank(service@) ==> r@ == trim(service@),
{
    if is_blank_str(service) {
        "harpe.v1".to_owned()
    } else {
        trim_str(service)
    }
}

/// The serving status for the store's answer: not serving when it failed,
/// degraded when any job has failed, serving otherwise.
pub open spec fn spec_serving_status(outcome: Result<(usize, usize), String>) -> PbServingStatus {
    match outcome {
        Ok((_, failed)) => if failed > 0 {
            PbServingStatus::Degraded
        } else {
            PbServingStatus::Serving
        },
        Err(_) => PbServingStatus::NotServing,
    }
}

/// A health check is serving (wire number 1) when the store answered and no
/// job has failed, degraded (2) when some job has failed, and not serving
/// (3) when the store did not answer.
pub proof fn health_follows_the_store_and_the_failed_jobs(pending: usize, failed: usize, error: String)
    ensures
        spec_serving_status(Ok((pending, 0))).code() == 1,
        failed > 0 ==> spec_serving_status(Ok((pending, failed))).code() == 2,
        spec_serving_status(Err(error)).code() == 3,
{
}

/// The health answer for the store's answer: the counts of pending and
/// failed jobs, or the store's error text appended to the check time.
pub fn health_response(
    outcome: Result<(usize, usize), String>,
    service: String,
    version: String,
    checked_at: String,
) -> (r: pb::HealthCheckResponse)
    ensures
        r.status == spec_serving_status(outcome).code(),
        r.service == service,
        r.version == version,
        r.database_ok == (outcome is Ok),
        outcome matches Ok((p, f)) ==> r.pending_jobs == spec_saturating_u32(p as nat)
            && r.failed_jobs == spec_saturating_u32(f as nat) && r.checked_at == checked_at,
        outcome matches Err(e) ==> r.pending_jobs == 0 && r.failed_jobs == 0 && r.checked_at@
            == checked_at@ + "; error="@ + e@,
{
    match outcome {
        Ok((pending_jobs, failed_jobs)) => {
            let status = if failed_jobs > 0 {
                PbServingStatus::Degraded
            } else {
                PbServingStatus::Serving
            };
            pb::HealthCheckResponse {
                status: status.as_i32(),
                service,
                version,
                database_ok: true,
                pending_jobs: saturating_u32(pending_jobs),
                failed_jobs: saturating_u32(failed_jobs),
                checked_at,
            }
        },
        Err(error) => {
            let mut text = checked_at;
            text.append("; error=");
            text.append(error.as_str());
            pb::HealthCheckResponse {
                status: PbServingStatus::NotServing.as_i32(),
                service,
                version,
                database_ok: false,
                pending_jobs: 0,
                failed_jobs: 0,
                checked_at: text,
            }
        },
    }
}

/// The `x-user-id` header of a request as received: text, or bytes that are
/// not visible ASCII.
#[derive(Clone, Debug, PartialEq, Eq)]
pub enum HeaderValue {
    Text(String),
    NotText,
}

/// The user named by the `x-user-id` header: none when the header is absent
/// or blank, the trimmed text otherwise; a header that is not text is refused.
pub fn optional_user_id(header: Option<HeaderValue>) -> (r: Result<Option<String>, HarpeError>)
    ensures
        header is None ==> r == Ok::<Option<String>, HarpeError>(None),
        header == Some(HeaderValue::NotText) ==> (r matches Err(HarpeError::PermissionDenied(m))
            && m@ == "x-user-id metadata is invalid"@),
        header matches Some(HeaderValue::Text(t)) ==> (r matches Ok(u) && (u is None <==> is_blank(
            t@,
        )) && (u matches Some(v) ==> v@ == trim(t@))),
{
    match header {
        None => Ok(None),
        Some(HeaderValue::NotText) => Err(
            HarpeError::PermissionDenied("x-user-id metadata is invalid".to_owned()),
        ),
        Some(HeaderValue::Text(t)) => Ok(optional_model_override(t.as_str())),
    }
}

/// The user named by the `x-user-id` header, which the request must carry.
pub fn require_user_id(header: Option<HeaderValue>) -> (r: Result<String, HarpeError>)
    ensures
        header == Some(HeaderValue::NotText) ==> (r matches Err(HarpeError::PermissionDenied(m))
            && m@ == "x-user-id metadata is invalid"@),
        header is None ==> (r matches Err(HarpeError::PermissionDenied(m)) && m@
            == "x-user-id metadata is required"@),
        header matches Some(HeaderValue::Text(t)) ==> (is_blank(t@) ==> (r matches Err(
            HarpeError::PermissionDenied(m),
        ) && m@ == "x-user-id metadata is required"@)) && (!is_blank(t@) ==> (r matches Ok(u)
            && u@ == trim(t@))),
{
    match optional_user_id(header) {
        Err(e) => Err(e),
        Ok(Some(u)) => Ok(u),
        Ok(None) => Err(HarpeError::PermissionDenied("x-user-id metadata is required".to_owned())),
    }
}

/// The owner of a new game: the user of the header, which must agree with
/// the owner the request names when it names one; the named owner when the
/// header is absent.
pub open spec fn spec_resolve_owner(metadata_user_id: Option<Seq<char>>, request_owner: Seq<char>) -> Result<Seq<char>, Seq<char>> {
    let owner = trim(request_owner);
    match metadata_user_id {
        Some(u) => if owner.len() == 0 || u == owner {
            Ok(u)
        } else {
            Err("owner_user_id must match x-user-id metadata"@)
        },
        None => if owner.len() == 0 {
            Err("owner_user_id or x-user-id metadata is required"@)
        } else {
            Ok(owner)
        },
    }
}

/// The owner of a new game, from the header and the request; disagreement
/// and absence are refused.
pub fn resolve_owner_user_id(metadata_user_id: Option<&str>, request_owner_user_id: &str) -> (r:
    Result<String, HarpeError>)
    ensures
        r matches Ok(u) ==> spec_resolve_owner(
            match metadata_user_id {
                Some(m) => Some(m@),
                None => None,
            },
            request_owner_user_id@,
        ) == Ok::<Seq<char>, Seq<char>>(u@),
        r matches Err(e) ==> e matches HarpeError::PermissionDenied(m) && spec_resolve_owner(
            match metadata_user_id {
                Some(m) => Some(m@),
                None => None,
            },
            request_owner_user_id@,
        ) == Err::<Seq<char>, Seq<char>>(m@),
{
    let owner = trim_str(request_owner_user_id);
    let owner_empty = owner.as_str().is_empty();
    match metadata_user_id {
        Some(user_id) => {
            if owner_empty || str_eq(user_id, owner.as_str()) {
                Ok(user_id.to_owned())
            } else {
                Err(
                    HarpeError::PermissionDenied(
                        "owner_user_id must match x-user-id metadata".to_owned(),
                    ),
                )
            }
        },
        None => {
            if owner_empty {
                Err(
                    HarpeError::PermissionDenied(
                        "owner_user_id or x-user-id metadata is required".to_owned(),
                    ),
                )
            } else {
                Ok(owner)
            }
        },
    }
}

/// Checks that `user_id` owns `game`, which was looked up as `game_id`.
pub fn check_game_owner(game: &Game, game_id: &str, user_id: &str) -> (r: Result<(), HarpeError>)
    ensures
        r is Ok <==> game.owner_user_id@ == user_id@,
        r matches Err(e) ==> e matches HarpeError::PermissionDenied(m) && m@ == "game "@
            + game_id@,
{
    if str_eq(game.owner_user_id.as_str(), user_id) {
        Ok(())
    } else {
        Err(HarpeError::PermissionDenied(concat_str("game ", game_id)))
    }
}

/// Checks that a turn or a preview carries some content.
pub fn validate_message_content(content: &str) -> (r: Result<(), HarpeError>)
    ensures
        r is Ok <==> !is_blank(content@),
        r matches Err(e) ==> e matches HarpeError::Validation(m) && m@
            == "message content is required"@,
{
    if is_blank_str(content) {
        return Err(HarpeError::Validation("message content is required".to_owned()));
    }
    Ok(())
}


/// The API message of a user.
pub fn user_to_pb(user: User) -> (r: pb::User)
    ensures
        r.id == user.id,
        r.display_name == user.display_name,
        r.created_at@ == rfc3339_text(user.created_at.secs, user.created_at.nanos),
{
    pb::User {
        id: user.id,
        display_name: user.display_name,
        created_at: to_rfc3339(user.created_at),
    }
}

/// The API message of a game.
pub fn game_to_pb(game: Game) -> (r: pb::Game)
    ensures
        r.id == game.id,
        r.title == game.title,
        r.system_prompt == game.system_prompt,
        r.created_at@ == rfc3339_text(game.created_at.secs, game.created_at.nanos),
        r.owner_user_id == game.owner_user_id,
{
    pb::Game {
        id: game.id,
        title: game.title,
        system_prompt: game.system_prompt,
        created_at: to_rfc3339(game.created_at),
        owner_user_id: game.owner_user_id,
    }
}

/// The API message of a session.
pub fn session_to_pb(session: Session) -> (r: pb::Session)
    ensures
        r.id == session.id,
        r.game_id == session.game_id,
        r.title == session.title,
        r.created_at@ == rfc3339_text(session.created_at.secs, session.created_at.nanos),
{
    pb::Session {
        id: session.id,
        game_id: session.game_id,
        title: session.title,
        created_at: to_rfc3339(session.created_at),
    }
}

/// The API message of a transcript message.
pub fn message_to_pb(message: Message) -> (r: pb::Message)
    ensures
        r.id == message.id,
        r.session_id == message.session_id,
        r.role == pb_role(message.role).code(),
        r.content == message.content,
        r.created_at@ == rfc3339_text(message.created_at.secs, message.created_at.nanos),
{
    pb::Message {
        id: message.id,
        session_id: message.session_id,
        role: role_to_pb(message.role),
        content: message.content,
        created_at: to_rfc3339(message.created_at),
    }
}

/// The API message of a story summary.
pub fn summary_to_pb(summary: StorySummary) -> (r: pb::StorySummary)
    ensures
        r.session_id == summary.session_id,
        r.content == summary.content,
        r.updated_at@ == rfc3339_text(summary.updated_at.secs, summary.updated_at.nanos),
{
    pb::StorySummary {
        session_id: summary.session_id,
        content: summary.content,
        updated_at: to_rfc3339(summary.updated_at),
    }
}

/// The API message of a character.
pub fn character_to_pb(character: Character) -> (r: pb::Character)
    ensures
        r.id == character.id,
        r.game_id == character.game_id,
        r.name == character.name,
        r.description == character.description,
        r.status == character.status,
        r.updated_at@ == rfc3339_text(character.updated_at.secs, character.updated_at.nanos),
{
    pb::Character {
        id: character.id,
        game_id: character.game_id,
        name: character.name,
        description: character.description,
        status: character.status,
        updated_at: to_rfc3339(character.updated_at),
    }
}

/// The API message of an event.
pub fn event_to_pb(event: Event) -> (r: pb::Event)
    ensures
        r.id == event.id,
        r.session_id == event.session_id,
        r.summary == event.summary,
        r.importance == event.importance,
        r.created_at@ == rfc3339_text(event.created_at.secs, event.created_at.nanos),
{
    pb::Event {
        id: event.id,
        session_id: event.session_id,
        summary: event.summary,
        importance: event.importance,
        created_at: to_rfc3339(event.created_at),
    }
}

/// The API message of a location.
pub fn location_to_pb(location: Location) -> (r: pb::Location)
    ensures
        r.id == location.id,
        r.game_id == location.game_id,
        r.name == location.name,
        r.description == location.description,
        r.updated_at@ == rfc3339_text(location.updated_at.secs, location.updated_at.nanos),
{
    pb::Location {
        id: location.id,
        game_id: location.game_id,
        name: location.name,
        description: location.description,
        updated_at: to_rfc3339(location.updated_at),
    }
}

/// The administrative view of a background job; a missing error is empty.
pub fn background_job_to_pb(job: BackgroundJob) -> (r: pb::BackgroundJobDebug)
    ensures
        r.id == job.id,
        r.kind == PbAdminJobKind::UpdateMemoryAfterTurn.code(),
        r.status == pb_job_status(job.status).code(),
        r.payload_json == job.payload_json,
        r.attempts == job.attempts,
        r.max_attempts == job.max_attempts,
        job.last_error matches Some(e) ==> r.last_error == e,
        job.last_error is None ==> r.last_error@ == Seq::<char>::empty(),
        r.run_after@ == rfc3339_text(job.run_after.secs, job.run_after.nanos),
        r.created_at@ == rfc3339_text(job.created_at.secs, job.created_at.nanos),
        r.updated_at@ == rfc3339_text(job.updated_at.secs, job.updated_at.nanos),
{
    pb::BackgroundJobDebug {
        id: job.id,
        kind: admin_job_kind_to_pb(job.kind),
        status: admin_job_status_to_pb(job.status),
        payload_json: job.payload_json,
        attempts: job.attempts,
        max_attempts: job.max_attempts,
        last_error: match job.last_error {
            Some(e) => e,
            None => String::new(),
        },
        run_after: to_rfc3339(job.run_after),
        created_at: to_rfc3339(job.created_at),
        updated_at: to_rfc3339(job.updated_at),
    }
}

/// One bucket of the request latency histogram: the requests that took at
/// most `upper_bound_ms` milliseconds, or all of them when there is no bound.
#[derive(Clone, Copy, Debug, PartialEq, Eq, Structural)]
pub struct LatencyBucket {
    pub upper_bound_ms: Option<u64>,
    pub count: u64,
}

impl LatencyBucket {
    /// The label of the bucket's bound: its milliseconds, or `+Inf`.
    pub open spec fn spec_le_label(self) -> Seq<char> {
        match self.upper_bound_ms {
            Some(ms) => nat_text(ms as nat),
            None => "+Inf"@,
        }
    }

    /// The label of the bucket's bound.
    pub fn le_label(&self) -> (r: String)
        ensures
            r@ == self.spec_le_label(),
    {
        match self.upper_bound_ms {
            Some(ms) => u64_to_text(ms),
            None => "+Inf".to_owned(),
        }
    }
}

/// The server's counters at one instant.
#[derive(Clone, Debug, PartialEq, Eq)]
pub struct MetricsSnapshot {
    pub grpc_requests: u64,
    pub grpc_failures: u64,
    pub streamed_messages: u64,
    pub jobs_processed: u64,
    pub jobs_succeeded: u64,
    pub jobs_retried: u64,
    pub jobs_failed: u64,
    pub health_checks: u64,
    pub grpc_latency_count: u64,
    pub grpc_latency_sum_ms: u64,
    pub grpc_latency_buckets: Vec<LatencyBucket>,
    pub collected_at: Timestamp,
}

/// The API message of a metrics snapshot: every counter kept, every bucket
/// labelled.
pub fn metrics_to_pb(snapshot: MetricsSnapshot) -> (r: pb::MetricsSnapshot)
    ensures
        r.grpc_requests == snapshot.grpc_requests,
        r.grpc_failures == snapshot.grpc_failures,
        r.streamed_messages == snapshot.streamed_messages,
        r.jobs_processed == snapshot.jobs_processed,
        r.jobs_succeeded == snapshot.jobs_succeeded,
        r.jobs_retried == snapshot.jobs_retried,
        r.jobs_failed == snapshot.jobs_failed,
        r.health_checks == snapshot.health_checks,
        r.grpc_latency_count == snapshot.grpc_latency_count,
        r.grpc_latency_sum_ms == snapshot.grpc_latency_sum_ms,
        r.grpc_latency_buckets@.len() == snapshot.grpc_latency_buckets@.len(),
        forall|i: int|
            0 <= i < r.grpc_latency_buckets@.len() ==> #[trigger] r.grpc_latency_buckets@[i].le@
                == snapshot.grpc_latency_buckets@[i].spec_le_label()
                && r.grpc_latency_buckets@[i].count == snapshot.grpc_latency_buckets@[i].count,
        r.collected_at@ == rfc3339_text(snapshot.collected_at.secs, snapshot.collected_at.nanos),
{
    let mut buckets: Vec<pb::HistogramBucket> = Vec::new();
    let mut i: usize = 0;
    while i < snapshot.grpc_latency_buckets.len()
        invariant
            i <= snapshot.grpc_latency_buckets@.len(),
            buckets@.len() == i,
            forall|k: int|
                0 <= k < i ==> #[trigger] buckets@[k].le@
                    == snapshot.grpc_latency_buckets@[k].spec_le_label() && buckets@[k].count
                    == snapshot.grpc_latency_buckets@[k].count,
        decreases snapshot.grpc_latency_buckets.len() - i,
    {
        let b = snapshot.grpc_latency_buckets[i];
        buckets.push(pb::HistogramBucket { le: b.le_label(), count: b.count });
        i = i + 1;
    }
    pb::MetricsSnapshot {
        grpc_requests: snapshot.grpc_requests,
        grpc_failures: snapshot.grpc_failures,
        streamed_messages: snapshot.streamed_messages,
        jobs_processed: snapshot.jobs_processed,
        jobs_succeeded: snapshot.jobs_succeeded,
        jobs_retried: snapshot.jobs_retried,
        jobs_failed: snapshot.jobs_failed,
        health_checks: snapshot.health_checks,
        grpc_latency_count: snapshot.grpc_latency_count,
        grpc_latency_sum_ms: snapshot.grpc_latency_sum_ms,
        grpc_latency_buckets: buckets,
        collected_at: to_rfc3339(snapshot.collected_at),
    }
}

/// A message of the model context with the token count its estimator gave.
#[derive(Clone, Debug, PartialEq, Eq)]
pub struct EstimatedMessage {
    pub role: MessageRole,
    pub content: String,
    pub estimated_tokens: usize,
}

/// The running total of `counts`, each addition saturating at `usize::MAX`.
pub open spec fn saturating_total(counts: Seq<usize>) -> nat
    decreases counts.len(),
{
    if counts.len() == 0 {
        0
    } else {
        let t: nat = saturating_total(counts.drop_last()) + (counts.last() as nat);
        if t > usize::MAX {
            usize::MAX as nat
        } else {
            t
        }
    }
}

/// The estimates of `messages`, in order.
pub open spec fn estimates_of(messages: Seq<EstimatedMessage>) -> Seq<usize> {
    messages.map_values(|m: EstimatedMessage| m.estimated_tokens)
}

/// The context preview: each message with its role, content and estimate,
/// and the saturating total of the estimates.
pub fn preview_context_to_pb(messages: Vec<EstimatedMessage>) -> (r: pb::PreviewContextResponse)
    ensures
        r.messages@.len() == messages@.len(),
        forall|i: int|
            0 <= i < messages@.len() ==> (#[trigger] r.messages@[i]).role == pb_role(
                messages@[i].role,
            ).code() && r.messages@[i].content == messages@[i].content
                && r.messages@[i].estimated_tokens == spec_saturating_u32(
                messages@[i].estimated_tokens as nat,
            ),
        r.estimated_tokens == spec_saturating_u32(saturating_total(estimates_of(messages@))),
{
    let mut total: usize = 0;
    let mut out: Vec<pb::ContextMessage> = Vec::new();
    let mut i: usize = 0;
    while i < messages.len()
        invariant
            i <= messages@.len(),
            out@.len() == i,
            total == saturating_total(estimates_of(messages@).take(i as int)),
            forall|k: int|
                0 <= k < i ==> (#[trigger] out@[k]).role == pb_role(messages@[k].role).code()
                    && out@[k].content == messages@[k].content && out@[k].estimated_tokens
                    == spec_saturating_u32(messages@[k].estimated_tokens as nat),
        decreases messages.len() - i,
    {
        let m = &messages[i];
        let estimated = m.estimated_tokens;
        assert(estimates_of(messages@).take(i + 1).drop_last() =~= estimates_of(messages@).take(
            i as int,
        ));
        total = if total > usize::MAX - estimated {
            usize::MAX
        } else {
            total + estimated
        };
        out.push(
            pb::ContextMessage {
                role: role_to_pb(m.role),
                content: m.content.clone(),
                estimated_tokens: saturating_u32(estimated),
            },
        );
        i = i + 1;
    }
    assert(estimates_of(messages@).take(messages@.len() as int) =~= estimates_of(messages@));
    pb::PreviewContextResponse { messages: out, estimated_tokens: saturating_u32(total) }
}


/// A saturating total never goes past `usize::MAX`.
proof fn saturating_total_bounded(counts: Seq<usize>)
    ensures
        saturating_total(counts) <= usize::MAX,
    decreases counts.len(),
{
    if counts.len() > 0 {
        saturating_total_bounded(counts.drop_last());
    }
}

/// A saturating total is at least each of its counts.
proof fn saturating_total_covers(counts: Seq<usize>, i: int)
    requires
        0 <= i < counts.len(),
    ensures
        counts[i] <= saturating_total(counts),
    decreases counts.len(),
{
    let rest = counts.drop_last();
    saturating_total_bounded(rest);
    if i < counts.len() - 1 {
        saturating_total_covers(rest, i);
        assert(rest[i] == counts[i]);
    } else {
        assert(counts.last() == counts[i]);
    }
}

/// In a context preview the total is at least the estimate shown for each
/// message.
pub proof fn preview_total_covers_each_message(messages: Seq<EstimatedMessage>, i: int)
    requires
        0 <= i < messages.len(),
    ensures
        spec_saturating_u32(messages[i].estimated_tokens as nat) <= spec_saturating_u32(
            saturating_total(estimates_of(messages)),
        ),
{
    saturating_total_covers(estimates_of(messages), i);
    assert(estimates_of(messages)[i] == messages[i].estimated_tokens);
}

/// All of `deltas` joined in order.
pub open spec fn joined(deltas: Seq<Seq<char>>) -> Seq<char>
    decreases deltas.len(),
{
    if deltas.len() == 0 {
        Seq::empty()
    } else {
        joined(deltas.drop_last()) + deltas.last()
    }
}

/// `n`, or `u32::MAX` when it is larger.
pub open spec fn capped_u32(n: nat) -> u32 {
    if n <= u32::MAX {
        n as u32
    } else {
        u32::MAX
    }
}

/// `s + 1`, or `u32::MAX` when that would overflow.
pub open spec fn saturating_inc_u32(s: u32) -> u32 {
    if s < u32::MAX {
        (s + 1) as u32
    } else {
        s
    }
}

/// The assistant reply of one turn while the model streams it: each delta is
/// numbered and appended, and the reply is closed by a final message.
pub struct ReplyStream {
    session_id: String,
    message_id: String,
    content: String,
    sequence: u32,
    deltas: Ghost<Seq<Seq<char>>>,
}

impl ReplyStream {
    /// The deltas received so far.
    pub closed spec fn received(&self) -> Seq<Seq<char>> {
        self.deltas@
    }

    /// The reply text so far.
    pub closed spec fn text(&self) -> Seq<char> {
        self.content@
    }

    /// The number of the last delta sent.
    pub closed spec fn last_sequence(&self) -> u32 {
        self.sequence
    }

    /// The session and the message the reply belongs to.
    pub closed spec fn ids(&self) -> (Seq<char>, Seq<char>) {
        (self.session_id@, self.message_id@)
    }

    /// The reply is the received deltas joined, and the deltas are numbered
    /// from one, the count capped at `u32::MAX`.
    pub closed spec fn well_formed(&self) -> bool {
        &&& self.content@ == joined(self.deltas@)
        &&& self.sequence == capped_u32(self.deltas@.len())
    }

    /// An empty reply to be written as `message_id` in `session_id`.
    pub fn new(session_id: String, message_id: String) -> (r: ReplyStream)
        ensures
            r.well_formed(),
            r.received() == Seq::<Seq<char>>::empty(),
            r.ids() == (session_id@, message_id@),
    {
        ReplyStream {
            session_id,
            message_id,
            content: String::new(),
            sequence: 0,
            deltas: Ghost(Seq::empty()),
        }
    }

    /// The reply text so far.
    pub fn content(&self) -> (r: &String)
        ensures
            r@ == self.text(),
    {
        &self.content
    }

    /// Appends a delta from the model and gives the message that carries it,
    /// numbered one after the previous one.
    pub fn next_delta(&mut self, delta: String) -> (d: pb::MessageDelta)
        requires
            old(self).well_formed(),
        ensures
            final(self).well_formed(),
            final(self).received() == old(self).received().push(delta@),
            final(self).ids() == old(self).ids(),
            final(self).last_sequence() == saturating_inc_u32(old(self).last_sequence()),
            (d.session_id@, d.message_id@) == old(self).ids(),
            d.delta == delta,
            !d.done,
            d.sequence == final(self).last_sequence(),
            d.finish_reason == PbFinishReason::InProgress.code(),
    {
        let ghost before = self.deltas@;
        self.content.append(delta.as_str());
        self.sequence = if self.sequence < u32::MAX {
            self.sequence + 1
        } else {
            self.sequence
        };
        self.deltas = Ghost(before.push(delta@));
        assert(before.push(delta@).drop_last() =~= before);
        pb::MessageDelta {
            session_id: self.session_id.clone(),
            message_id: self.message_id.clone(),
            delta,
            done: false,
            sequence: self.sequence,
            finish_reason: PbFinishReason::InProgress.as_i32(),
        }
    }

    /// The assistant message the turn stores once the reply is complete:
    /// written under the reply's id, in its session, with the whole reply text.
    pub fn assistant_message(&self) -> (r: NewMessage)
        ensures
            r.id matches Some(id) && id@ == self.ids().1,
            r.session_id@ == self.ids().0,
            r.role == MessageRole::Assistant,
            r.content@ == self.text(),
    {
        NewMessage {
            id: Some(self.message_id.clone()),
            session_id: self.session_id.clone(),
            role: MessageRole::Assistant,
            content: self.content.clone(),
        }
    }

    /// The message that closes the reply, numbered after the last delta; a
    /// blank reply is a model failure.
    pub fn finish(&self) -> (r: Result<pb::MessageDelta, HarpeError>)
        requires
            self.well_formed(),
        ensures
            r is Err <==> is_blank(self.text()),
            r matches Err(e) ==> e matches HarpeError::Llm(m) && m@
                == "assistant response was empty"@,
            r matches Ok(d) ==> {
                &&& (d.session_id@, d.message_id@) == self.ids()
                &&& d.delta@ == Seq::<char>::empty()
                &&& d.done
                &&& d.sequence == saturating_inc_u32(self.last_sequence())
                &&& d.finish_reason == PbFinishReason::AssistantComplete.code()
            },
    {
        if is_blank_str(self.content.as_str()) {
            return Err(HarpeError::Llm("assistant response was empty".to_owned()));
        }
        Ok(
            pb::MessageDelta {
                session_id: self.session_id.clone(),
                message_id: self.message_id.clone(),
                delta: String::new(),
                done: true,
                sequence: if self.sequence < u32::MAX {
                    self.sequence + 1
                } else {
                    self.sequence
                },
                finish_reason: PbFinishReason::AssistantComplete.as_i32(),
            },
        )
    }
}

/// The reply written after a turn is exactly the streamed deltas joined, the
/// deltas are numbered one, two, three and so on, and the closing message
/// comes after every delta as long as the numbers have not reached `u32::MAX`.
pub proof fn reply_is_the_streamed_deltas(stream: ReplyStream)
    requires
        stream.well_formed(),
    ensures
        stream.text() == joined(stream.received()),
        stream.received().len() < u32::MAX ==> stream.last_sequence() == stream.received().len(),
        stream.received().len() < u32::MAX ==> saturating_inc_u32(stream.last_sequence())
            > stream.last_sequence(),
{
}

/// The player's message a turn stores before the model is asked: no id of
/// its own (the store picks one), in `session_id`, with the text sent.
pub fn user_turn_message(session_id: String, content: String) -> (r: NewMessage)
    ensures
        r.id is None,
        r.session_id == session_id,
        r.role == MessageRole::User,
        r.content == content,
{
    NewMessage { id: None, session_id, role: MessageRole::User, content }
}

/// What a turn has ready before the model is asked: the player's message to
/// store, the model to ask for, and an empty reply under a fresh message id.
pub struct TurnStart {
    pub user_message: NewMessage,
    pub model: Option<String>,
    pub reply: ReplyStream,
}

/// The fields of the memory-update job that a completed turn queues.
#[derive(Clone, Debug, PartialEq, Eq)]
pub struct MemoryUpdate {
    pub game_id: String,
    pub session_id: String,
    pub message_id: String,
    pub content: String,
}

/// What a completed turn writes: the assistant message to store, the
/// memory update to queue, and the message that closes the stream.
pub struct TurnEnd {
    pub assistant_message: NewMessage,
    pub memory_update: MemoryUpdate,
    pub closing: pb::MessageDelta,
}

/// Opens a turn in `session_id` with the player's `content`: a blank turn is
/// refused; otherwise the player's message, the trimmed model override and
/// an empty reply under a fresh version 7 UUID as its message id.
pub fn begin_turn(session_id: String, content: String, model: &str) -> (r: Result<
    TurnStart,
    HarpeError,
>)
    ensures
        r is Err <==> is_blank(content@),
        r matches Err(e) ==> e matches HarpeError::Validation(m) && m@
            == "message content is required"@,
        r matches Ok(t) ==> {
            &&& t.user_message == (NewMessage {
                id: None,
                session_id,
                role: MessageRole::User,
                content,
            })
            &&& (t.model is None <==> is_blank(model@))
            &&& (t.model matches Some(m) ==> m@ == trim(model@))
            &&& t.reply.well_formed()
            &&& t.reply.received() == Seq::<Seq<char>>::empty()
            &&& t.reply.ids().0 == session_id@
            &&& is_uuid_v7_text(t.reply.ids().1)
        },
{
    if let Err(e) = validate_message_content(content.as_str()) {
        return Err(e);
    }
    let model = optional_model_override(model);
    let reply = ReplyStream::new(session_id.clone(), new_id());
    Ok(TurnStart { user_message: user_turn_message(session_id, content), model, reply })
}

/// Closes a turn once the model has streamed `reply`: a blank reply is a
/// model failure; otherwise the assistant message holding the whole reply,
/// the memory update for `game_id` over the same message, and the closing
/// message numbered after the last delta.
pub fn end_turn(reply: &ReplyStream, game_id: String) -> (r: Result<TurnEnd, HarpeError>)
    requires
        reply.well_formed(),
    ensures
        r is Err <==> is_blank(joined(reply.received())),
        r matches Err(e) ==> e matches HarpeError::Llm(m) && m@
            == "assistant response was empty"@,
        r matches Ok(t) ==> completes(t, *reply, game_id),
{
    let closing = match reply.finish() {
        Ok(d) => d,
        Err(e) => {
            return Err(e);
        },
    };
    let assistant_message = reply.assistant_message();
    let message_id = match &assistant_message.id {
        Some(id) => id.clone(),
        None => String::new(),
    };
    let memory_update = MemoryUpdate {
        game_id,
        session_id: assistant_message.session_id.clone(),
        message_id,
        content: assistant_message.content.clone(),
    };
    Ok(TurnEnd { assistant_message, memory_update, closing })
}

/// What happens while a turn streams the model's reply.
pub enum TurnEvent {
    /// The model gave the next piece of the reply.
    Delta(String),
    /// The model's stream failed.
    ModelFailed(HarpeError),
    /// The model's stream ended.
    ModelDone,
    /// The client went away: a message could not be delivered.
    ClientGone,
}

/// What the turn does next.
pub enum TurnAction {
    /// Deliver this message to the client and wait for the model.
    Send(pb::MessageDelta),
    /// Stop without storing anything: no one is listening.
    Abandon,
    /// Store the assistant message, queue the memory update, deliver the
    /// closing message.
    Finish(TurnEnd),
    /// Stop with this error, storing nothing more.
    Fail(HarpeError),
}

/// Whether `t` is what a completed turn writes for `reply` in the game
/// `game_id`: the reply as the assistant message, the same reply queued for
/// memory, and the closing message numbered after the last delta.
pub open spec fn completes(t: TurnEnd, reply: ReplyStream, game_id: String) -> bool {
    &&& t.assistant_message.id matches Some(id) && id@ == reply.ids().1
    &&& t.assistant_message.session_id@ == reply.ids().0
    &&& t.assistant_message.role == MessageRole::Assistant
    &&& t.assistant_message.content@ == joined(reply.received())
    &&& t.memory_update.game_id == game_id
    &&& t.memory_update.session_id@ == reply.ids().0
    &&& t.memory_update.message_id@ == reply.ids().1
    &&& t.memory_update.content@ == joined(reply.received())
    &&& (t.closing.session_id@, t.closing.message_id@) == reply.ids()
    &&& t.closing.delta@ == Seq::<char>::empty()
    &&& t.closing.done
    &&& t.closing.sequence == saturating_inc_u32(reply.last_sequence())
    &&& t.closing.finish_reason == PbFinishReason::AssistantComplete.code()
}

/// One step of a streaming turn: a delta from the model is appended and
/// sent on; a failure of the model ends the turn with that failure; the end
/// of the model's stream completes the turn, or fails it when the reply is
/// blank; and once the client is gone the turn stops and stores nothing.
/// Only a delta changes the reply.
pub fn turn_step(reply: &mut ReplyStream, game_id: &String, event: TurnEvent) -> (r: TurnAction)
    requires
        old(reply).well_formed(),
    ensures
        final(reply).well_formed(),
        match event {
            TurnEvent::Delta(d) => {
                &&& final(reply).received() == old(reply).received().push(d@)
                &&& final(reply).ids() == old(reply).ids()
                &&& final(reply).last_sequence() == saturating_inc_u32(old(reply).last_sequence())
                &&& r matches TurnAction::Send(m) && (m.session_id@, m.message_id@) == old(
                    reply,
                ).ids() && m.delta == d && !m.done && m.sequence == final(reply).last_sequence()
                    && m.finish_reason == PbFinishReason::InProgress.code()
            },
            TurnEvent::ModelFailed(e) => *final(reply) == *old(reply) && r == TurnAction::Fail(e),
            TurnEvent::ClientGone => *final(reply) == *old(reply) && r == TurnAction::Abandon,
            TurnEvent::ModelDone => {
                &&& *final(reply) == *old(reply)
                &&& (r is Fail <==> is_blank(joined(old(reply).received())))
                &&& r matches TurnAction::Fail(e) ==> e matches HarpeError::Llm(m) && m@
                    == "assistant response was empty"@
                &&& r matches TurnAction::Finish(t) ==> completes(t, *old(reply), *game_id)
                &&& (r is Fail || r is Finish)
            },
        },
{
    match event {
        TurnEvent::Delta(d) => TurnAction::Send(reply.next_delta(d)),
        TurnEvent::ModelFailed(e) => TurnAction::Fail(e),
        TurnEvent::ClientGone => TurnAction::Abandon,
        TurnEvent::ModelDone => match end_turn(reply, game_id.clone()) {
            Ok(t) => TurnAction::Finish(t),
            Err(e) => TurnAction::Fail(e),
        },
    }
}

/// Numbers the chunks of a game backup stream from one.
pub struct BackupSequencer {
    game_id: String,
    sequence: u32,
}

impl BackupSequencer {
    /// The number of the last chunk sent.
    pub closed spec fn last_sequence(&self) -> u32 {
        self.sequence
    }

    /// The game being exported.
    pub closed spec fn game(&self) -> Seq<char> {
        self.game_id@
    }

    /// A stream for `game_id` that has sent nothing.
    pub fn new(game_id: String) -> (r: BackupSequencer)
        ensures
            r.last_sequence() == 0,
            r.game() == game_id@,
    {
        BackupSequencer { game_id, sequence: 0 }
    }

    /// The next chunk: a record of `kind` with its JSON payload.
    pub fn next_chunk(&mut self, kind: &str, payload_json: String) -> (c: pb::GameBackupChunk)
        ensures
            final(self).game() == old(self).game(),
            final(self).last_sequence() == saturating_inc_u32(old(self).last_sequence()),
            c.game_id@ == old(self).game(),
            c.kind@ == kind@,
            c.sequence == final(self).last_sequence(),
            c.payload_json == payload_json,
            !c.done,
    {
        self.sequence = if self.sequence < u32::MAX {
            self.sequence + 1
        } else {
            self.sequence
        };
        pb::GameBackupChunk {
            game_id: self.game_id.clone(),
            kind: kind.to_owned(),
            sequence: self.sequence,
            payload_json,
            done: false,
        }
    }

    /// The chunk that ends the stream: kind `done`, an empty JSON object.
    pub fn done_chunk(&mut self) -> (c: pb::GameBackupChunk)
        ensures
            final(self).game() == old(self).game(),
            final(self).last_sequence() == saturating_inc_u32(old(self).last_sequence()),
            c.game_id@ == old(self).game(),
            c.kind@ == "done"@,
            c.sequence == final(self).last_sequence(),
            c.payload_json@ == "{}"@,
            c.done,
    {
        self.sequence = if self.sequence < u32::MAX {
            self.sequence + 1
        } else {
            self.sequence
        };
        pb::GameBackupChunk {
            game_id: self.game_id.clone(),
            kind: "done".to_owned(),
            sequence: self.sequence,
            payload_json: "{}".to_owned(),
            done: true,
        }
    }
}

/// The gRPC services of the server: the store, the model client, the
/// context builder and the metrics they share.
pub struct HarpeGrpc<S, L, C, M> {
    store: S,
    llm: L,
    context_builder: C,
    metrics: M,
}

impl<S, L, C: Default, M: Default> HarpeGrpc<S, L, C, M> {
    /// The services over `store` and `llm`, with the default context builder
    /// and fresh metrics.
    pub fn new(store: S, llm: L) -> (r: Self)
        ensures
            r.store_of() == store,
            r.llm_of() == llm,
            call_ensures(C::default, (), r.context_builder_of()),
            call_ensures(M::default, (), r.metrics_of()),
    {
        HarpeGrpc { store, llm, context_builder: C::default(), metrics: M::default() }
    }
}

impl<S, L, C, M> HarpeGrpc<S, L, C, M> {
    /// The store the services read and write.
    pub closed spec fn store_of(&self) -> S {
        self.store
    }

    /// The model client the services call.
    pub closed spec fn llm_of(&self) -> L {
        self.llm
    }

    /// The context builder of the services.
    pub closed spec fn context_builder_of(&self) -> C {
        self.context_builder
    }

    /// The metrics the services record.
    pub closed spec fn metrics_of(&self) -> M {
        self.metrics
    }

    /// The services over `store` and `llm`, with the given context builder and metrics.
    pub fn with_parts(store: S, llm: L, context_builder: C, metrics: M) -> (r: Self)
        ensures
            r.store_of() == store,
            r.llm_of() == llm,
            r.context_builder_of() == context_builder,
            r.metrics_of() == metrics,
    {
        HarpeGrpc { store, llm, context_builder, metrics }
    }

    /// The same services with another context builder.
    pub fn with_context_builder(self, context_builder: C) -> (r: Self)
        ensures
            r.store_of() == self.store_of(),
            r.llm_of() == self.llm_of(),
            r.context_builder_of() == context_builder,
            r.metrics_of() == self.metrics_of(),
    {
        HarpeGrpc { store: self.store, llm: self.llm, context_builder, metrics: self.metrics }
    }

    /// The same services with other metrics.
    pub fn with_metrics(self, metrics: M) -> (r: Self)
        ensures
            r.store_of() == self.store_of(),
            r.llm_of() == self.llm_of(),
            r.context_builder_of() == self.context_builder_of(),
            r.metrics_of() == metrics,
    {
        HarpeGrpc { store: self.store, llm: self.llm, context_builder: self.context_builder, metrics }
    }

    /// The store the services read and write.
    pub fn store(&self) -> (r: &S)
        ensures
            *r == self.store_of(),
    {
        &self.store
    }

    /// The model client the services call.
    pub fn llm(&self) -> (r: &L)
        ensures
            *r == self.llm_of(),
    {
        &self.llm
    }

    /// The context builder of the services.
    pub fn context_builder(&self) -> (r: &C)
        ensures
            *r == self.context_builder_of(),
    {
        &self.context_builder
    }

    /// The metrics the services record.
    pub fn metrics(&self) -> (r: &M)
        ensures
            *r == self.metrics_of(),
    {
        &self.metrics
    }
}

} // verus!
