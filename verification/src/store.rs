//! The storage rules of the server: limits, record validation, graph edge
//! naming, schema migrations and the background job life cycle.

use vstd::prelude::*;

use crate::domain::{
    BackgroundJob, GraphRelationKind, HarpeError, JobKind, JobStatus, Message, MessageRole,
    NewBackgroundJob,
};
use crate::client::opt_string_view;
use crate::time::Timestamp;
use crate::text::{
    str_eq, chars_of, concat_str, contains_seq, lowercase, split_words, to_lowercase_str, vec_contains,
    views_of, words, is_blank, is_blank_str, nat_text, push_char, string_from_chars, trim,
    trim_str, u64_to_text,
};

verus! {

/// The root credentials the store signs in with, when the database asks for them.
#[derive(Clone, Debug, PartialEq, Eq)]
pub struct SurrealCredentials {
    pub username: String,
    pub password: String,
}


/// The number of rows a listing returns for a requested `limit`: 50 when none
/// is requested, and never more than 1000.
pub open spec fn spec_normalize_limit(limit: nat) -> nat {
    if limit == 0 {
        50
    } else if limit <= 1000 {
        limit
    } else {
        1000
    }
}

/// A listing returns the rows asked for when that is between 1 and 1000,
/// 50 when none is asked for, and 1000 when more are asked for.
pub proof fn normalize_limit_keeps_requests_in_range(limit: nat)
    ensures
        1 <= limit <= 1000 ==> spec_normalize_limit(limit) == limit,
        limit == 0 ==> spec_normalize_limit(limit) == 50,
        limit > 1000 ==> spec_normalize_limit(limit) == 1000,
        1 <= spec_normalize_limit(limit) <= 1000,
{
}

/// The number of rows a listing returns for a requested `limit`.
pub fn normalize_limit(limit: usize) -> (r: usize)
    ensures
        r == spec_normalize_limit(limit as nat),
{
    if limit == 0 {
        50
    } else if limit <= 1000 {
        limit
    } else {
        1000
    }
}

/// `value` clamped into `lo..=hi`.
pub open spec fn clamp(value: int, lo: int, hi: int) -> int {
    if value < lo {
        lo
    } else if value > hi {
        hi
    } else {
        value
    }
}

/// Clamping keeps a value already in range and otherwise gives the nearer
/// bound; importance is kept when it is 1 to 5, an attempt budget when it is
/// 1 to 10, and a search gathers eight candidates per result, at least 32 and
/// at most 512.
pub proof fn clamps_keep_values_in_range(value: int, lo: int, hi: int, limit: nat)
    requires
        lo <= hi,
    ensures
        lo <= value <= hi ==> clamp(value, lo, hi) == value,
        value < lo ==> clamp(value, lo, hi) == lo,
        value > hi ==> clamp(value, lo, hi) == hi,
        1 <= value <= 5 ==> clamp(value, 1, 5) == value,
        1 <= value <= 10 ==> clamp(value, 1, 10) == value,
        4 <= limit <= 64 ==> clamp((8 * spec_normalize_limit(limit)) as int, 32, 512) == 8 * limit,
{
}

/// How many memory candidates a search gathers before ranking: eight per
/// result, between 32 and 512.
pub fn memory_candidate_limit(limit: usize) -> (r: usize)
    ensures
        r == clamp((8 * spec_normalize_limit(limit as nat)) as int, 32, 512),
{
    let n = normalize_limit(limit);
    let m = n * 8;
    if m < 32 {
        32
    } else if m > 512 {
        512
    } else {
        m
    }
}

/// The importance of an event, clamped into `1..=5`.
pub fn normalize_importance(importance: i32) -> (r: i32)
    ensures
        r == clamp(importance as int, 1, 5),
{
    if importance < 1 {
        1
    } else if importance > 5 {
        5
    } else {
        importance
    }
}

/// The attempt budget of a job, clamped into `1..=10`.
pub fn normalize_max_attempts(max_attempts: i32) -> (r: i32)
    ensures
        r == clamp(max_attempts as int, 1, 10),
{
    if max_attempts < 1 {
        1
    } else if max_attempts > 10 {
        10
    } else {
        max_attempts
    }
}

/// The content of a world fact: the given text, or the trimmed triple joined
/// by spaces when the given text is blank.
pub open spec fn spec_world_fact_content(
    subject: Seq<char>,
    predicate: Seq<char>,
    object: Seq<char>,
    content: Seq<char>,
) -> Seq<char> {
    if is_blank(content) {
        trim(subject) + seq![' '] + trim(predicate) + seq![' '] + trim(object)
    } else {
        content
    }
}

/// The content of a world fact: `content`, or `subject predicate object` when
/// `content` is blank.
pub fn world_fact_content(subject: &str, predicate: &str, object: &str, content: &str) -> (r:
    String)
    ensures
        r@ == spec_world_fact_content(subject@, predicate@, object@, content@),
{
    if is_blank_str(content) {
        let mut r = trim_str(subject);
        r.append(" ");
        r.append(trim_str(predicate).as_str());
        r.append(" ");
        r.append(trim_str(object).as_str());
        proof {
            reveal_strlit(" ");
            assert(" "@ =~= seq![' ']);
        }
        r
    } else {
        content.to_owned()
    }
}

/// The message of the error that reports a missing `label`.
pub open spec fn required_message(label: Seq<char>) -> Seq<char> {
    label + " is required"@
}

/// Checks that `value` is not blank; the error names `label`.
pub fn validate_present(label: &str, value: &str) -> (r: Result<(), HarpeError>)
    ensures
        r is Ok <==> !is_blank(value@),
        r matches Err(e) ==> e matches HarpeError::Validation(m) && m@ == required_message(
            label@,
        ),
{
    if is_blank_str(value) {
        return Err(HarpeError::Validation(concat_str(label, " is required")));
    }
    Ok(())
}


/// The tables of a graph relation: the edge table and the tables of the two
/// records it joins.
#[derive(Clone, Copy, Debug, PartialEq, Eq)]
pub struct RelationSpec {
    pub table: &'static str,
    pub in_table: &'static str,
    pub out_table: &'static str,
}

/// The edge table, source table and target table of `relation`.
pub open spec fn relation_tables(relation: GraphRelationKind) -> (Seq<char>, Seq<char>, Seq<char>) {
    match relation {
        GraphRelationKind::SessionInGame => ("session_in_game"@, "session"@, "game"@),
        GraphRelationKind::MessageInSession => ("message_in_session"@, "message"@, "session"@),
        GraphRelationKind::EventInSession => ("event_in_session"@, "event"@, "session"@),
        GraphRelationKind::CharacterInGame => ("character_in_game"@, "character"@, "game"@),
        GraphRelationKind::LocationInGame => ("location_in_game"@, "location"@, "game"@),
        GraphRelationKind::WorldFactInGame => ("world_fact_in_game"@, "world_fact"@, "game"@),
        GraphRelationKind::MemoryInSession => ("memory_in_session"@, "memory_chunk"@, "session"@),
        GraphRelationKind::EventInvolvesCharacter => (
            "event_involves_character"@,
            "event"@,
            "character"@,
        ),
        GraphRelationKind::EventHappenedAtLocation => (
            "event_happened_at_location"@,
            "event"@,
            "location"@,
        ),
        GraphRelationKind::CharacterKnowsWorldFact => (
            "character_knows_world_fact"@,
            "character"@,
            "world_fact"@,
        ),
        GraphRelationKind::MemorySupportsWorldFact => (
            "memory_supports_world_fact"@,
            "memory_chunk"@,
            "world_fact"@,
        ),
    }
}

/// The tables that back `relation`.
pub fn relation_spec(relation: GraphRelationKind) -> (r: RelationSpec)
    ensures
        (r.table@, r.in_table@, r.out_table@) == relation_tables(relation),
{
    match relation {
        GraphRelationKind::SessionInGame => RelationSpec {
            table: "session_in_game",
            in_table: "session",
            out_table: "game",
        },
        GraphRelationKind::MessageInSession => RelationSpec {
            table: "message_in_session",
            in_table: "message",
            out_table: "session",
        },
        GraphRelationKind::EventInSession => RelationSpec {
            table: "event_in_session",
            in_table: "event",
            out_table: "session",
        },
        GraphRelationKind::CharacterInGame => RelationSpec {
            table: "character_in_game",
            in_table: "character",
            out_table: "game",
        },
        GraphRelationKind::LocationInGame => RelationSpec {
            table: "location_in_game",
            in_table: "location",
            out_table: "game",
        },
        GraphRelationKind::WorldFactInGame => RelationSpec {
            table: "world_fact_in_game",
            in_table: "world_fact",
            out_table: "game",
        },
        GraphRelationKind::MemoryInSession => RelationSpec {
            table: "memory_in_session",
            in_table: "memory_chunk",
            out_table: "session",
        },
        GraphRelationKind::EventInvolvesCharacter => RelationSpec {
            table: "event_involves_character",
            in_table: "event",
            out_table: "character",
        },
        GraphRelationKind::EventHappenedAtLocation => RelationSpec {
            table: "event_happened_at_location",
            in_table: "event",
            out_table: "location",
        },
        GraphRelationKind::CharacterKnowsWorldFact => RelationSpec {
            table: "character_knows_world_fact",
            in_table: "character",
            out_table: "world_fact",
        },
        GraphRelationKind::MemorySupportsWorldFact => RelationSpec {
            table: "memory_supports_world_fact",
            in_table: "memory_chunk",
            out_table: "world_fact",
        },
    }
}

/// Whether `c` is an ASCII letter or digit.
pub open spec fn is_ascii_alnum(c: char) -> bool {
    ('a' <= c && c <= 'z') || ('A' <= c && c <= 'Z') || ('0' <= c && c <= '9')
}

/// `c` when it may stand in a record key, `_` otherwise.
pub open spec fn key_char(c: char) -> char {
    if is_ascii_alnum(c) {
        c
    } else {
        '_'
    }
}

/// `s` with every character that is not an ASCII letter or digit replaced by `_`.
pub open spec fn spec_sanitize_record_key(s: Seq<char>) -> Seq<char> {
    s.map_values(|c: char| key_char(c))
}

/// `value` with every character that is not an ASCII letter or digit
/// replaced by `_`.
pub fn sanitize_record_key(value: &str) -> (r: String)
    ensures
        r@ == spec_sanitize_record_key(value@),
{
    let v = chars_of(value);
    let mut out: Vec<char> = Vec::new();
    let mut i: usize = 0;
    while i < v.len()
        invariant
            i <= v@.len(),
            v@ == value@,
            out@ == v@.subrange(0, i as int).map_values(|c: char| key_char(c)),
        decreases v.len() - i,
    {
        let c = v[i];
        let k = if ('a' <= c && c <= 'z') || ('A' <= c && c <= 'Z') || ('0' <= c && c <= '9') {
            c
        } else {
            '_'
        };
        out.push(k);
        assert(v@.subrange(0, i + 1).map_values(|c: char| key_char(c)) =~= v@.subrange(
            0,
            i as int,
        ).map_values(|c: char| key_char(c)).push(key_char(c)));
        i = i + 1;
    }
    assert(v@.subrange(0, v@.len() as int) =~= v@);
    string_from_chars(out.as_slice())
}

/// The key of the edge that joins two records.
pub open spec fn spec_edge_id(in_record_id: Seq<char>, out_record_id: Seq<char>) -> Seq<char> {
    spec_sanitize_record_key(in_record_id) + "__"@ + spec_sanitize_record_key(out_record_id)
}

/// The key of the edge that joins two records: both ids made key-safe,
/// joined by `__`.
pub fn edge_id(in_record_id: &str, out_record_id: &str) -> (r: String)
    ensures
        r@ == spec_edge_id(in_record_id@, out_record_id@),
{
    let mut r = sanitize_record_key(in_record_id);
    r.append("__");
    r.append(sanitize_record_key(out_record_id).as_str());
    r
}

/// Making a key safe twice changes nothing more than making it safe once,
/// and it keeps the key's length.
pub proof fn sanitize_record_key_is_idempotent(s: Seq<char>)
    ensures
        spec_sanitize_record_key(spec_sanitize_record_key(s)) == spec_sanitize_record_key(s),
        spec_sanitize_record_key(s).len() == s.len(),
{
    assert(spec_sanitize_record_key(spec_sanitize_record_key(s)) =~= spec_sanitize_record_key(s));
}

/// The HNSW-indexed field that holds embeddings of `dimensions` entries, if any.
pub open spec fn spec_indexed_embedding_field(dimensions: nat) -> Option<Seq<char>> {
    if dimensions == 16 {
        Some("embedding_16"@)
    } else if dimensions == 384 {
        Some("embedding_384"@)
    } else if dimensions == 768 {
        Some("embedding_768"@)
    } else if dimensions == 1024 {
        Some("embedding_1024"@)
    } else if dimensions == 1536 {
        Some("embedding_1536"@)
    } else if dimensions == 3072 {
        Some("embedding_3072"@)
    } else {
        None
    }
}

/// The indexed field for embeddings of `dimensions` entries, if any.
pub fn indexed_embedding_field(dimensions: usize) -> (r: Option<&'static str>)
    ensures
        r matches Some(f) ==> spec_indexed_embedding_field(dimensions as nat) == Some(f@),
        r is None ==> spec_indexed_embedding_field(dimensions as nat) is None,
{
    if dimensions == 16 {
        Some("embedding_16")
    } else if dimensions == 384 {
        Some("embedding_384")
    } else if dimensions == 768 {
        Some("embedding_768")
    } else if dimensions == 1024 {
        Some("embedding_1024")
    } else if dimensions == 1536 {
        Some("embedding_1536")
    } else if dimensions == 3072 {
        Some("embedding_3072")
    } else {
        None
    }
}

/// A copy of `embedding` for the field of `dimensions` entries, present only
/// when the embedding has exactly that many entries.
pub fn fixed_embedding<T: Copy>(embedding: &[T], dimensions: usize) -> (r: Option<Vec<T>>)
    ensures
        r is Some <==> embedding@.len() == dimensions,
        r matches Some(v) ==> v@ == embedding@,
{
    if embedding.len() == dimensions {
        Some(vstd::slice::slice_to_vec(embedding))
    } else {
        None
    }
}


/// A background job as the database holds it: kind and status as text.
#[derive(Clone, Debug, PartialEq, Eq)]
pub struct JobRow {
    pub uid: String,
    pub kind: String,
    pub status: String,
    pub payload_json: String,
    pub attempts: i32,
    pub max_attempts: i32,
    pub last_error: Option<String>,
    pub run_after: Timestamp,
    pub created_at: Timestamp,
    pub updated_at: Timestamp,
}

/// A stored job that every job operation accepts: its kind and status are
/// known and its attempt budget lies in `1..=10`.
pub open spec fn job_row_is_valid(row: JobRow) -> bool {
    &&& JobKind::from_db_text(row.kind@) is Some
    &&& JobStatus::from_db_text(row.status@) is Some
    &&& 1 <= row.max_attempts <= 10
}

/// `row` is the stored form of `input` queued as `uid` at `now`: pending,
/// with no attempts, a clamped budget, and `now` as the run time when none is given.
pub open spec fn spec_new_job_row(input: NewBackgroundJob, uid: Seq<char>, now: Timestamp, row: JobRow) -> bool {
    &&& row.uid@ == uid
    &&& row.kind@ == input.kind.db_text()
    &&& row.status@ == JobStatus::Pending.db_text()
    &&& row.payload_json@ == input.payload_json@
    &&& row.attempts == 0
    &&& row.max_attempts == clamp(input.max_attempts as int, 1, 10)
    &&& row.last_error is None
    &&& row.run_after == (match input.run_after {
        Some(t) => t,
        None => now,
    })
    &&& row.created_at == now
    &&& row.updated_at == now
}

/// The stored row of a newly queued job.
pub fn new_job_row(input: NewBackgroundJob, uid: String, now: Timestamp) -> (row: JobRow)
    ensures
        spec_new_job_row(input, uid@, now, row),
{
    let run_after = match input.run_after {
        Some(t) => t,
        None => now,
    };
    JobRow {
        uid,
        kind: input.kind.as_db_value().to_owned(),
        status: JobStatus::Pending.as_db_value().to_owned(),
        payload_json: input.payload_json,
        attempts: 0,
        max_attempts: normalize_max_attempts(input.max_attempts),
        last_error: None,
        run_after,
        created_at: now,
        updated_at: now,
    }
}

/// The row after a state change: the new status, the attempts and run time
/// when given, the error as given, and `now` as the update time.
pub open spec fn spec_update_job_state(
    row: JobRow,
    status: JobStatus,
    attempts: Option<i32>,
    last_error: Option<String>,
    run_after: Option<Timestamp>,
    now: Timestamp,
    out: JobRow,
) -> bool {
    &&& out.uid == row.uid
    &&& out.kind == row.kind
    &&& out.status@ == status.db_text()
    &&& out.payload_json == row.payload_json
    &&& out.attempts == (match attempts {
        Some(a) => a,
        None => row.attempts,
    })
    &&& out.max_attempts == row.max_attempts
    &&& out.last_error == last_error
    &&& out.run_after == (match run_after {
        Some(t) => t,
        None => row.run_after,
    })
    &&& out.created_at == row.created_at
    &&& out.updated_at == now
}

/// Moves a stored job to `status`.
pub fn update_job_state(
    row: JobRow,
    status: JobStatus,
    attempts: Option<i32>,
    last_error: Option<String>,
    run_after: Option<Timestamp>,
    now: Timestamp,
) -> (out: JobRow)
    ensures
        spec_update_job_state(row, status, attempts, last_error, run_after, now, out),
{
    let mut row = row;
    row.status = status.as_db_value().to_owned();
    if let Some(a) = attempts {
        row.attempts = a;
    }
    row.last_error = last_error;
    if let Some(t) = run_after {
        row.run_after = t;
    }
    row.updated_at = now;
    row
}

/// `a + 1`, or `a` when that would overflow.
pub open spec fn saturating_inc(a: i32) -> i32 {
    if a < i32::MAX {
        (a + 1) as i32
    } else {
        a
    }
}

/// A worker takes the job: it is running, one more attempt is counted and
/// the last error is cleared.
pub fn claim_job(row: JobRow, now: Timestamp) -> (out: JobRow)
    ensures
        spec_update_job_state(row, JobStatus::Running, Some(saturating_inc(row.attempts)), None, None, now, out),
{
    let attempts = if row.attempts < i32::MAX {
        row.attempts + 1
    } else {
        row.attempts
    };
    update_job_state(row, JobStatus::Running, Some(attempts), None, None, now)
}

/// The job finished: it succeeded and has no error.
pub fn complete_job(row: JobRow, now: Timestamp) -> (out: JobRow)
    ensures
        spec_update_job_state(row, JobStatus::Succeeded, None, None, None, now, out),
{
    update_job_state(row, JobStatus::Succeeded, None, None, None, now)
}

/// The job failed for now: it is pending again from `run_after`, with `error` kept.
pub fn retry_job(row: JobRow, error: String, run_after: Timestamp, now: Timestamp) -> (out: JobRow)
    ensures
        spec_update_job_state(row, JobStatus::Pending, None, Some(error), Some(run_after), now, out),
{
    update_job_state(row, JobStatus::Pending, None, Some(error), Some(run_after), now)
}

/// The job failed for good, with `error` kept.
pub fn fail_job(row: JobRow, error: String, now: Timestamp) -> (out: JobRow)
    ensures
        spec_update_job_state(row, JobStatus::Failed, None, Some(error), None, now, out),
{
    update_job_state(row, JobStatus::Failed, None, Some(error), None, now)
}

/// The message of the error for a stored status that no status reads as.
pub open spec fn unknown_status_message(status: Seq<char>) -> Seq<char> {
    "unknown job status "@ + status
}

/// The message of the error for a stored kind that no kind reads as.
pub open spec fn unknown_kind_message(kind: Seq<char>) -> Seq<char> {
    "unknown job kind "@ + kind
}

/// The message of the error for an administrative action on a job that has
/// not failed.
pub open spec fn not_failed_message(job_id: Seq<char>) -> Seq<char> {
    "background job "@ + job_id + " is not failed"@
}

/// Checks that the stored job `job_id` has failed, which the administrative
/// retry and purge require.
pub fn check_failed_job(job_id: &str, row: &JobRow) -> (r: Result<(), HarpeError>)
    ensures
        r is Ok <==> JobStatus::from_db_text(row.status@) == Some(JobStatus::Failed),
        JobStatus::from_db_text(row.status@) is None ==> (r matches Err(HarpeError::Store(m))
            && m@ == unknown_status_message(row.status@)),
        (JobStatus::from_db_text(row.status@) matches Some(s) && s != JobStatus::Failed) ==> (
        r matches Err(HarpeError::Validation(m)) && m@ == not_failed_message(job_id@)),
{
    match JobStatus::from_db_value(row.status.as_str()) {
        None => Err(HarpeError::Store(concat_str("unknown job status ", row.status.as_str()))),
        Some(JobStatus::Failed) => Ok(()),
        Some(_) => {
            let mut m = concat_str("background job ", job_id);
            m.append(" is not failed");
            Err(HarpeError::Validation(m))
        },
    }
}

/// `out` is `row` requeued by an administrator at `now`: pending from `now`
/// with no attempts and no error, and a replaced, clamped budget when given.
pub open spec fn spec_retry_failed_job(row: JobRow, max_attempts: Option<i32>, now: Timestamp, out: JobRow) -> bool {
    &&& out.uid == row.uid
    &&& out.kind == row.kind
    &&& out.status@ == JobStatus::Pending.db_text()
    &&& out.payload_json == row.payload_json
    &&& out.attempts == 0
    &&& out.max_attempts == (match max_attempts {
        Some(m) => clamp(m as int, 1, 10) as i32,
        None => row.max_attempts,
    })
    &&& out.last_error is None
    &&& out.run_after == now
    &&& out.created_at == row.created_at
    &&& out.updated_at == now
}

/// An administrator requeues a failed job: it is pending from `now` with no
/// attempts and no error, and its budget is replaced (clamped) when given.
pub fn retry_failed_job(job_id: &str, row: JobRow, max_attempts: Option<i32>, now: Timestamp) -> (r:
    Result<JobRow, HarpeError>)
    ensures
        r is Ok <==> JobStatus::from_db_text(row.status@) == Some(JobStatus::Failed),
        r matches Ok(out) ==> spec_retry_failed_job(row, max_attempts, now, out),
        (JobStatus::from_db_text(row.status@) matches Some(s) && s != JobStatus::Failed) ==> (
        r matches Err(HarpeError::Validation(m)) && m@ == not_failed_message(job_id@)),
        JobStatus::from_db_text(row.status@) is None ==> (r matches Err(HarpeError::Store(m))
            && m@ == unknown_status_message(row.status@)),
{
    match check_failed_job(job_id, &row) {
        Err(e) => Err(e),
        Ok(()) => {
            let mut row = row;
            row.status = JobStatus::Pending.as_db_value().to_owned();
            row.attempts = 0;
            if let Some(m) = max_attempts {
                row.max_attempts = normalize_max_attempts(m);
            }
            row.last_error = None;
            row.run_after = now;
            row.updated_at = now;
            Ok(row)
        },
    }
}

/// What serde_json reports when it reads the text `s` as a JSON document:
/// `None` where `s` is one, else the text of its error.
pub uninterp spec fn json_text_error(s: Seq<char>) -> Option<Seq<char>>;

/// Reads `text` as a JSON document (serde_json's `from_str` into its
/// `Value`) and gives the text of the error, if any; the contract names the
/// outcome and says no more of it.
#[verifier::external_body]
fn check_json_text(text: &str) -> (r: Option<String>)
    ensures
        opt_string_view(r) == json_text_error(text@),
{
    serde_json::from_str::<serde_json::Value>(text).err().map(|error| error.to_string())
}

/// Reads a stored job back into the domain record; unknown kinds and
/// statuses, and a payload that is not JSON, are store errors.
pub fn job_from_row(row: JobRow) -> (r: Result<BackgroundJob, HarpeError>)
    ensures
        r is Ok <==> JobKind::from_db_text(row.kind@) is Some && JobStatus::from_db_text(
            row.status@,
        ) is Some && json_text_error(row.payload_json@) is None,
        (JobKind::from_db_text(row.kind@) is Some && JobStatus::from_db_text(row.status@) is Some
            && json_text_error(row.payload_json@) is Some) ==> (r matches Err(HarpeError::Store(m))
            && m@ == json_text_error(row.payload_json@)->0),
        JobKind::from_db_text(row.kind@) is None ==> (r matches Err(HarpeError::Store(m))
            && m@ == unknown_kind_message(row.kind@)),
        (JobKind::from_db_text(row.kind@) is Some && JobStatus::from_db_text(row.status@) is None)
            ==> (r matches Err(HarpeError::Store(m)) && m@ == unknown_status_message(row.status@)),
        r matches Ok(job) ==> {
            &&& job.id == row.uid
            &&& Some(job.kind) == JobKind::from_db_text(row.kind@)
            &&& Some(job.status) == JobStatus::from_db_text(row.status@)
            &&& job.payload_json == row.payload_json
            &&& job.attempts == row.attempts
            &&& job.max_attempts == row.max_attempts
            &&& job.last_error == row.last_error
            &&& job.run_after == row.run_after
            &&& job.created_at == row.created_at
            &&& job.updated_at == row.updated_at
        },
{
    let kind = match JobKind::from_db_value(row.kind.as_str()) {
        Some(k) => k,
        None => {
            return Err(HarpeError::Store(concat_str("unknown job kind ", row.kind.as_str())));
        },
    };
    let status = match JobStatus::from_db_value(row.status.as_str()) {
        Some(s) => s,
        None => {
            return Err(HarpeError::Store(concat_str("unknown job status ", row.status.as_str())));
        },
    };
    match check_json_text(row.payload_json.as_str()) {
        Some(error) => {
            return Err(HarpeError::Store(error));
        },
        None => {},
    }
    Ok(
        BackgroundJob {
            id: row.uid,
            kind,
            status,
            payload_json: row.payload_json,
            attempts: row.attempts,
            max_attempts: row.max_attempts,
            last_error: row.last_error,
            run_after: row.run_after,
            created_at: row.created_at,
            updated_at: row.updated_at,
        },
    )
}


/// A stored message as the database holds it: its role as text.
#[derive(Clone, Debug, PartialEq, Eq)]
pub struct MessageRow {
    pub uid: String,
    pub session_id: String,
    pub role: String,
    pub content: String,
    pub created_at: Timestamp,
}

/// The message of the error for a stored message whose role is unknown.
pub open spec fn unknown_role_message(role: Seq<char>) -> Seq<char> {
    "unknown message role "@ + role
}

/// Reads a stored message back into the domain record; an unknown role is a
/// store error.
pub fn message_from_row(row: MessageRow) -> (r: Result<Message, HarpeError>)
    ensures
        r is Ok <==> MessageRole::from_db_text(row.role@) is Some,
        MessageRole::from_db_text(row.role@) is None ==> (r matches Err(HarpeError::Store(m))
            && m@ == unknown_role_message(row.role@)),
        r matches Ok(m) ==> {
            &&& m.id == row.uid
            &&& m.session_id == row.session_id
            &&& Some(m.role) == MessageRole::from_db_text(row.role@)
            &&& m.content == row.content
            &&& m.created_at == row.created_at
        },
{
    match MessageRole::from_db_value(row.role.as_str()) {
        Some(role) => Ok(
            Message {
                id: row.uid,
                session_id: row.session_id,
                role,
                content: row.content,
                created_at: row.created_at,
            },
        ),
        None => Err(HarpeError::Store(concat_str("unknown message role ", row.role.as_str()))),
    }
}

/// Every job operation keeps a stored job readable: a newly queued job, any
/// state change of a readable job and an administrative requeue all give
/// rows whose kind and status read back and whose budget lies in `1..=10`.
pub proof fn job_operations_keep_rows_valid(
    input: NewBackgroundJob,
    uid: Seq<char>,
    row: JobRow,
    status: JobStatus,
    attempts: Option<i32>,
    last_error: Option<String>,
    run_after: Option<Timestamp>,
    max_attempts: Option<i32>,
    now: Timestamp,
    out: JobRow,
)
    ensures
        spec_new_job_row(input, uid, now, out) ==> job_row_is_valid(out),
        job_row_is_valid(row) && spec_update_job_state(row, status, attempts, last_error, run_after, now, out) ==> job_row_is_valid(out),
        job_row_is_valid(row) && spec_retry_failed_job(row, max_attempts, now, out) ==> job_row_is_valid(out),
{
    crate::domain::job_kind_db_round_trip(input.kind, input.kind.db_text());
    crate::domain::job_status_db_round_trip(status, status.db_text());
    crate::domain::job_status_db_round_trip(JobStatus::Pending, JobStatus::Pending.db_text());
}

/// A queued job reads back as a pending job of its kind with its payload, no
/// attempts and no error.
pub proof fn queued_job_reads_back(input: NewBackgroundJob, uid: Seq<char>, now: Timestamp, row: JobRow)
    requires
        spec_new_job_row(input, uid, now, row),
    ensures
        JobKind::from_db_text(row.kind@) == Some(input.kind),
        JobStatus::from_db_text(row.status@) == Some(JobStatus::Pending),
        row.attempts == 0,
        row.last_error is None,
{
    crate::domain::job_kind_db_round_trip(input.kind, input.kind.db_text());
    crate::domain::job_status_db_round_trip(JobStatus::Pending, JobStatus::Pending.db_text());
}

/// Claiming a job counts exactly one more attempt, unless the count is
/// already at its maximum.
pub proof fn claiming_counts_one_attempt(row: JobRow, now: Timestamp, out: JobRow)
    requires
        spec_update_job_state(row, JobStatus::Running, Some(saturating_inc(row.attempts)), None, None, now, out),
    ensures
        row.attempts < i32::MAX ==> out.attempts == row.attempts + 1,
        out.attempts >= row.attempts,
        out.last_error is None,
{
}


/// The words of `query` that occur in the lowercase form of `content`.
pub open spec fn matched_terms(query: Seq<char>, content: Seq<char>) -> Seq<Seq<char>> {
    words(query).filter(|t: Seq<char>| contains_seq(lowercase(content), t))
}

/// How many of the words of `query` occur in the lowercase form of
/// `content`, and how many words `query` has; the lexical score of a memory
/// is the first over the second, and zero when there are no words.
pub fn lexical_match_counts(query: &str, content: &str) -> (r: (usize, usize))
    ensures
        r.0 == matched_terms(query@, content@).len(),
        r.1 == words(query@).len(),
{
    let lowered = to_lowercase_str(content);
    let hay = chars_of(lowered.as_str());
    let q = chars_of(query);
    let terms = split_words(&q);
    let ghost ts = views_of(terms@);
    let ghost p = |t: Seq<char>| contains_seq(lowercase(content@), t);
    let mut matches: usize = 0;
    let mut k: usize = 0;
    while k < terms.len()
        invariant
            k <= terms@.len(),
            ts == views_of(terms@),
            ts == words(query@),
            hay@ == lowercase(content@),
            p == (|t: Seq<char>| contains_seq(lowercase(content@), t)),
            matches == ts.take(k as int).filter(p).len(),
            matches <= k,
        decreases terms.len() - k,
    {
        assert(ts.take(k + 1).drop_last() =~= ts.take(k as int));
        reveal_with_fuel(Seq::filter, 1);
        if vec_contains(&hay, &terms[k]) {
            matches = matches + 1;
        }
        k = k + 1;
    }
    assert(ts.take(terms@.len() as int) =~= ts);
    (matches, terms.len())
}



/// A memory chunk a search found, as ranking sees it: the chunk's id, when
/// it was written, and its score as an ordering key, a larger key for a
/// better score and 0 for no score at all.
#[derive(Clone, Debug, PartialEq, Eq)]
pub struct RankCandidate {
    pub chunk_id: String,
    pub created_at: Timestamp,
    pub score: u64,
}

/// A hit of a memory search: the position of the candidate that brought
/// its chunk in, and the best score of any candidate of that chunk.
#[derive(Clone, Copy, Debug, PartialEq, Eq, Structural)]
pub struct RankedHit {
    pub position: usize,
    pub score: u64,
}

/// The index of the first of `hits` whose chunk is `id`, or -1 when none is.
pub open spec fn hit_index(hits: Seq<RankedHit>, c: Seq<RankCandidate>, id: Seq<char>) -> int
    decreases hits.len(),
{
    if hits.len() == 0 {
        -1
    } else {
        let i = hit_index(hits.drop_last(), c, id);
        if i >= 0 {
            i
        } else if c[hits.last().position as int].chunk_id@ == id {
            hits.len() - 1
        } else {
            -1
        }
    }
}

/// The larger of `a` and `b`.
pub open spec fn max_u64(a: u64, b: u64) -> u64 {
    if a >= b {
        a
    } else {
        b
    }
}

/// The hits of the first `n` candidates `c`, in the order their chunks first
/// came in: a chunk already hit keeps its place and its best score; a new
/// chunk is added when it scored, or when `keep_unscored` (the query was
/// empty); a new chunk with no score is passed over.
pub open spec fn search_hits(c: Seq<RankCandidate>, n: nat, keep_unscored: bool) -> Seq<RankedHit>
    decreases n,
{
    if n == 0 || n > c.len() {
        Seq::empty()
    } else {
        let prev = search_hits(c, (n - 1) as nat, keep_unscored);
        let cand = c[n - 1];
        let i = hit_index(prev, c, cand.chunk_id@);
        if i >= 0 {
            prev.update(i, RankedHit { position: prev[i].position, score: max_u64(prev[i].score, cand.score) })
        } else if cand.score > 0 || keep_unscored {
            prev.push(RankedHit { position: (n - 1) as usize, score: cand.score })
        } else {
            prev
        }
    }
}

/// `hit_index` finds the first hit of the chunk, and -1 means there is none.
proof fn hit_index_finds(hits: Seq<RankedHit>, c: Seq<RankCandidate>, id: Seq<char>)
    ensures
        -1 <= hit_index(hits, c, id) < hits.len(),
        hit_index(hits, c, id) >= 0 ==> c[hits[hit_index(hits, c, id)].position as int].chunk_id@
            == id,
        forall|j: int|
            0 <= j < hits.len() && (hit_index(hits, c, id) == -1 || j < hit_index(hits, c, id))
                ==> c[(#[trigger] hits[j]).position as int].chunk_id@ != id,
    decreases hits.len(),
{
    if hits.len() > 0 {
        let t = hits.drop_last();
        hit_index_finds(t, c, id);
        assert forall|j: int| 0 <= j < t.len() implies #[trigger] hits[j] == t[j] by {}
    }
}

/// The hits of a search keep the order of their positions, and every
/// position is that of a candidate already read.
proof fn search_hits_positions(c: Seq<RankCandidate>, n: nat, keep_unscored: bool)
    requires
        c.len() <= usize::MAX,
    ensures
        forall|a: int, b: int|
            0 <= a < b < search_hits(c, n, keep_unscored).len() ==> (#[trigger] search_hits(
                c,
                n,
                keep_unscored,
            )[a]).position < (#[trigger] search_hits(c, n, keep_unscored)[b]).position,
        forall|a: int|
            0 <= a < search_hits(c, n, keep_unscored).len() ==> (#[trigger] search_hits(
                c,
                n,
                keep_unscored,
            )[a]).position < n,
    decreases n,
{
    if n > 0 && n <= c.len() {
        search_hits_positions(c, (n - 1) as nat, keep_unscored);
        let prev = search_hits(c, (n - 1) as nat, keep_unscored);
        hit_index_finds(prev, c, c[n - 1].chunk_id@);
    }
}

/// No two hits of a search are of the same chunk.
proof fn search_hits_distinct(c: Seq<RankCandidate>, n: nat, keep_unscored: bool)
    requires
        c.len() <= usize::MAX,
    ensures
        forall|a: int, b: int|
            0 <= a < b < search_hits(c, n, keep_unscored).len() ==> c[(#[trigger] search_hits(
                c,
                n,
                keep_unscored,
            )[a]).position as int].chunk_id@ != c[(#[trigger] search_hits(
                c,
                n,
                keep_unscored,
            )[b]).position as int].chunk_id@,
    decreases n,
{
    if n > 0 && n <= c.len() {
        search_hits_distinct(c, (n - 1) as nat, keep_unscored);
        let prev = search_hits(c, (n - 1) as nat, keep_unscored);
        hit_index_finds(prev, c, c[n - 1].chunk_id@);
        let now = search_hits(c, n, keep_unscored);
        assert forall|a: int, b: int| 0 <= a < b < now.len() implies c[now[a].position as int].chunk_id@
            != c[now[b].position as int].chunk_id@ by {
            if b < prev.len() {
                assert(now[a].position == prev[a].position && now[b].position == prev[b].position);
            } else {
                assert(now[a] == prev[a]);
                assert(now[b].position == n - 1);
                assert(c[prev[a].position as int].chunk_id@ != c[n - 1].chunk_id@);
            }
        }
    }
}

/// Whether the candidate `j` of `c` is of the chunk the hit `h` stands for.
pub open spec fn same_chunk(c: Seq<RankCandidate>, j: int, h: RankedHit) -> bool {
    c[j].chunk_id@ == c[h.position as int].chunk_id@
}

/// Whether the candidate `j` counts for a search: it has a score, or the
/// query was empty.
pub open spec fn counts(c: Seq<RankCandidate>, j: int, keep_unscored: bool) -> bool {
    c[j].score > 0 || keep_unscored
}

/// Each of `hits` has a score at least that of every one of the first `n`
/// candidates of its chunk.
pub open spec fn has_best_scores(c: Seq<RankCandidate>, n: nat, hits: Seq<RankedHit>) -> bool {
    forall|i: int, j: int|
        #![trigger hits[i], c[j]]
        0 <= i < hits.len() && 0 <= j < n && same_chunk(c, j, hits[i]) ==> c[j].score
            <= hits[i].score
}

/// Whether one of the first `n` candidates of the chunk of `h` has the
/// score of `h`.
pub open spec fn score_was_seen(c: Seq<RankCandidate>, n: nat, h: RankedHit) -> bool {
    exists|j: int| 0 <= j < n && #[trigger] same_chunk(c, j, h) && c[j].score == h.score
}

/// Each of `hits` has the score of one of the first `n` candidates of its chunk.
pub open spec fn has_seen_scores(c: Seq<RankCandidate>, n: nat, hits: Seq<RankedHit>) -> bool {
    forall|i: int| 0 <= i < hits.len() ==> score_was_seen(c, n, #[trigger] hits[i])
}

/// Whether one of `hits` is of the chunk of the candidate `j`.
pub open spec fn chunk_is_hit(c: Seq<RankCandidate>, j: int, hits: Seq<RankedHit>) -> bool {
    exists|i: int| 0 <= i < hits.len() && #[trigger] same_chunk(c, j, hits[i])
}

/// Every chunk with one of the first `n` candidates that counts has a hit.
pub open spec fn hits_every_counted_chunk(c: Seq<RankCandidate>, n: nat, keep_unscored: bool, hits: Seq<RankedHit>) -> bool {
    forall|j: int| 0 <= j < n && #[trigger] counts(c, j, keep_unscored) ==> chunk_is_hit(c, j, hits)
}

/// Each of `hits` stands at the first candidate of its chunk that counts.
pub open spec fn stand_at_first_counted(c: Seq<RankCandidate>, keep_unscored: bool, hits: Seq<RankedHit>) -> bool {
    &&& forall|i: int| 0 <= i < hits.len() ==> counts(c, (#[trigger] hits[i]).position as int, keep_unscored)
    &&& forall|i: int, j: int|
        #![trigger hits[i], c[j]]
        0 <= i < hits.len() && 0 <= j < hits[i].position && same_chunk(c, j, hits[i]) ==> !counts(
            c,
            j,
            keep_unscored,
        )
}

/// The facts the steps of `search_hits` carry from one candidate to the next.
pub open spec fn hits_facts(c: Seq<RankCandidate>, n: nat, keep_unscored: bool, hits: Seq<RankedHit>) -> bool {
    &&& has_best_scores(c, n, hits)
    &&& has_seen_scores(c, n, hits)
    &&& hits_every_counted_chunk(c, n, keep_unscored, hits)
    &&& stand_at_first_counted(c, keep_unscored, hits)
}

/// A candidate of a chunk already hit raises the hit's score to the better
/// of the two.
proof fn best_score_step_merge(c: Seq<RankCandidate>, m: nat, keep_unscored: bool, prev: Seq<RankedHit>, idx: int)
    requires
        m < c.len(),
        hits_facts(c, m, keep_unscored, prev),
        0 <= idx < prev.len(),
        same_chunk(c, m as int, prev[idx]),
        forall|a: int, b: int|
            0 <= a < b < prev.len() ==> c[(#[trigger] prev[a]).position as int].chunk_id@ != c[(
            #[trigger] prev[b]).position as int].chunk_id@,
    ensures
        hits_facts(
            c,
            m + 1,
            keep_unscored,
            prev.update(idx, RankedHit { position: prev[idx].position, score: max_u64(prev[idx].score, c[m as int].score) }),
        ),
{
    let now = prev.update(idx, RankedHit { position: prev[idx].position, score: max_u64(prev[idx].score, c[m as int].score) });
    let n: nat = m + 1;
    assert forall|i: int| 0 <= i < now.len() implies (#[trigger] now[i]).position == prev[i].position by {}
    assert forall|i: int, j: int|
        #![trigger now[i], c[j]]
        0 <= i < now.len() && 0 <= j < n && same_chunk(c, j, now[i]) implies c[j].score <= now[i].score by {
        if j == m {
            if i != idx {
                if i < idx {
                    assert(c[prev[i].position as int].chunk_id@ != c[prev[idx].position as int].chunk_id@);
                } else {
                    assert(c[prev[idx].position as int].chunk_id@ != c[prev[i].position as int].chunk_id@);
                }
            }
        } else {
            assert(same_chunk(c, j, prev[i]));
            assert(c[j].score <= prev[i].score);
        }
    }
    assert forall|i: int| 0 <= i < now.len() implies score_was_seen(c, n, #[trigger] now[i]) by {
        if i == idx && c[m as int].score > prev[i].score {
            assert(same_chunk(c, m as int, now[i]));
        } else {
            assert(score_was_seen(c, m, prev[i]));
            let j = choose|j: int| 0 <= j < m && #[trigger] same_chunk(c, j, prev[i]) && c[j].score == prev[i].score;
            assert(same_chunk(c, j, now[i]));
        }
    }
    assert forall|j: int| 0 <= j < n && #[trigger] counts(c, j, keep_unscored) implies chunk_is_hit(c, j, now) by {
        if j == m {
            assert(same_chunk(c, j, now[idx]));
        } else {
            assert(chunk_is_hit(c, j, prev));
            let i = choose|i: int| 0 <= i < prev.len() && #[trigger] same_chunk(c, j, prev[i]);
            assert(same_chunk(c, j, now[i]));
        }
    }
    assert forall|i: int, j: int|
        #![trigger now[i], c[j]]
        0 <= i < now.len() && 0 <= j < now[i].position && same_chunk(c, j, now[i]) implies !counts(
        c,
        j,
        keep_unscored,
    ) by {
        assert(same_chunk(c, j, prev[i]));
    }
    assert forall|i: int| 0 <= i < now.len() implies counts(c, (#[trigger] now[i]).position as int, keep_unscored) by {
        assert(counts(c, prev[i].position as int, keep_unscored));
    }
}

/// A counted candidate of a chunk not yet hit becomes a new hit.
proof fn best_score_step_new(c: Seq<RankCandidate>, m: nat, keep_unscored: bool, prev: Seq<RankedHit>)
    requires
        m < c.len(),
        m <= usize::MAX,
        hits_facts(c, m, keep_unscored, prev),
        forall|a: int| 0 <= a < prev.len() ==> !same_chunk(c, m as int, #[trigger] prev[a]),
        counts(c, m as int, keep_unscored),
    ensures
        hits_facts(c, m + 1, keep_unscored, prev.push(RankedHit { position: m as usize, score: c[m as int].score })),
{
    let now = prev.push(RankedHit { position: m as usize, score: c[m as int].score });
    let n: nat = m + 1;
    let last = prev.len() as int;
    assert(now[last].position == m);
    assert forall|j: int| 0 <= j < m && c[j].chunk_id@ == c[m as int].chunk_id@ implies !counts(c, j, keep_unscored) by {
        if counts(c, j, keep_unscored) {
            assert(chunk_is_hit(c, j, prev));
            let i = choose|i: int| 0 <= i < prev.len() && #[trigger] same_chunk(c, j, prev[i]);
            assert(!same_chunk(c, m as int, prev[i]));
        }
    }
    assert forall|i: int, j: int|
        #![trigger now[i], c[j]]
        0 <= i < now.len() && 0 <= j < n && same_chunk(c, j, now[i]) implies c[j].score <= now[i].score by {
        if i < prev.len() {
            assert(now[i] == prev[i]);
            if j == m {
                assert(!same_chunk(c, m as int, prev[i]));
            }
        } else {
            if j < m {
                assert(!counts(c, j, keep_unscored));
            }
        }
    }
    assert forall|i: int| 0 <= i < now.len() implies score_was_seen(c, n, #[trigger] now[i]) by {
        if i < prev.len() {
            assert(now[i] == prev[i]);
            assert(score_was_seen(c, m, prev[i]));
            let j = choose|j: int| 0 <= j < m && #[trigger] same_chunk(c, j, prev[i]) && c[j].score == prev[i].score;
            assert(same_chunk(c, j, now[i]));
        } else {
            assert(same_chunk(c, m as int, now[i]));
        }
    }
    assert forall|j: int| 0 <= j < n && #[trigger] counts(c, j, keep_unscored) implies chunk_is_hit(c, j, now) by {
        if j == m {
            assert(same_chunk(c, j, now[last]));
        } else {
            assert(chunk_is_hit(c, j, prev));
            let i = choose|i: int| 0 <= i < prev.len() && #[trigger] same_chunk(c, j, prev[i]);
            assert(now[i] == prev[i]);
            assert(same_chunk(c, j, now[i]));
        }
    }
    assert forall|i: int, j: int|
        #![trigger now[i], c[j]]
        0 <= i < now.len() && 0 <= j < now[i].position && same_chunk(c, j, now[i]) implies !counts(
        c,
        j,
        keep_unscored,
    ) by {
        if i < prev.len() {
            assert(now[i] == prev[i]);
        }
    }
    assert forall|i: int| 0 <= i < now.len() implies counts(c, (#[trigger] now[i]).position as int, keep_unscored) by {
        if i < prev.len() {
            assert(now[i] == prev[i]);
        }
    }
}

/// A candidate that does not count, of a chunk not yet hit, changes nothing.
proof fn best_score_step_skip(c: Seq<RankCandidate>, m: nat, keep_unscored: bool, prev: Seq<RankedHit>)
    requires
        m < c.len(),
        hits_facts(c, m, keep_unscored, prev),
        !counts(c, m as int, keep_unscored),
    ensures
        hits_facts(c, m + 1, keep_unscored, prev),
{
    let n: nat = m + 1;
    assert forall|i: int, j: int|
        #![trigger prev[i], c[j]]
        0 <= i < prev.len() && 0 <= j < n && same_chunk(c, j, prev[i]) implies c[j].score <= prev[i].score by {
        if j < m {
            assert(c[j].score <= prev[i].score);
        }
    }
    assert forall|i: int| 0 <= i < prev.len() implies score_was_seen(c, n, #[trigger] prev[i]) by {
        assert(score_was_seen(c, m, prev[i]));
        let j = choose|j: int| 0 <= j < m && #[trigger] same_chunk(c, j, prev[i]) && c[j].score == prev[i].score;
        assert(same_chunk(c, j, prev[i]));
    }
}

/// What the hits of a search are, over its first `n` candidates: each hit
/// carries the best score of any candidate of its chunk, a score one of
/// them has; every chunk with a candidate that counts (one with a score, or
/// any when the query was empty) has a hit; and a hit stands at the first
/// candidate of its chunk that counts.
pub proof fn search_hits_keep_each_chunks_best_score(c: Seq<RankCandidate>, n: nat, keep_unscored: bool)
    requires
        c.len() <= usize::MAX,
        n <= c.len(),
    ensures
        hits_facts(c, n, keep_unscored, search_hits(c, n, keep_unscored)),
    decreases n,
{
    if n > 0 {
        let m = (n - 1) as nat;
        search_hits_keep_each_chunks_best_score(c, m, keep_unscored);
        search_hits_distinct(c, m, keep_unscored);
        search_hits_positions(c, m, keep_unscored);
        let prev = search_hits(c, m, keep_unscored);
        hit_index_finds(prev, c, c[m as int].chunk_id@);
        let idx = hit_index(prev, c, c[m as int].chunk_id@);
        if idx >= 0 {
            best_score_step_merge(c, m, keep_unscored, prev, idx);
        } else if counts(c, m as int, keep_unscored) {
            best_score_step_new(c, m, keep_unscored, prev);
        } else {
            best_score_step_skip(c, m, keep_unscored, prev);
        }
    }
}

/// The first of `hits` whose chunk is the chunk of `id`.
fn find_hit(hits: &Vec<RankedHit>, candidates: &Vec<RankCandidate>, id: &str) -> (r: Option<usize>)
    requires
        forall|j: int| 0 <= j < hits@.len() ==> (#[trigger] hits@[j]).position < candidates@.len(),
    ensures
        match r {
            Some(i) => hit_index(hits@, candidates@, id@) == i as int && i < hits@.len(),
            None => hit_index(hits@, candidates@, id@) == -1,
        },
{
    proof {
        hit_index_finds(hits@, candidates@, id@);
    }
    let mut j: usize = 0;
    while j < hits.len()
        invariant
            j <= hits@.len(),
            forall|jj: int|
                0 <= jj < hits@.len() ==> (#[trigger] hits@[jj]).position < candidates@.len(),
            forall|jj: int| 0 <= jj < j ==> candidates@[(#[trigger] hits@[jj]).position as int].chunk_id@ != id@,
            -1 <= hit_index(hits@, candidates@, id@) < hits@.len(),
            hit_index(hits@, candidates@, id@) >= 0 ==> candidates@[hits@[hit_index(hits@, candidates@, id@)].position as int].chunk_id@ == id@,
            forall|jj: int|
                0 <= jj < hits@.len() && (hit_index(hits@, candidates@, id@) == -1 || jj < hit_index(hits@, candidates@, id@))
                    ==> candidates@[(#[trigger] hits@[jj]).position as int].chunk_id@ != id@,
        decreases hits.len() - j,
    {
        let position = hits[j].position;
        if str_eq(candidates[position].chunk_id.as_str(), id) {
            return Some(j);
        }
        j = j + 1;
    }
    None
}

/// The hits of `candidates`, as `search_hits` describes them.
fn collect_hits(candidates: &Vec<RankCandidate>, keep_unscored: bool) -> (hits: Vec<RankedHit>)
    ensures
        hits@ == search_hits(candidates@, candidates@.len(), keep_unscored),
{
    let mut hits: Vec<RankedHit> = Vec::new();
    let mut k: usize = 0;
    while k < candidates.len()
        invariant
            k <= candidates@.len(),
            hits@ == search_hits(candidates@, k as nat, keep_unscored),
        decreases candidates.len() - k,
    {
        proof {
            search_hits_positions(candidates@, k as nat, keep_unscored);
        }
        let cand = &candidates[k];
        match find_hit(&hits, candidates, cand.chunk_id.as_str()) {
            Some(i) => {
                let old_hit = hits[i];
                let best = if old_hit.score >= cand.score {
                    old_hit.score
                } else {
                    cand.score
                };
                hits.set(i, RankedHit { position: old_hit.position, score: best });
            },
            None => {
                if cand.score > 0 || keep_unscored {
                    hits.push(RankedHit { position: k, score: cand.score });
                }
            },
        }
        k = k + 1;
    }
    hits
}


/// Whether the instant `a` comes after the instant `b`.
pub open spec fn later_than(a: Timestamp, b: Timestamp) -> bool {
    a.secs > b.secs || (a.secs == b.secs && a.nanos > b.nanos)
}

/// Whether the hit `a` ranks before the hit `b` among the hits of the
/// candidates `c`: the better score first, on equal scores the newer chunk,
/// and on equal times the hit that came in first.
pub open spec fn ranks_before(a: RankedHit, b: RankedHit, c: Seq<RankCandidate>) -> bool {
    let ta = c[a.position as int].created_at;
    let tb = c[b.position as int].created_at;
    a.score > b.score || (a.score == b.score && (later_than(ta, tb) || (ta == tb && a.position
        < b.position)))
}

/// Ranking is a strict order that sets any two hits of different positions
/// apart.
proof fn ranks_before_is_strict_total(a: RankedHit, b: RankedHit, d: RankedHit, c: Seq<RankCandidate>)
    ensures
        !ranks_before(a, a, c),
        ranks_before(a, b, c) && ranks_before(b, d, c) ==> ranks_before(a, d, c),
        a.position != b.position ==> ranks_before(a, b, c) || ranks_before(b, a, c),
{
}

/// Whether the hit `a` ranks before the hit `b`.
fn ranks_before_exec(a: RankedHit, b: RankedHit, candidates: &Vec<RankCandidate>) -> (r: bool)
    requires
        a.position < candidates@.len(),
        b.position < candidates@.len(),
    ensures
        r == ranks_before(a, b, candidates@),
{
    if a.score != b.score {
        return a.score > b.score;
    }
    let ta = candidates[a.position].created_at;
    let tb = candidates[b.position].created_at;
    if ta.secs != tb.secs {
        return ta.secs > tb.secs;
    }
    if ta.nanos != tb.nanos {
        return ta.nanos > tb.nanos;
    }
    a.position < b.position
}

/// The first place in `out` whose hit `h` ranks before.
fn insertion_point(out: &Vec<RankedHit>, h: RankedHit, candidates: &Vec<RankCandidate>) -> (p: usize)
    requires
        h.position < candidates@.len(),
        forall|i: int| 0 <= i < out@.len() ==> (#[trigger] out@[i]).position < candidates@.len(),
    ensures
        p <= out@.len(),
        forall|q: int| 0 <= q < p ==> !ranks_before(h, #[trigger] out@[q], candidates@),
        p < out@.len() ==> ranks_before(h, out@[p as int], candidates@),
{
    let mut p: usize = 0;
    while p < out.len()
        invariant
            p <= out@.len(),
            h.position < candidates@.len(),
            forall|i: int| 0 <= i < out@.len() ==> (#[trigger] out@[i]).position < candidates@.len(),
            forall|q: int| 0 <= q < p ==> !ranks_before(h, #[trigger] out@[q], candidates@),
        decreases out.len() - p,
    {
        if ranks_before_exec(h, out[p], candidates) {
            return p;
        }
        p = p + 1;
    }
    p
}

/// `hits` ordered by rank, best first.
fn sort_hits(hits: &Vec<RankedHit>, candidates: &Vec<RankCandidate>) -> (out: Vec<RankedHit>)
    requires
        forall|a: int, b: int|
            0 <= a < b < hits@.len() ==> (#[trigger] hits@[a]).position < (#[trigger] hits@[b]).position,
        forall|a: int| 0 <= a < hits@.len() ==> (#[trigger] hits@[a]).position < candidates@.len(),
    ensures
        out@.to_multiset() == hits@.to_multiset(),
        forall|i: int, j: int|
            0 <= i < j < out@.len() ==> ranks_before(#[trigger] out@[i], #[trigger] out@[j], candidates@),
{
    broadcast use vstd::seq_lib::group_to_multiset_ensures;

    let mut out: Vec<RankedHit> = Vec::new();
    let mut k: usize = 0;
    while k < hits.len()
        invariant
            k <= hits@.len(),
            forall|a: int, b: int|
                0 <= a < b < hits@.len() ==> (#[trigger] hits@[a]).position < (#[trigger] hits@[b]).position,
            forall|a: int| 0 <= a < hits@.len() ==> (#[trigger] hits@[a]).position < candidates@.len(),
            out@.to_multiset() == hits@.take(k as int).to_multiset(),
            forall|i: int| 0 <= i < out@.len() ==> hits@.take(k as int).contains(#[trigger] out@[i]),
            forall|i: int, j: int|
                0 <= i < j < out@.len() ==> ranks_before(#[trigger] out@[i], #[trigger] out@[j], candidates@),
        decreases hits.len() - k,
    {
        let h = hits[k];
        assert forall|i: int| 0 <= i < out@.len() implies (#[trigger] out@[i]).position < h.position
            && out@[i].position < candidates@.len() by {
            assert(hits@.take(k as int).contains(out@[i]));
            let j = choose|j: int| 0 <= j < k && hits@.take(k as int)[j] == out@[i];
            assert(hits@[j] == out@[i]);
        }
        let p = insertion_point(&out, h, candidates);
        let ghost before = out@;
        out.insert(p, h);
        proof {
            assert(hits@.take(k + 1) =~= hits@.take(k as int).push(h));
            assert(out@ == before.insert(p as int, h));
            vstd::seq_lib::to_multiset_insert(before, p as int, h);
            vstd::seq_lib::to_multiset_build(hits@.take(k as int), h);
            assert(out@.to_multiset() == before.to_multiset().insert(h));
            assert(hits@.take(k + 1).to_multiset() == hits@.take(k as int).to_multiset().insert(h));
            assert forall|i: int| 0 <= i < out@.len() implies hits@.take(k + 1).contains(
                #[trigger] out@[i],
            ) by {
                if i < p {
                    assert(out@[i] == before[i]);
                    let j = choose|j: int| 0 <= j < k && hits@.take(k as int)[j] == before[i];
                    assert(hits@.take(k + 1)[j] == before[i]);
                } else if i == p {
                    assert(hits@.take(k + 1)[k as int] == h);
                } else {
                    assert(out@[i] == before[i - 1]);
                    let j = choose|j: int| 0 <= j < k && hits@.take(k as int)[j] == before[i - 1];
                    assert(hits@.take(k + 1)[j] == before[i - 1]);
                }
            }
            assert forall|i: int, j: int| 0 <= i < j < out@.len() implies ranks_before(
                #[trigger] out@[i],
                #[trigger] out@[j],
                candidates@,
            ) by {
                if j < p {
                    assert(out@[i] == before[i] && out@[j] == before[j]);
                } else if j == p {
                    assert(out@[i] == before[i]);
                    ranks_before_is_strict_total(h, before[i], h, candidates@);
                } else if i > p {
                    assert(out@[i] == before[i - 1] && out@[j] == before[j - 1]);
                } else if i == p {
                    assert(out@[j] == before[j - 1]);
                    if j - 1 > p {
                        ranks_before_is_strict_total(h, before[p as int], before[j - 1], candidates@);
                    }
                } else {
                    assert(out@[i] == before[i] && out@[j] == before[j - 1]);
                }
            }
        }
        k = k + 1;
    }
    assert(hits@.take(hits@.len() as int) =~= hits@);
    out
}

/// The hits of a memory search, best first and at most the normalized
/// `limit` of them: the hits of `candidates` as `search_hits` gives them
/// (candidates without a score are kept only for an empty query), ordered
/// by score, then by the newer chunk, then by the order they came in.
pub fn rank_memory_candidates(candidates: &Vec<RankCandidate>, query_is_empty: bool, limit: usize) -> (r: Vec<RankedHit>)
    ensures
        ({
            let hits = search_hits(candidates@, candidates@.len(), query_is_empty);
            &&& r@.len() == if hits.len() < spec_normalize_limit(limit as nat) {
                hits.len()
            } else {
                spec_normalize_limit(limit as nat)
            }
            &&& forall|i: int, j: int|
                0 <= i < j < r@.len() ==> ranks_before(#[trigger] r@[i], #[trigger] r@[j], candidates@)
            &&& forall|i: int| 0 <= i < r@.len() ==> hits.contains(#[trigger] r@[i])
            &&& forall|i: int, j: int|
                #![trigger r@[i], candidates@[j]]
                0 <= i < r@.len() && 0 <= j < candidates@.len() && same_chunk(candidates@, j, r@[i])
                    ==> candidates@[j].score <= r@[i].score
            &&& forall|i: int| 0 <= i < r@.len() ==> score_was_seen(candidates@, candidates@.len(), #[trigger] r@[i])
            &&& forall|i: int, j: int|
                0 <= i < j < r@.len() ==> candidates@[(#[trigger] r@[i]).position as int].chunk_id@
                    != candidates@[(#[trigger] r@[j]).position as int].chunk_id@
            &&& forall|h: RankedHit|
                #![trigger hits.contains(h), r@.contains(h)]
                hits.contains(h) && !r@.contains(h) ==> forall|i: int|
                    0 <= i < r@.len() ==> ranks_before(#[trigger] r@[i], h, candidates@)
        }),
{
    let hits = collect_hits(candidates, query_is_empty);
    let count = candidates.len();
    proof {
        assert(candidates@.len() == count);
        search_hits_positions(candidates@, candidates@.len(), query_is_empty);
        search_hits_distinct(candidates@, candidates@.len(), query_is_empty);
        search_hits_keep_each_chunks_best_score(candidates@, candidates@.len(), query_is_empty);
    }
    let mut ranked = sort_hits(&hits, candidates);
    let ghost all = ranked@;
    proof {
        vstd::seq_lib::to_multiset_len(all);
        vstd::seq_lib::to_multiset_len(hits@);
        assert(all.len() == hits@.len());
    }
    let n = normalize_limit(limit);
    if n < ranked.len() {
        ranked.truncate(n);
    }
    proof {
        assert(ranked@ =~= all.take(ranked@.len() as int));
        assert forall|i: int| 0 <= i < ranked@.len() implies hits@.contains(#[trigger] ranked@[i]) by {
            assert(all[i] == ranked@[i]);
            assert(all.contains(all[i]));
            vstd::seq_lib::to_multiset_contains(all, all[i]);
            vstd::seq_lib::to_multiset_contains(hits@, all[i]);
        }
        assert forall|h: RankedHit| hits@.contains(h) && !ranked@.contains(h) implies forall|i: int|
            0 <= i < ranked@.len() ==> ranks_before(#[trigger] ranked@[i], h, candidates@) by {
            vstd::seq_lib::to_multiset_contains(all, h);
            vstd::seq_lib::to_multiset_contains(hits@, h);
            assert(all.contains(h));
            let idx = choose|idx: int| 0 <= idx < all.len() && all[idx] == h;
            if idx < ranked@.len() {
                assert(ranked@[idx] == h);
            }
            assert forall|i: int| 0 <= i < ranked@.len() implies ranks_before(
                #[trigger] ranked@[i],
                h,
                candidates@,
            ) by {
                assert(ranked@[i] == all[i]);
            }
        }
        assert forall|i: int, j: int| 0 <= i < j < ranked@.len() implies candidates@[(
            #[trigger] ranked@[i]).position as int].chunk_id@ != candidates@[(
            #[trigger] ranked@[j]).position as int].chunk_id@ by {
            ranks_before_is_strict_total(ranked@[i], ranked@[i], ranked@[i], candidates@);
            assert(hits@.contains(ranked@[i]) && hits@.contains(ranked@[j]));
            let a = choose|a: int| 0 <= a < hits@.len() && hits@[a] == ranked@[i];
            let b = choose|b: int| 0 <= b < hits@.len() && hits@[b] == ranked@[j];
            assert(a != b);
            if a < b {
                assert(hits@[a] == ranked@[i] && hits@[b] == ranked@[j]);
            } else {
                assert(hits@[b] == ranked@[j] && hits@[a] == ranked@[i]);
            }
        }
        assert forall|i: int, j: int|
            #![trigger ranked@[i], candidates@[j]]
            0 <= i < ranked@.len() && 0 <= j < candidates@.len() && same_chunk(candidates@, j, ranked@[i])
                implies candidates@[j].score <= ranked@[i].score by {
            assert(hits@.contains(ranked@[i]));
            let a = choose|a: int| 0 <= a < hits@.len() && hits@[a] == ranked@[i];
            assert(same_chunk(candidates@, j, hits@[a]));
        }
        assert forall|i: int| 0 <= i < ranked@.len() implies score_was_seen(
            candidates@,
            candidates@.len(),
            #[trigger] ranked@[i],
        ) by {
            assert(hits@.contains(ranked@[i]));
            let a = choose|a: int| 0 <= a < hits@.len() && hits@[a] == ranked@[i];
            assert(score_was_seen(candidates@, candidates@.len(), hits@[a]));
        }
        assert(ranked@.len() == if hits@.len() < spec_normalize_limit(limit as nat) {
            hits@.len()
        } else {
            spec_normalize_limit(limit as nat)
        });
    }
    ranked
}

} // verus!
