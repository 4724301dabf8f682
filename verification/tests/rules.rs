use harpe::api::{check_game_owner, require_user_id, validate_message_content, HeaderValue};
use harpe::domain::Game;
use harpe::api::BackupSequencer;
use harpe::api::health_response;
use harpe::tui::App;
use harpe::tui::{startup_plan, StartupPlan};
use harpe::api::{begin_turn, end_turn, turn_step, MemoryUpdate, ReplyStream, TurnAction, TurnEvent};
use harpe::client::{is_json_path, normalize_addr};
use harpe::domain::{HarpeError, JobKind, JobStatus, MessageRole, NewBackgroundJob};
use harpe::schema::{migration_id, migration_versions, migrations, pending_migrations};
use harpe::store::{
    claim_job, edge_id, rank_memory_candidates, RankCandidate, RankedHit, job_from_row, lexical_match_counts, message_from_row, new_job_row,
    retry_job, sanitize_record_key, MessageRow,
};
use harpe::time::Timestamp;
use harpe::tui::{key_action, wrap_owned, KeyAction, KeyCode, KeyEvent, MOD_CONTROL};

fn at(secs: i64) -> Timestamp {
    Timestamp { secs, nanos: 0 }
}

fn queued(payload: &str) -> harpe::store::JobRow {
    new_job_row(
        NewBackgroundJob {
            kind: JobKind::UpdateMemoryAfterTurn,
            payload_json: payload.to_owned(),
            max_attempts: 50,
            run_after: None,
        },
        "job-1".to_owned(),
        at(10),
    )
}

#[test]
fn queued_job_reads_back_as_pending() {
    let job = job_from_row(queued("{\"turn\":1}")).unwrap();
    assert_eq!(job.id, "job-1");
    assert_eq!(job.kind, JobKind::UpdateMemoryAfterTurn);
    assert_eq!(job.status, JobStatus::Pending);
    assert_eq!(job.attempts, 0);
    assert_eq!(job.max_attempts, 10);
    assert_eq!(job.last_error, None);
    assert_eq!(job.run_after, at(10));
}

#[test]
fn stored_job_with_broken_payload_is_a_store_error() {
    assert!(matches!(job_from_row(queued("{not json")), Err(HarpeError::Store(_))));
    let mut row = queued("{}");
    row.status = "paused".to_owned();
    assert_eq!(job_from_row(row), Err(HarpeError::Store("unknown job status paused".to_owned())));
}

#[test]
fn claiming_counts_one_attempt_and_retrying_records_the_error() {
    let claimed = claim_job(queued("{}"), at(20));
    assert_eq!(claimed.status, "running");
    assert_eq!(claimed.attempts, 1);
    let retried = retry_job(claimed, "boom".to_owned(), at(60), at(30));
    assert_eq!(retried.status, "pending");
    assert_eq!(retried.attempts, 1);
    assert_eq!(retried.last_error.as_deref(), Some("boom"));
    assert_eq!(retried.run_after, at(60));
}

#[test]
fn stored_messages_read_back_with_their_role() {
    let row = MessageRow {
        uid: "m-1".to_owned(),
        session_id: "s-1".to_owned(),
        role: "assistant".to_owned(),
        content: "A bell rings.".to_owned(),
        created_at: at(5),
    };
    assert_eq!(message_from_row(row.clone()).unwrap().role, MessageRole::Assistant);
    let mut unknown = row;
    unknown.role = "narrator".to_owned();
    assert_eq!(
        message_from_row(unknown),
        Err(HarpeError::Store("unknown message role narrator".to_owned()))
    );
}

#[test]
fn migrating_again_finds_nothing_pending() {
    assert_eq!(migration_versions(), vec![1, 2, 3, 4, 5, 6]);
    let first: Vec<i32> = pending_migrations(&[1, 2]).iter().map(|m| m.version).collect();
    assert_eq!(first, vec![3, 4, 5, 6]);
    assert!(pending_migrations(&[1, 2, 3, 4, 5, 6]).is_empty());
    let first_migration = migrations()[0];
    assert_eq!(migration_id(first_migration), format!("m0001_{}", first_migration.name));
}

#[test]
fn record_keys_are_made_safe_once_and_for_all() {
    let once = sanitize_record_key("game:1/ä b");
    assert_eq!(once, "game_1___b");
    assert_eq!(sanitize_record_key(&once), once);
    assert_eq!(edge_id("event:1", "character:2"), "event_1__character_2");
}

#[test]
fn lexical_matching_ignores_case() {
    assert_eq!(lexical_match_counts("silver key", "The SILVER door is locked."), (1, 2));
    assert_eq!(lexical_match_counts("", "anything"), (0, 0));
}

#[test]
fn reply_is_the_streamed_deltas() {
    let mut stream = ReplyStream::new("s-1".to_owned(), "m-1".to_owned());
    assert_eq!(stream.next_delta("A bell ".to_owned()).sequence, 1);
    assert_eq!(stream.next_delta("rings.".to_owned()).sequence, 2);
    assert_eq!(stream.content(), "A bell rings.");
    let done = stream.finish().unwrap();
    assert!(done.done);
    assert_eq!(done.sequence, 3);
    let empty = ReplyStream::new("s-1".to_owned(), "m-2".to_owned());
    assert_eq!(
        empty.finish(),
        Err(HarpeError::Llm("assistant response was empty".to_owned()))
    );
}

#[test]
fn quitting_wins_over_every_overlay() {
    let quit = KeyEvent { code: KeyCode::Char('q'), modifiers: MOD_CONTROL };
    assert_eq!(key_action(quit, true, true, true), KeyAction::Quit);
    let search = KeyEvent { code: KeyCode::Char('f'), modifiers: MOD_CONTROL };
    assert_eq!(key_action(search, false, false, false), KeyAction::SearchMemory);
}

#[test]
fn normalizing_an_address_twice_changes_nothing() {
    let once = normalize_addr(" harpe:50051 ").unwrap();
    assert_eq!(once, "http://harpe:50051");
    assert_eq!(normalize_addr(&once).unwrap(), once);
}

#[test]
fn transcript_lines_wrap_at_the_column_width() {
    assert_eq!(
        wrap_owned("one two three four five", 12),
        vec!["one two".to_owned(), "three four".to_owned(), "five".to_owned()]
    );
    assert_eq!(wrap_owned("one two three four five", 3), wrap_owned("one two three four five", 12));
}

#[test]
fn json_paths_are_recognized_by_extension() {
    assert!(is_json_path("dir/config.JSON"));
    assert!(!is_json_path("dir/config.toml"));
    assert!(!is_json_path("json"));
}

#[test]
fn metrics_stands_alone_as_a_command() {
    let cli = harpe::args::Cli::try_parse_from(&["harpe", "metrics"]).unwrap();
    assert_eq!(
        cli.command,
        harpe::args::Command::Metrics(harpe::args::MetricsArgs { command: None })
    );
}

#[test]
fn owners_and_messages_are_checked() {
    let game = Game {
        id: "game-1".to_owned(),
        owner_user_id: "user-1".to_owned(),
        title: "Ashes".to_owned(),
        system_prompt: String::new(),
        created_at: at(0),
    };
    assert_eq!(check_game_owner(&game, "game-1", "user-1"), Ok(()));
    assert_eq!(
        check_game_owner(&game, "game-1", "user-2"),
        Err(HarpeError::PermissionDenied("game game-1".to_owned()))
    );
    assert_eq!(
        validate_message_content("  "),
        Err(HarpeError::Validation("message content is required".to_owned()))
    );
    assert_eq!(require_user_id(Some(HeaderValue::Text(" user-1 ".to_owned()))), Ok("user-1".to_owned()));
    assert_eq!(
        require_user_id(None),
        Err(HarpeError::PermissionDenied("x-user-id metadata is required".to_owned()))
    );
}

#[test]
fn backup_chunks_are_numbered_from_one() {
    let mut sequencer = BackupSequencer::new("game-1".to_owned());
    let first = sequencer.next_chunk("game", "{\"id\":\"game-1\"}".to_owned());
    assert_eq!(first.sequence, 1);
    assert_eq!(first.kind, "game");
    let done = sequencer.done_chunk();
    assert_eq!(done.sequence, 2);
    assert!(done.done);
    assert_eq!(done.payload_json, "{}");
}

#[test]
fn health_is_degraded_by_failed_jobs() {
    let healthy = health_response(Ok((2, 0)), "harpe.v1".to_owned(), "1".to_owned(), "now".to_owned());
    assert_eq!(healthy.status, 1);
    assert!(healthy.database_ok);
    let degraded = health_response(Ok((0, 3)), "harpe.v1".to_owned(), "1".to_owned(), "now".to_owned());
    assert_eq!(degraded.status, 2);
    assert_eq!(degraded.failed_jobs, 3);
    let down = health_response(Err("offline".to_owned()), "harpe.v1".to_owned(), "1".to_owned(), "now".to_owned());
    assert_eq!(down.status, 3);
    assert!(!down.database_ok);
    assert_eq!(down.checked_at, "now; error=offline");
}

#[test]
fn sending_needs_a_session_and_a_quiet_stream() {
    let mut app = App::new("http://h:1".to_owned(), "user-1".to_owned(), Some("m".to_owned()));
    assert_eq!(app.begin_send("hello".to_owned()), None);
    assert_eq!(app.status, "select a session first");
    app.session = Some(harpe::pb::Session {
        id: "s-1".to_owned(),
        game_id: "g-1".to_owned(),
        title: "First watch".to_owned(),
        created_at: String::new(),
    });
    assert_eq!(app.scene_summary(), "First watch");
    let request = app.begin_send("hello".to_owned()).unwrap();
    assert_eq!(request.session_id, "s-1");
    assert_eq!(request.model.as_deref(), Some("m"));
    assert!(app.streaming);
    assert_eq!(app.messages.len(), 2);
    assert_eq!(app.begin_send("again".to_owned()), None);
    assert_eq!(app.status, "assistant is still responding");
    assert_eq!(
        app.preview_request(String::new()),
        Some(("s-1".to_owned(), "Continue the scene.".to_owned()))
    );
    assert_eq!(app.search_request(String::new()), None);
    assert_eq!(app.status, "type a query in the composer before Ctrl-F");
}

#[test]
fn startup_prefers_the_session_then_the_game() {
    assert_eq!(
        startup_plan(None, None, Some("g-1".to_owned()), Some("s-1".to_owned())),
        StartupPlan::LoadSession("s-1".to_owned())
    );
    assert_eq!(
        startup_plan(Some("g-2".to_owned()), None, Some("g-1".to_owned()), None),
        StartupPlan::LoadGame("g-2".to_owned())
    );
    assert_eq!(startup_plan(None, None, None, None), StartupPlan::FindGame);
}

fn lexical_score(query: &str, content: &str) -> f32 {
    let (matches, terms) = lexical_match_counts(query, content);
    if terms == 0 {
        0.0
    } else {
        matches as f32 / terms as f32
    }
}

#[test]
fn surreal_lexical_score_counts_query_terms() {
    assert_eq!(lexical_match_counts("silver key", "The silver door is locked."), (1, 2));
    assert_eq!(lexical_match_counts("silver key", "The silver key turns."), (2, 2));
    assert_eq!(lexical_match_counts("", "anything"), (0, 0));
    assert_eq!(lexical_score("silver key", "The silver door is locked."), 0.5);
    assert_eq!(lexical_score("silver key", "The silver key turns."), 1.0);
    assert_eq!(lexical_score("", "anything"), 0.0);
}

#[test]
fn mod_lexical_score_counts_query_terms() {
    assert_eq!(lexical_score("silver key", "The silver door is locked."), 0.5);
    assert_eq!(lexical_score("silver key", "The silver key turns."), 1.0);
    assert_eq!(lexical_score("", "anything"), 0.0);
}

#[test]
fn a_turn_stores_both_messages_and_queues_the_reply_for_memory() {
    let start = begin_turn("session-1".to_owned(), "open the door".to_owned(), "  gpt-5-mini ").unwrap();
    assert_eq!(start.user_message.id, None);
    assert_eq!(start.user_message.session_id, "session-1");
    assert_eq!(start.user_message.role, MessageRole::User);
    assert_eq!(start.user_message.content, "open the door");
    assert_eq!(start.model.as_deref(), Some("gpt-5-mini"));

    let mut reply = start.reply;
    assert_eq!(reply.content(), "");
    assert_eq!(reply.next_delta("The door ".to_owned()).sequence, 1);
    let second = reply.next_delta("opens.".to_owned());
    assert_eq!(second.sequence, 2);
    assert_eq!(second.session_id, "session-1");
    assert_eq!(second.message_id.len(), 36);

    let end = end_turn(&reply, "game-1".to_owned()).unwrap();
    assert_eq!(end.assistant_message.id.as_deref(), Some(second.message_id.as_str()));
    assert_eq!(end.assistant_message.role, MessageRole::Assistant);
    assert_eq!(end.assistant_message.content, "The door opens.");
    assert_eq!(
        end.memory_update,
        MemoryUpdate {
            game_id: "game-1".to_owned(),
            session_id: "session-1".to_owned(),
            message_id: second.message_id.clone(),
            content: "The door opens.".to_owned(),
        }
    );
    assert!(end.closing.done);
    assert_eq!(end.closing.sequence, 3);
    assert_eq!(end.closing.delta, "");
}

#[test]
fn a_blank_turn_is_refused_and_a_blank_reply_fails() {
    assert_eq!(
        begin_turn("session-1".to_owned(), "  \n".to_owned(), "").err(),
        Some(HarpeError::Validation("message content is required".to_owned()))
    );
    let start = begin_turn("session-1".to_owned(), "hi".to_owned(), " ").unwrap();
    assert_eq!(start.model, None);
    let mut reply = start.reply;
    reply.next_delta("   ".to_owned());
    assert_eq!(
        end_turn(&reply, "game-1".to_owned()).err(),
        Some(HarpeError::Llm("assistant response was empty".to_owned()))
    );
}

#[test]
fn each_turn_gets_its_own_reply_id() {
    let a = begin_turn("s".to_owned(), "a".to_owned(), "").unwrap();
    let b = begin_turn("s".to_owned(), "b".to_owned(), "").unwrap();
    let mut ra = a.reply;
    let mut rb = b.reply;
    assert_ne!(ra.next_delta("x".to_owned()).message_id, rb.next_delta("y".to_owned()).message_id);
}

fn candidate(id: &str, secs: i64, score: u64) -> RankCandidate {
    RankCandidate { chunk_id: id.to_owned(), created_at: at(secs), score }
}

#[test]
fn memory_hits_keep_each_chunk_once_with_its_best_score() {
    let candidates = vec![
        candidate("chunk-a", 10, 3),
        candidate("chunk-b", 20, 5),
        candidate("chunk-a", 10, 7),
        candidate("chunk-c", 30, 0),
    ];
    let hits = rank_memory_candidates(&candidates, false, 0);
    assert_eq!(
        hits,
        vec![RankedHit { position: 0, score: 7 }, RankedHit { position: 1, score: 5 }]
    );
}

#[test]
fn memory_hits_without_score_stay_for_an_empty_query() {
    let candidates = vec![candidate("chunk-a", 10, 0), candidate("chunk-b", 20, 0)];
    let hits = rank_memory_candidates(&candidates, true, 0);
    assert_eq!(
        hits,
        vec![RankedHit { position: 1, score: 0 }, RankedHit { position: 0, score: 0 }]
    );
    assert!(rank_memory_candidates(&candidates, false, 0).is_empty());
}

#[test]
fn memory_hits_tie_on_newer_chunk_then_arrival_and_respect_the_limit() {
    let candidates = vec![
        candidate("old", 10, 4),
        candidate("new", 20, 4),
        candidate("twin-1", 15, 4),
        candidate("twin-2", 15, 4),
        candidate("best", 1, 9),
    ];
    let hits = rank_memory_candidates(&candidates, false, 0);
    let order: Vec<usize> = hits.iter().map(|hit| hit.position).collect();
    assert_eq!(order, vec![4, 1, 2, 3, 0]);
    let top = rank_memory_candidates(&candidates, false, 2);
    let order: Vec<usize> = top.iter().map(|hit| hit.position).collect();
    assert_eq!(order, vec![4, 1]);
}

#[test]
fn memory_hits_with_an_unscored_first_sighting_come_in_later() {
    let candidates = vec![candidate("chunk-a", 10, 0), candidate("chunk-a", 10, 6)];
    let hits = rank_memory_candidates(&candidates, false, 0);
    assert_eq!(hits, vec![RankedHit { position: 1, score: 6 }]);
}

#[test]
fn a_turn_stops_and_stores_nothing_once_the_client_is_gone() {
    let start = begin_turn("session-1".to_owned(), "hello".to_owned(), "").unwrap();
    let mut reply = start.reply;
    let game = "game-1".to_owned();
    match turn_step(&mut reply, &game, TurnEvent::Delta("Hi ".to_owned())) {
        TurnAction::Send(delta) => {
            assert_eq!(delta.delta, "Hi ");
            assert_eq!(delta.sequence, 1);
            assert!(!delta.done);
        }
        _ => panic!("a delta is sent on"),
    }
    assert!(matches!(turn_step(&mut reply, &game, TurnEvent::ClientGone), TurnAction::Abandon));
    assert_eq!(reply.content(), "Hi ");
}

#[test]
fn a_turn_finishes_or_fails_when_the_model_is_done() {
    let game = "game-1".to_owned();
    let mut reply = begin_turn("session-1".to_owned(), "hello".to_owned(), "").unwrap().reply;
    turn_step(&mut reply, &game, TurnEvent::Delta("Done.".to_owned()));
    match turn_step(&mut reply, &game, TurnEvent::ModelDone) {
        TurnAction::Finish(end) => {
            assert_eq!(end.assistant_message.content, "Done.");
            assert_eq!(end.memory_update.game_id, "game-1");
            assert_eq!(end.closing.sequence, 2);
        }
        _ => panic!("a reply with text completes the turn"),
    }

    let mut blank = begin_turn("session-1".to_owned(), "hello".to_owned(), "").unwrap().reply;
    assert!(matches!(
        turn_step(&mut blank, &game, TurnEvent::ModelDone),
        TurnAction::Fail(HarpeError::Llm(_))
    ));
    let failure = HarpeError::Llm("timeout".to_owned());
    assert!(matches!(
        turn_step(&mut blank, &game, TurnEvent::ModelFailed(failure)),
        TurnAction::Fail(HarpeError::Llm(m)) if m == "timeout"
    ));
}
