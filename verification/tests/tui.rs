use harpe::pb;
use harpe::client::ClientConfig;
use harpe::tui::{
    composer_content, dismisses_error, first_sentences, is_memory_search_key, is_quit_key, App,
    AppEvent, FinderAction, FinderChoice, FinderState, KeyAction, KeyCode, KeyEvent, RightTab,
    StartupNext, StartupPlan,
    MOD_CONTROL, MOD_NONE,
};

fn key(code: KeyCode, modifiers: u8) -> KeyEvent {
    KeyEvent { code, modifiers }
}

fn new_app() -> App {
    App::new("http://127.0.0.1:50051".to_owned(), "user-1".to_owned(), None)
}

#[test]
fn right_tabs_cycle_in_stable_order() {
    assert_eq!(RightTab::Cast.next(), RightTab::Lore);
    assert_eq!(RightTab::Context.next(), RightTab::Cast);
}

#[test]
fn finder_filters_case_insensitively_and_wraps_selection() {
    let mut finder = FinderState::game(vec![
        pb::Game {
            id: "game-1".to_owned(),
            title: "Black Gate".to_owned(),
            system_prompt: String::new(),
            created_at: String::new(),
            owner_user_id: "user-1".to_owned(),
        },
        pb::Game {
            id: "game-2".to_owned(),
            title: "Old Harbor".to_owned(),
            system_prompt: String::new(),
            created_at: String::new(),
            owner_user_id: "user-1".to_owned(),
        },
    ]);

    finder.push_query('g');
    assert_eq!(finder.filtered_games()[0].id, "game-1");
    finder.move_down();
    assert_eq!(finder.selected(), 0);
}

#[test]
fn finder_filters_sessions_and_keeps_selection_in_range_after_backspace() {
    let mut finder = FinderState::session(
        "game-1".to_owned(),
        vec![
            pb::Session {
                id: "session-1".to_owned(),
                game_id: "game-1".to_owned(),
                title: "First Watch".to_owned(),
                created_at: String::new(),
            },
            pb::Session {
                id: "session-2".to_owned(),
                game_id: "game-1".to_owned(),
                title: "Second Watch".to_owned(),
                created_at: String::new(),
            },
        ],
    );

    finder.push_query('s');
    finder.push_query('e');
    assert_eq!(finder.filtered_sessions()[0].id, "session-2");
    finder.move_down();
    finder.pop_query();

    assert_eq!(finder.selected(), 0);
    assert_eq!(finder.filtered_sessions().len(), 2);
}

#[test]
fn app_composer_content_trims_multiline_text() {
    let lines = vec!["  first line".to_owned(), "second line  ".to_owned()];
    assert_eq!(composer_content(&lines), "first line\nsecond line");
}

#[test]
fn app_message_lifecycle_records_pending_user_and_streamed_assistant_text() {
    let mut app = new_app();
    app.session = Some(pb::Session {
        id: "session-1".to_owned(),
        game_id: "game-1".to_owned(),
        title: "First watch".to_owned(),
        created_at: String::new(),
    });

    app.push_user_message(format!("I open the {}.", "gate"));
    app.start_assistant_message();
    app.append_assistant_delta(&format!("The {} ", "gate"));
    app.append_assistant_delta("opens.");

    assert_eq!(app.messages.len(), 2);
    assert_eq!(app.messages[0].session_id, "session-1");
    assert_eq!(app.messages[0].role, 2);
    assert_eq!(app.messages[1].role, 3);
    assert_eq!(app.messages[1].content, format!("The {} opens.", "gate"));
}

#[test]
fn app_events_update_streaming_status_and_error_state() {
    let mut app = new_app();
    app.streaming = true;
    app.start_assistant_message();

    app.handle_app_event(AppEvent::AssistantDelta("A bell rings.".to_owned()));
    assert_eq!(app.messages[0].content, "A bell rings.");

    app.handle_app_event(AppEvent::SendComplete);
    assert!(!app.streaming);
    assert!(app.error.is_none());
    assert_eq!(app.status, "assistant complete; memory update queued");

    app.streaming = true;
    app.handle_app_event(AppEvent::SendFailed("network down".to_owned()));
    assert!(!app.streaming);
    assert_eq!(app.error.as_deref(), Some("network down"));
}

#[test]
fn error_dismiss_and_quit_key_helpers_match_tui_contract() {
    assert!(is_quit_key(key(KeyCode::Char('q'), MOD_CONTROL)));
    assert!(is_quit_key(key(KeyCode::Char('c'), MOD_CONTROL)));
    assert!(!is_quit_key(key(KeyCode::Char('q'), MOD_NONE)));

    assert!(dismisses_error(key(KeyCode::Esc, MOD_NONE)));
    assert!(dismisses_error(key(KeyCode::Enter, MOD_NONE)));
    assert!(dismisses_error(key(KeyCode::Char('x'), MOD_NONE)));
    assert!(!dismisses_error(key(KeyCode::Char('x'), MOD_CONTROL)));
}

#[test]
fn memory_search_uses_terminal_safe_ctrl_f_binding() {
    assert!(is_memory_search_key(key(KeyCode::Char('f'), MOD_CONTROL)));
    assert!(!is_memory_search_key(key(KeyCode::Char('m'), MOD_CONTROL)));
    assert!(!is_memory_search_key(key(KeyCode::Enter, MOD_NONE)));
}

#[test]
fn first_sentences_prefers_complete_sentence_boundary() {
    assert_eq!(
        first_sentences(&format!("The {} opens. A bell rings. The floor shakes.", "gate"), 2),
        format!("The {} opens. A bell rings.", "gate")
    );
}

#[test]
fn first_sentences_truncates_when_no_sentence_boundary_exists() {
    let content = "a".repeat(260);

    assert_eq!(first_sentences(&content, 2).chars().count(), 220);
    assert!(first_sentences(&content, 2).ends_with("..."));
}

#[test]
fn tabs_return_to_their_start_after_a_full_cycle() {
    let mut tab = RightTab::WorldMap;
    for _ in 0..5 {
        tab = tab.next();
    }
    assert_eq!(tab, RightTab::WorldMap);
    assert_eq!(RightTab::WorldMap.title(), "Map");
}

fn game(id: &str, title: &str) -> pb::Game {
    pb::Game {
        id: id.to_owned(),
        title: title.to_owned(),
        system_prompt: String::new(),
        created_at: String::new(),
        owner_user_id: "user-1".to_owned(),
    }
}

fn session(id: &str, title: &str) -> pb::Session {
    pb::Session {
        id: id.to_owned(),
        game_id: "game-1".to_owned(),
        title: title.to_owned(),
        created_at: String::new(),
    }
}

#[test]
fn quit_key_leaves_the_rest_of_the_screen_as_it_was() {
    let mut app = new_app();
    app.help_open = true;
    app.error = Some("boom".to_owned());
    app.finder = Some(FinderState::game(vec![game("game-1", "Black Gate")]));
    app.transcript_scroll = 7;
    app.status = "ready".to_owned();

    app.apply_local_action(KeyAction::Quit);

    assert!(app.quit);
    assert!(app.help_open);
    assert_eq!(app.error.as_deref(), Some("boom"));
    assert!(app.finder.is_some());
    assert_eq!(app.right_tab, RightTab::Cast);
    assert_eq!(app.transcript_scroll, 7);
    assert_eq!(app.status, "ready");
}

#[test]
fn next_tab_moves_the_tab_and_nothing_else() {
    let mut app = new_app();
    app.apply_local_action(KeyAction::NextTab);
    assert_eq!(app.right_tab, RightTab::Cast.next());
    assert!(!app.quit);
    assert!(!app.help_open);
    assert!(app.finder.is_none());
}

#[test]
fn scrolling_moves_by_five_lines_and_stops_at_the_top() {
    let mut app = new_app();
    app.apply_local_action(KeyAction::ScrollDown);
    assert_eq!(app.transcript_scroll, 5);
    app.apply_local_action(KeyAction::ScrollUp);
    app.apply_local_action(KeyAction::ScrollUp);
    assert_eq!(app.transcript_scroll, 0);
}

#[test]
fn typing_in_the_finder_filters_it() {
    let mut app = new_app();
    app.finder = Some(FinderState::game(vec![game("game-1", "Black Gate"), game("game-2", "Old Harbor")]));
    app.apply_local_action(KeyAction::Finder(FinderAction::Push('h')));
    let finder = app.finder.as_ref().unwrap();
    assert_eq!(finder.query(), "h");
    assert_eq!(finder.filtered_len(), 1);
    assert_eq!(finder.filtered_games()[0].id, "game-2");

    app.apply_local_action(KeyAction::Finder(FinderAction::Pop));
    assert_eq!(app.finder.as_ref().unwrap().filtered_len(), 2);

    app.apply_local_action(KeyAction::Finder(FinderAction::MoveDown));
    assert_eq!(app.finder.as_ref().unwrap().selected(), 1);

    app.apply_local_action(KeyAction::Finder(FinderAction::Close));
    assert!(app.finder.is_none());
}

#[test]
fn choosing_a_game_selects_and_saves_it_and_forgets_the_session() {
    let mut app = new_app();
    app.finder = Some(FinderState::game(vec![game("game-1", "Black Gate"), game("game-2", "Old Harbor")]));
    app.apply_local_action(KeyAction::Finder(FinderAction::MoveDown));
    let mut config = ClientConfig {
        addr: None,
        user_id: Some("user-1".to_owned()),
        game_id: Some("game-1".to_owned()),
        session_id: Some("session-9".to_owned()),
    };

    let choice = app.choose_in_finder(&mut config);

    assert_eq!(choice, FinderChoice::Game("game-2".to_owned()));
    assert_eq!(app.game.as_ref().unwrap().id, "game-2");
    assert_eq!(config.game_id.as_deref(), Some("game-2"));
    assert_eq!(config.session_id, None);
    assert_eq!(config.user_id.as_deref(), Some("user-1"));

    app.show_session_finder("game-2".to_owned(), vec![session("session-1", "Night watch")]);
    let finder = app.finder.as_ref().unwrap();
    assert_eq!(finder.query(), "");
    assert_eq!(finder.selected(), 0);
    assert_eq!(finder.filtered_sessions()[0].id, "session-1");

    let choice = app.choose_in_finder(&mut config);
    assert_eq!(choice, FinderChoice::Session("session-1".to_owned()));
    assert!(app.finder.is_none());
    assert_eq!(config.game_id.as_deref(), Some("game-2"));
}

#[test]
fn choosing_with_no_finder_changes_nothing() {
    let mut app = new_app();
    let mut config = ClientConfig {
        addr: None,
        user_id: None,
        game_id: Some("game-1".to_owned()),
        session_id: Some("session-1".to_owned()),
    };
    assert_eq!(app.choose_in_finder(&mut config), FinderChoice::Nothing);
    assert!(app.game.is_none());
    assert_eq!(config.session_id.as_deref(), Some("session-1"));
}

#[test]
fn startup_falls_back_to_the_game_finder_when_a_load_fails() {
    let mut app = new_app();
    let next = app.after_startup_load(
        &StartupPlan::LoadSession("session-1".to_owned()),
        Err("not found".to_owned()),
    );
    assert_eq!(next, StartupNext::OpenGameFinder);
    assert_eq!(app.error.as_deref(), Some("failed to load session: not found"));

    let mut app = new_app();
    let next =
        app.after_startup_load(&StartupPlan::LoadGame("game-1".to_owned()), Err("denied".to_owned()));
    assert_eq!(next, StartupNext::OpenGameFinder);
    assert_eq!(app.error.as_deref(), Some("failed to load game: denied"));
}

#[test]
fn startup_opens_what_follows_a_successful_load() {
    let mut app = new_app();
    assert_eq!(
        app.after_startup_load(&StartupPlan::LoadSession("session-1".to_owned()), Ok(())),
        StartupNext::Ready
    );
    assert_eq!(
        app.after_startup_load(&StartupPlan::LoadGame("game-1".to_owned()), Ok(())),
        StartupNext::OpenSessionFinder
    );
    assert_eq!(app.after_startup_load(&StartupPlan::FindGame, Ok(())), StartupNext::OpenGameFinder);
    assert!(app.error.is_none());
}
