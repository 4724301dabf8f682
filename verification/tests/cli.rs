use harpe::client::{config_location, config_source, ConfigLocation, ConfigSource};
use harpe::args::{
    AdminCommand, ArgError, Cli, Command, ConfigArgs, ConfigCommand, ConfigKey, GameCommand,
    JobStatusArg, MemoryCommand, PageArgs, SessionArgs, SessionCommand, TuiArgs,
};
use harpe::client::{
    config_path_text, join_words, normalize_addr, normalize_optional_model, read_prompt, required_user_id,
    resolve_addr, resolve_user_id, ClientConfig, CliError, PromptSource,
};
use harpe::commands::{
    play_call, printed_text, reply_text,
    admin_status_filter, apply_config_command, call_for, config_lines, plan_execution,
    read_play_input, Call, Plan, PlayInput,
};
use harpe::pb;
use harpe::output::{admin_status_name, finish_reason_name, job_kind_name, role_name, serving_status_name};
use harpe::output::{
    character_detail, character_line, context_message_text, estimated_tokens_line, event_line,
    game_line, health_line, job_line, metrics_line, job_listing_line, location_line, message_line, play_banner,
    session_line, user_line,
};

fn message_of(error: CliError) -> String {
    error.message()
}

#[test]
fn parses_global_options_and_session_send_content() {
    let cli = Cli::try_parse_from(&[
        "harpe",
        "--addr",
        "127.0.0.1:50051",
        "--user-id",
        "user-1",
        "--json",
        "session",
        "send",
        "--model",
        "gpt-5-mini",
        "session-1",
        "open",
        "the",
        "gate",
    ])
    .unwrap();

    assert_eq!(cli.addr.as_deref(), Some("127.0.0.1:50051"));
    assert_eq!(cli.user_id.as_deref(), Some("user-1"));
    assert!(cli.json);
    assert_eq!(
        cli.command,
        Command::Session(SessionArgs {
            command: SessionCommand::Send {
                model: Some("gpt-5-mini".to_owned()),
                session_id: "session-1".to_owned(),
                content: vec!["open".to_owned(), "the".to_owned(), "gate".to_owned()],
            }
        })
    );
}

#[test]
fn normalizes_optional_model_for_requests() {
    assert_eq!(normalize_optional_model(None), "");
    assert_eq!(normalize_optional_model(Some("   ".to_owned())), "");
    assert_eq!(normalize_optional_model(Some(" gpt-5-mini ".to_owned())), "gpt-5-mini");
}

#[test]
fn parses_memory_search_with_limit() {
    let cli = Cli::try_parse_from(&[
        "harpe",
        "--user-id",
        "user-1",
        "memory",
        "search",
        "session-1",
        "silver",
        "key",
        "--limit",
        "7",
    ])
    .unwrap();

    let Command::Memory(memory) = cli.command else {
        panic!("expected memory command");
    };
    let MemoryCommand::Search { session_id, query, page } = memory.command else {
        panic!("expected search command");
    };
    assert_eq!(session_id, "session-1");
    assert_eq!(query, vec!["silver".to_owned(), "key".to_owned()]);
    assert_eq!(page.limit, 7);
}

#[test]
fn parses_page_token_for_list_commands() {
    let cli = Cli::try_parse_from(&[
        "harpe",
        "--user-id",
        "user-1",
        "game",
        "list",
        "--limit",
        "3",
        "--page-token",
        "cursor-1",
    ])
    .unwrap();

    let Command::Game(game) = cli.command else {
        panic!("expected game command");
    };
    let GameCommand::List { page } = game.command else {
        panic!("expected list command");
    };

    assert_eq!(page.limit, 3);
    assert_eq!(page.page_token.as_deref(), Some("cursor-1"));
}

#[test]
fn parses_config_commands() {
    let cli = Cli::try_parse_from(&["harpe", "config", "set-session", "session-1"]).unwrap();

    assert_eq!(
        cli.command,
        Command::Config(ConfigArgs {
            command: ConfigCommand::SetSession { session_id: "session-1".to_owned() }
        })
    );
}

#[test]
fn normalizes_addresses_for_tonic_endpoints() {
    assert_eq!(normalize_addr("[::1]:50051").unwrap(), "http://[::1]:50051");
    assert_eq!(normalize_addr("http://127.0.0.1:50051").unwrap(), "http://127.0.0.1:50051");
    assert!(message_of(normalize_addr(" ").unwrap_err()).contains("address"));
}

#[test]
fn joins_unquoted_message_words() {
    assert_eq!(join_words(vec!["inspect".to_owned(), "the bell".to_owned()]), "inspect the bell");
}

#[test]
fn requires_user_id_for_owned_commands() {
    let cli = Cli::try_parse_from(&["harpe", "game", "list"]).unwrap();
    assert!(message_of(required_user_id(cli.user_id.as_deref()).unwrap_err()).contains("--user-id"));

    let cli = Cli::try_parse_from(&["harpe", "--user-id", " user-1 ", "game", "list"]).unwrap();
    assert_eq!(required_user_id(cli.user_id.as_deref()).unwrap(), "user-1");
}

#[test]
fn refuses_prompt_string_and_file_together() {
    let error = read_prompt("prompt".to_owned(), Some("prompt.txt".to_owned())).unwrap_err();
    assert!(message_of(error).contains("either --system-prompt"));
}

#[test]
fn converts_enums_to_stable_output_names() {
    assert_eq!(role_name(3), "assistant");
    assert_eq!(finish_reason_name(2), "assistant_complete");
    assert_eq!(serving_status_name(2), "degraded");
    assert_eq!(admin_status_name(4), "failed");
}

#[test]
fn tui_args_parse_runtime_selection_options() {
    let args = TuiArgs::try_parse_from(&[
        "harpe-tui",
        "--addr",
        "http://harpe:50051",
        "--user-id",
        "user-1",
        "--game-id",
        "game-1",
        "--session-id",
        "session-1",
        "--model",
        "gpt-5-nano",
    ])
    .unwrap();

    assert_eq!(args.addr.as_deref(), Some("http://harpe:50051"));
    assert_eq!(args.user_id.as_deref(), Some("user-1"));
    assert_eq!(args.game_id.as_deref(), Some("game-1"));
    assert_eq!(args.session_id.as_deref(), Some("session-1"));
    assert_eq!(args.model.as_deref(), Some("gpt-5-nano"));
}

#[test]
fn global_options_may_follow_the_subcommand_and_take_inline_values() {
    let cli = Cli::try_parse_from(&["harpe", "game", "get", "game-7", "--user-id=user-9", "--json"])
        .unwrap();
    assert_eq!(cli.user_id.as_deref(), Some("user-9"));
    assert!(cli.json);
    assert_eq!(
        cli.command,
        Command::Game(harpe::args::GameArgs { command: GameCommand::Get { game_id: "game-7".to_owned() } })
    );
}

#[test]
fn page_limit_defaults_to_twenty() {
    let cli = Cli::try_parse_from(&["harpe", "admin", "jobs"]).unwrap();
    assert_eq!(
        cli.command,
        Command::Admin(harpe::args::AdminArgs {
            command: AdminCommand::Jobs {
                status: JobStatusArg::All,
                page: PageArgs { limit: 20, page_token: None },
            }
        })
    );
}

#[test]
fn reports_each_kind_of_command_line_error() {
    assert_eq!(Cli::try_parse_from(&["harpe"]), Err(ArgError::MissingSubcommand));
    assert_eq!(
        Cli::try_parse_from(&["harpe", "dance"]),
        Err(ArgError::UnrecognizedSubcommand("dance".to_owned()))
    );
    assert_eq!(
        Cli::try_parse_from(&["harpe", "game", "list", "--bogus", "1"]),
        Err(ArgError::UnknownArgument("--bogus".to_owned()))
    );
    assert_eq!(
        Cli::try_parse_from(&["harpe", "game", "list", "--bogus=1"]),
        Err(ArgError::UnknownArgument("--bogus".to_owned()))
    );
    assert_eq!(
        Cli::try_parse_from(&["harpe", "game", "list", "--limit"]),
        Err(ArgError::MissingValue("--limit".to_owned()))
    );
    assert_eq!(
        Cli::try_parse_from(&["harpe", "game", "list", "--limit", "many"]),
        Err(ArgError::InvalidValue("--limit".to_owned(), "many".to_owned()))
    );
    assert_eq!(
        Cli::try_parse_from(&["harpe", "game", "list", "--limit", "-1"]),
        Err(ArgError::MissingValue("--limit".to_owned()))
    );
    assert_eq!(
        Cli::try_parse_from(&["harpe", "--json", "health", "--json"]),
        Err(ArgError::DuplicateArgument("--json".to_owned()))
    );
    assert_eq!(
        Cli::try_parse_from(&["harpe", "--json=yes", "health"]),
        Err(ArgError::UnexpectedValue("--json".to_owned()))
    );
    assert_eq!(
        Cli::try_parse_from(&["harpe", "session", "send", "session-1"]),
        Err(ArgError::MissingArgument("<CONTENT>...".to_owned()))
    );
    assert_eq!(
        Cli::try_parse_from(&["harpe", "user", "create"]),
        Err(ArgError::MissingArgument("--name".to_owned()))
    );
    assert_eq!(
        Cli::try_parse_from(&["harpe", "game", "get", "a", "b"]),
        Err(ArgError::UnknownArgument("b".to_owned()))
    );
    assert_eq!(
        Cli::try_parse_from(&["harpe", "config", "clear", "everything"]),
        Err(ArgError::InvalidValue("<KEY>".to_owned(), "everything".to_owned()))
    );
    assert_eq!(Cli::try_parse_from(&["harpe", "game", "--help"]), Err(ArgError::Help));
    assert_eq!(Cli::try_parse_from(&["harpe", "help"]), Err(ArgError::Help));
    assert_eq!(
        TuiArgs::try_parse_from(&["harpe-tui", "--json"]),
        Err(ArgError::UnknownArgument("--json".to_owned()))
    );
}

#[test]
fn double_dash_ends_the_options() {
    let cli = Cli::try_parse_from(&["harpe", "session", "context", "s-1", "--", "--quietly", "knock"]).unwrap();
    assert_eq!(
        cli.command,
        Command::Session(SessionArgs {
            command: SessionCommand::Context {
                session_id: "s-1".to_owned(),
                content: vec!["--quietly".to_owned(), "knock".to_owned()],
            }
        })
    );
}

#[test]
fn config_clear_reads_its_key_and_retry_reads_signed_attempts() {
    let cli = Cli::try_parse_from(&["harpe", "config", "clear", "game"]).unwrap();
    assert_eq!(cli.command, Command::Config(ConfigArgs { command: ConfigCommand::Clear { key: ConfigKey::Game } }));
    let cli = Cli::try_parse_from(&["harpe", "admin", "retry-job", "job-1", "--max-attempts=-2"]).unwrap();
    assert_eq!(
        cli.command,
        Command::Admin(harpe::args::AdminArgs {
            command: AdminCommand::RetryJob { job_id: "job-1".to_owned(), max_attempts: Some(-2) }
        })
    );
}

#[test]
fn environment_fills_only_missing_options() {
    let cli = Cli::try_parse_from(&["harpe", "--addr", "a:1", "health"]).unwrap();
    let cli = cli.with_env(Some("b:2".to_owned()), Some("user-5".to_owned()), None);
    assert_eq!(cli.addr.as_deref(), Some("a:1"));
    assert_eq!(cli.user_id.as_deref(), Some("user-5"));
    assert_eq!(cli.config, None);
}

#[test]
fn owned_commands_are_planned_with_their_user() {
    let config = ClientConfig { addr: None, user_id: Some("user-2".to_owned()), game_id: None, session_id: None };
    let cli = Cli::try_parse_from(&["harpe", "game", "list"]).unwrap();
    assert_eq!(
        plan_execution(&cli, &config).unwrap(),
        Plan::Connect { addr: "http://[::1]:50051".to_owned(), user_id: Some("user-2".to_owned()) }
    );
    let cli = Cli::try_parse_from(&["harpe", "--addr", "http://127.0.0.1:1", "game", "list"]).unwrap();
    let error = plan_execution(&cli, &ClientConfig::empty()).unwrap_err();
    assert!(message_of(error).contains("--user-id"));
    let cli = Cli::try_parse_from(&["harpe", "health"]).unwrap();
    assert_eq!(
        plan_execution(&cli, &ClientConfig::empty()).unwrap(),
        Plan::Connect { addr: "http://[::1]:50051".to_owned(), user_id: None }
    );
    let cli = Cli::try_parse_from(&["harpe", "config", "show"]).unwrap();
    assert_eq!(plan_execution(&cli, &ClientConfig::empty()).unwrap(), Plan::Configure);
}

#[test]
fn config_commands_set_and_clear_saved_choices() {
    let mut config = ClientConfig::empty();
    assert_eq!(apply_config_command(&ConfigCommand::SetAddr { addr: " 127.0.0.1:50051 ".to_owned() }, &mut config), Ok(true));
    assert_eq!(config.addr.as_deref(), Some("http://127.0.0.1:50051"));
    assert_eq!(resolve_addr(None, &config).unwrap(), "http://127.0.0.1:50051");
    assert_eq!(apply_config_command(&ConfigCommand::SetUser { user_id: " user-1 ".to_owned() }, &mut config), Ok(true));
    assert_eq!(resolve_user_id(None, &config), Some("user-1"));
    let before = config.clone();
    let error = apply_config_command(&ConfigCommand::SetGame { game_id: "  ".to_owned() }, &mut config).unwrap_err();
    assert_eq!(message_of(error), "game id is required");
    assert_eq!(config, before);
    assert_eq!(apply_config_command(&ConfigCommand::Clear { key: ConfigKey::Addr }, &mut config), Ok(true));
    assert_eq!(config.addr, None);
    assert_eq!(config.user_id.as_deref(), Some("user-1"));
    assert_eq!(apply_config_command(&ConfigCommand::Clear { key: ConfigKey::All }, &mut config), Ok(true));
    assert_eq!(config, ClientConfig::empty());
    assert_eq!(apply_config_command(&ConfigCommand::Show, &mut config), Ok(false));
}

#[test]
fn config_show_lists_defaults() {
    let config = ClientConfig { addr: None, user_id: Some("user-1".to_owned()), game_id: None, session_id: None };
    assert_eq!(
        config_lines("/tmp/config.toml", &config),
        vec![
            "path=/tmp/config.toml".to_owned(),
            "addr=http://[::1]:50051".to_owned(),
            "user_id=user-1".to_owned(),
            "game_id=".to_owned(),
            "session_id=".to_owned(),
        ]
    );
}

#[test]
fn play_lines_are_read_as_commands_or_turns() {
    assert_eq!(read_play_input("   "), Ok(PlayInput::Blank));
    assert_eq!(read_play_input(" /exit "), Ok(PlayInput::Quit));
    assert_eq!(read_play_input("/events"), Ok(PlayInput::Events));
    assert_eq!(read_play_input(&format!("/context  the {} ", "gate")), Ok(PlayInput::Context(format!("the {}", "gate"))));
    assert_eq!(read_play_input("/memory silver key"), Ok(PlayInput::Memory("silver key".to_owned())));
    assert_eq!(read_play_input("/memory    "), Ok(PlayInput::Unknown("/memory".to_owned())));
    assert_eq!(read_play_input("/dance"), Ok(PlayInput::Unknown("/dance".to_owned())));
    assert_eq!(read_play_input(" I knock. "), Ok(PlayInput::Send("I knock.".to_owned())));
}

#[test]
fn subcommands_become_server_calls() {
    let config = ClientConfig { addr: None, user_id: None, game_id: Some("game-3".to_owned()), session_id: None };
    let cli = Cli::try_parse_from(&["harpe", "memory", "search", "s-1", "silver", "key", "--page-token", "c-2"]).unwrap();
    assert_eq!(
        call_for(&cli.command, &config, false).unwrap(),
        Call::SearchMemory {
            session_id: "s-1".to_owned(),
            query: "silver key".to_owned(),
            limit: 0,
            page: Some(harpe::pb::PageRequest { page_size: 20, page_token: "c-2".to_owned() }),
        }
    );
    let cli = Cli::try_parse_from(&["harpe", "session", "create", "--title", "Watch"]).unwrap();
    assert_eq!(
        call_for(&cli.command, &config, false).unwrap(),
        Call::CreateSession { game_id: "game-3".to_owned(), title: "Watch".to_owned() }
    );
    let error = call_for(&cli.command, &ClientConfig::empty(), false).unwrap_err();
    assert_eq!(message_of(error), "set game id in config or pass it explicitly");
    let cli = Cli::try_parse_from(&["harpe", "play", "s-1"]).unwrap();
    assert_eq!(message_of(call_for(&cli.command, &config, true).unwrap_err()), "--json is not supported with play");
    assert_eq!(
        call_for(&cli.command, &config, false).unwrap(),
        Call::Play { session_id: "s-1".to_owned(), model: None }
    );
    let cli = Cli::try_parse_from(&["harpe", "game", "create", "--title", "Ashes", "--system-prompt-file", "p.txt"]).unwrap();
    assert_eq!(
        call_for(&cli.command, &config, false).unwrap(),
        Call::CreateGame { title: "Ashes".to_owned(), prompt: PromptSource::File("p.txt".to_owned()) }
    );
    let cli = Cli::try_parse_from(&["harpe", "admin", "jobs", "--status", "failed", "--limit", "5"]).unwrap();
    assert_eq!(
        call_for(&cli.command, &config, false).unwrap(),
        Call::ListJobs { status: 4, page: harpe::pb::PageRequest { page_size: 5, page_token: String::new() } }
    );
}

#[test]
fn status_filters_and_names_use_wire_numbers() {
    assert_eq!(admin_status_filter(JobStatusArg::All), 0);
    assert_eq!(admin_status_filter(JobStatusArg::Running), 2);
    assert_eq!(role_name(9), "unspecified");
    assert_eq!(role_name(2), "user");
    assert_eq!(job_kind_name(1), "update_memory_after_turn");
    assert_eq!(serving_status_name(3), "not_serving");
}

#[test]
fn inline_and_separate_option_values_read_alike() {
    let separate = Cli::try_parse_from(&["harpe", "game", "list", "--limit", "3", "--page-token", "c"]).unwrap();
    let inline = Cli::try_parse_from(&["harpe", "game", "list", "--limit=3", "--page-token=c"]).unwrap();
    assert_eq!(separate, inline);
    assert_eq!(
        Cli::try_parse_from(&["harpe", "game", "list", "--limit=x"]),
        Cli::try_parse_from(&["harpe", "game", "list", "--limit", "x"])
    );
}

#[test]
fn global_options_read_alike_wherever_they_stand() {
    let before = Cli::try_parse_from(&["harpe", "--addr", "h:1", "game", "list"]).unwrap();
    let between = Cli::try_parse_from(&["harpe", "game", "--addr", "h:1", "list"]).unwrap();
    let after = Cli::try_parse_from(&["harpe", "game", "list", "--addr", "h:1"]).unwrap();
    assert_eq!(before, between);
    assert_eq!(between, after);
}

#[test]
fn legacy_json_stands_in_for_a_missing_default_file() {
    assert_eq!(config_source(true, true, true), ConfigSource::Primary);
    assert_eq!(config_source(false, true, true), ConfigSource::Legacy);
    assert_eq!(config_source(false, false, true), ConfigSource::Nothing);
    assert_eq!(config_source(false, true, false), ConfigSource::Nothing);
    assert_eq!(
        config_location(None, None, Some("/home/u".to_owned())),
        Ok(ConfigLocation::UnderHome("/home/u".to_owned()))
    );
    assert_eq!(
        config_location(Some("c.toml".to_owned()), Some("/x".to_owned()), None),
        Ok(ConfigLocation::Given("c.toml".to_owned()))
    );
    assert!(config_location(None, None, None).is_err());
}

#[test]
fn play_lines_make_their_requests() {
    assert_eq!(
        play_call(&PlayInput::Characters, "s-1", "g-1", None),
        Some(Call::ListCharacters { game_id: "g-1".to_owned(), limit: 20, page: None })
    );
    assert_eq!(
        play_call(&PlayInput::Memory("sea gate".to_owned()), "s-1", "g-1", None),
        Some(Call::SearchMemory { session_id: "s-1".to_owned(), query: "sea gate".to_owned(), limit: 10, page: None })
    );
    assert_eq!(
        play_call(&PlayInput::Send("I knock.".to_owned()), "s-1", "g-1", Some(" m ".to_owned())),
        Some(Call::SendMessage { session_id: "s-1".to_owned(), content: "I knock.".to_owned(), model: "m".to_owned() })
    );
    assert_eq!(play_call(&PlayInput::Quit, "s-1", "g-1", None), None);
}

#[test]
fn config_path_prefers_the_flag_then_xdg_then_home() {
    assert_eq!(
        config_path_text(Some("custom.toml".to_owned()), Some("/xdg".to_owned()), Some("/home/u".to_owned()))
            .unwrap(),
        "custom.toml"
    );
    assert_eq!(
        config_path_text(None, Some("/xdg".to_owned()), Some("/home/u".to_owned())).unwrap(),
        "/xdg/harpe/config.toml"
    );
    assert_eq!(
        config_path_text(None, Some("/xdg/".to_owned()), None).unwrap(),
        "/xdg/harpe/config.toml"
    );
    assert_eq!(
        config_path_text(None, None, Some("/home/u".to_owned())).unwrap(),
        "/home/u/.config/harpe/config.toml"
    );
    let error = config_path_text(None, None, None).unwrap_err();
    assert_eq!(message_of(error), "cannot resolve config path; set --config or HOME");
}

fn delta(text: &str, done: bool, sequence: u32) -> pb::MessageDelta {
    pb::MessageDelta {
        session_id: "session-1".to_owned(),
        message_id: "message-1".to_owned(),
        delta: text.to_owned(),
        done,
        sequence,
        finish_reason: 0,
    }
}

#[test]
fn session_send_reply_is_every_delta_joined() {
    let stream = vec![
        delta("The door ", false, 1),
        delta("creaks ", false, 2),
        delta("open.", false, 3),
        delta("", true, 4),
    ];
    assert_eq!(reply_text(&stream), "The door creaks open.");
    assert_eq!(printed_text(&stream), "The door creaks open.");
    assert_eq!(reply_text(&Vec::new()), "");
}

#[test]
fn printed_text_leaves_out_the_closing_message() {
    let stream = vec![delta("Hello", false, 1), delta(" tail", true, 2)];
    assert_eq!(printed_text(&stream), "Hello");
    assert_eq!(reply_text(&stream), "Hello tail");
}

#[test]
fn json_uses_names_instead_of_numeric_enums() {
    let message = pb::Message {
        id: "message-1".to_owned(),
        session_id: "session-1".to_owned(),
        role: pb::PbMessageRole::User.as_i32(),
        content: "I knock.".to_owned(),
        created_at: "now".to_owned(),
    };

    assert_eq!(role_name(message.role), "user");
}

#[test]
fn record_lines_are_tab_separated_with_named_fields() {
    let user = pb::User {
        id: "user-1".to_owned(),
        display_name: "Ada".to_owned(),
        created_at: "t0".to_owned(),
    };
    assert_eq!(user_line(&user), "user-1\tAda\tcreated_at=t0");

    let game = pb::Game {
        id: "game-1".to_owned(),
        title: "Harbor".to_owned(),
        system_prompt: "ignored".to_owned(),
        created_at: "t1".to_owned(),
        owner_user_id: "user-1".to_owned(),
    };
    assert_eq!(game_line(&game), "game-1\tHarbor\towner=user-1\tcreated_at=t1");

    let session = pb::Session {
        id: "session-1".to_owned(),
        game_id: "game-1".to_owned(),
        title: "Night".to_owned(),
        created_at: "t2".to_owned(),
    };
    assert_eq!(session_line(&session), "session-1\tNight\tgame=game-1\tcreated_at=t2");
    assert_eq!(play_banner(&session), "session=session-1 title=Night game=game-1");

    let message = pb::Message {
        id: "message-1".to_owned(),
        session_id: "session-1".to_owned(),
        role: pb::PbMessageRole::Assistant.as_i32(),
        content: "A bell rings.".to_owned(),
        created_at: "t3".to_owned(),
    };
    assert_eq!(message_line(&message), "[t3] assistant: A bell rings.");
}

#[test]
fn job_lines_name_kind_and_status() {
    let job = pb::BackgroundJobDebug {
        id: "job-1".to_owned(),
        kind: pb::PbAdminJobKind::UpdateMemoryAfterTurn.as_i32(),
        status: pb::PbAdminJobStatus::Failed.as_i32(),
        payload_json: "{}".to_owned(),
        attempts: 3,
        max_attempts: 3,
        last_error: "model timed out".to_owned(),
        run_after: "t9".to_owned(),
        created_at: "t0".to_owned(),
        updated_at: "t9".to_owned(),
    };
    assert_eq!(job_line(&job), "job-1\tupdate_memory_after_turn\tstatus=failed\tattempts=3/3");
    assert_eq!(
        job_listing_line(&job),
        "job-1\tupdate_memory_after_turn\tstatus=failed\tattempts=3/3\trun_after=t9\tmodel timed out"
    );
}

#[test]
fn memory_lines_show_each_record() {
    let character = pb::Character {
        id: "character-1".to_owned(),
        game_id: "game-1".to_owned(),
        name: "Mira".to_owned(),
        description: "A harbor pilot.".to_owned(),
        status: "alive".to_owned(),
        updated_at: "t0".to_owned(),
    };
    assert_eq!(character_line(&character), "character-1\tMira\tstatus=alive\tA harbor pilot.");
    assert_eq!(character_detail(&character), "character-1\tMira\tstatus=alive\nA harbor pilot.");

    let event = pb::Event {
        id: "event-1".to_owned(),
        session_id: "session-1".to_owned(),
        summary: "The bell rang.".to_owned(),
        importance: -2,
        created_at: "t1".to_owned(),
    };
    assert_eq!(event_line(&event), "event-1\timportance=-2\tt1\tThe bell rang.");

    let location = pb::Location {
        id: "location-1".to_owned(),
        game_id: "game-1".to_owned(),
        name: "Pier".to_owned(),
        description: "Wet planks.".to_owned(),
        updated_at: "t2".to_owned(),
    };
    assert_eq!(location_line(&location), "location-1\tPier\tWet planks.");
}

#[test]
fn context_and_health_lines() {
    assert_eq!(estimated_tokens_line(1234), "estimated_tokens=1234");
    let message = pb::ContextMessage {
        role: pb::PbMessageRole::System.as_i32(),
        content: "Trusted state.".to_owned(),
        estimated_tokens: 4,
    };
    assert_eq!(context_message_text(&message), "system [4 tokens]\nTrusted state.");

    let health = pb::HealthCheckResponse {
        status: pb::PbServingStatus::Degraded.as_i32(),
        service: "harpe.v1".to_owned(),
        version: "0.1.0".to_owned(),
        database_ok: false,
        pending_jobs: 2,
        failed_jobs: 0,
        checked_at: "t5".to_owned(),
    };
    assert_eq!(
        health_line(&health),
        "harpe.v1 status=degraded database_ok=false pending_jobs=2 failed_jobs=0 checked_at=t5"
    );
}

#[test]
fn metrics_line_lists_every_counter() {
    let snapshot = pb::MetricsSnapshot {
        grpc_requests: 12,
        grpc_failures: 1,
        streamed_messages: 40,
        jobs_processed: 3,
        jobs_succeeded: 2,
        jobs_retried: 1,
        jobs_failed: 0,
        health_checks: 5,
        grpc_latency_count: 12,
        grpc_latency_sum_ms: 300,
        grpc_latency_buckets: Vec::new(),
        collected_at: "t7".to_owned(),
    };
    assert_eq!(
        metrics_line(&snapshot),
        "grpc_requests=12 grpc_failures=1 streamed_messages=40 jobs_processed=3 jobs_succeeded=2 jobs_retried=1 jobs_failed=0 health_checks=5 collected_at=t7"
    );
}
