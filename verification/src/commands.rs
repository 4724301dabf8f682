//! The decisions of the `harpe` client around its subcommands: what a run
//! needs before it connects, how the configuration commands change the saved
//! choices, and how a line typed in the interactive mode is read.

use vstd::prelude::*;

use crate::args::{
    AdminCommand, BackupCommand, Cli, Command, ConfigCommand, ConfigKey, GameCommand, JobStatusArg,
    MemoryCommand, MetricsCommand, PageArgs, SessionCommand, UserCommand,
};
use crate::client::{
    explicit_or_configured, join_words, normalize_optional_model, read_prompt, PromptSource,
    normalize_addr, opt_string_view, opt_view, or_else, present_value, required_user_id,
    required_value, resolve_addr, resolve_user_id, spec_normalize_addr, ClientConfig, CliError,
    DEFAULT_ADDR,
};
use crate::api::joined;
use crate::pb::{self, PageRequest, PbAdminJobStatus};
use crate::text::{join_with, string_views, concat_str, is_blank, is_blank_str, str_eq, strip_prefix_str, str_starts_with, starts_with, trim, trim_str};

verus! {

/// Whether the subcommand acts on data that belongs to a user, and so needs
/// to know which user it acts as.
pub open spec fn acts_for_user(c: Command) -> bool {
    match c {
        Command::Game(_) | Command::Session(_) | Command::Memory(_) | Command::Backup(_)
        | Command::Play(_) => true,
        _ => false,
    }
}

/// Whether the subcommand acts on data that belongs to a user.
pub fn needs_user_id(command: &Command) -> (r: bool)
    ensures
        r == acts_for_user(*command),
{
    match command {
        Command::Game(_) | Command::Session(_) | Command::Memory(_) | Command::Backup(_)
        | Command::Play(_) => true,
        _ => false,
    }
}

/// What a run of `harpe` does first: change the configuration file, or
/// connect to the server at `addr`, as the user `user_id` where the
/// subcommand acts for one.
#[derive(Clone, Debug, PartialEq, Eq)]
pub enum Plan {
    Configure,
    Connect { addr: String, user_id: Option<String> },
}

/// The message of the error for an owned command run without a user.
pub open spec fn missing_user_message() -> Seq<char> {
    "set --user-id or HARPE_USER_ID for this command"@
}

/// The server and the user come first from the command line, then from the
/// environment, then from the saved configuration: `Cli::with_env` fills
/// what the command line lacks, and `plan_execution` falls back to the saved
/// choice, so the first of the three that is present wins.
pub proof fn resolution_prefers_flag_then_env_then_config(
    flag: Option<Seq<char>>,
    env: Option<Seq<char>>,
    saved: Option<Seq<char>>,
)
    ensures
        or_else(or_else(flag, env), saved) == (if flag is Some {
            flag
        } else if env is Some {
            env
        } else {
            saved
        }),
{
}

/// What a run of the command line `cli` with the saved choices `config`
/// does first. The configuration commands need nothing more; every other
/// subcommand needs a server address (the given one, else the saved one,
/// else the default), and those that act for a user need a user that is not
/// blank, all checked before any connection is made.
pub fn plan_execution(cli: &Cli, config: &ClientConfig) -> (r: Result<Plan, CliError>)
    ensures
        cli.command is Config ==> r matches Ok(Plan::Configure),
        !(cli.command is Config) ==> match spec_normalize_addr(
            match or_else(opt_string_view(cli.addr), opt_string_view(config.addr)) {
                Some(a) => a,
                None => DEFAULT_ADDR@,
            },
        ) {
            Err(m) => r matches Err(e) && e.spec_message() == m,
            Ok(a) => if acts_for_user(cli.command) {
                match present_value(or_else(opt_string_view(cli.user_id), opt_string_view(config.user_id))) {
                    Some(u) => r matches Ok(Plan::Connect { addr, user_id: Some(user) }) && addr@ == a
                        && user@ == u,
                    None => r matches Err(e) && e.spec_message() == missing_user_message(),
                }
            } else {
                r matches Ok(Plan::Connect { addr, user_id: None }) && addr@ == a
            },
        },
{
    if let Command::Config(_) = &cli.command {
        return Ok(Plan::Configure);
    }
    let cli_addr: Option<&str> = match &cli.addr {
        Some(a) => Some(a.as_str()),
        None => None,
    };
    let addr = resolve_addr(cli_addr, config)?;
    if needs_user_id(&cli.command) {
        let cli_user: Option<&str> = match &cli.user_id {
            Some(u) => Some(u.as_str()),
            None => None,
        };
        let user = required_user_id(resolve_user_id(cli_user, config))?;
        Ok(Plan::Connect { addr, user_id: Some(user) })
    } else {
        Ok(Plan::Connect { addr, user_id: None })
    }
}

/// A value the user must give: trimmed, and refused when blank.
pub open spec fn required_text(name: Seq<char>, value: Seq<char>) -> Result<Seq<char>, Seq<char>> {
    if is_blank(value) {
        Err(name + " is required"@)
    } else {
        Ok(trim(value))
    }
}

/// Whether `after` is `before` with only the saved user, game and session
/// kept as they were, the address aside.
pub open spec fn keeps_all_but_addr(before: ClientConfig, after: ClientConfig) -> bool {
    after.user_id == before.user_id && after.game_id == before.game_id && after.session_id
        == before.session_id
}

/// Applies a configuration subcommand to the saved choices `config`; says
/// whether they changed and must be saved. `show` changes nothing; `set-*`
/// stores the value normalized (an address as `normalize_addr` makes it,
/// anything else trimmed), leaving the rest and refusing a value that cannot
/// be stored, with nothing changed; `clear` forgets one choice, or all.
pub fn apply_config_command(command: &ConfigCommand, config: &mut ClientConfig) -> (r: Result<
    bool,
    CliError,
>)
    ensures
        r matches Err(_) ==> *final(config) == *old(config),
        match *command {
            ConfigCommand::Show => r == Ok::<bool, CliError>(false) && *final(config) == *old(config),
            ConfigCommand::SetAddr { addr } => match spec_normalize_addr(addr@) {
                Ok(n) => r == Ok::<bool, CliError>(true) && opt_string_view(final(config).addr) == Some(n)
                    && keeps_all_but_addr(*old(config), *final(config)),
                Err(m) => r matches Err(e) && e.spec_message() == m,
            },
            ConfigCommand::SetUser { user_id } => match required_text("user id"@, user_id@) {
                Ok(v) => r == Ok::<bool, CliError>(true) && opt_string_view(final(config).user_id) == Some(v)
                    && final(config).addr == old(config).addr && final(config).game_id == old(config).game_id
                    && final(config).session_id == old(config).session_id,
                Err(m) => r matches Err(e) && e.spec_message() == m,
            },
            ConfigCommand::SetGame { game_id } => match required_text("game id"@, game_id@) {
                Ok(v) => r == Ok::<bool, CliError>(true) && opt_string_view(final(config).game_id) == Some(v)
                    && final(config).addr == old(config).addr && final(config).user_id == old(config).user_id
                    && final(config).session_id == old(config).session_id,
                Err(m) => r matches Err(e) && e.spec_message() == m,
            },
            ConfigCommand::SetSession { session_id } => match required_text("session id"@, session_id@) {
                Ok(v) => r == Ok::<bool, CliError>(true) && opt_string_view(final(config).session_id) == Some(v)
                    && final(config).addr == old(config).addr && final(config).user_id == old(config).user_id
                    && final(config).game_id == old(config).game_id,
                Err(m) => r matches Err(e) && e.spec_message() == m,
            },
            ConfigCommand::Clear { key } => {
                &&& r == Ok::<bool, CliError>(true)
                &&& final(config).addr == (if key == ConfigKey::Addr || key == ConfigKey::All { None } else { old(config).addr })
                &&& final(config).user_id == (if key == ConfigKey::User || key == ConfigKey::All { None } else { old(config).user_id })
                &&& final(config).game_id == (if key == ConfigKey::Game || key == ConfigKey::All { None } else { old(config).game_id })
                &&& final(config).session_id == (if key == ConfigKey::Session || key == ConfigKey::All { None } else { old(config).session_id })
            },
        },
{
    match command {
        ConfigCommand::Show => Ok(false),
        ConfigCommand::SetAddr { addr } => {
            let a = normalize_addr(addr.as_str())?;
            config.addr = Some(a);
            Ok(true)
        },
        ConfigCommand::SetUser { user_id } => {
            let v = required_value("user id", user_id.as_str())?;
            config.user_id = Some(v);
            Ok(true)
        },
        ConfigCommand::SetGame { game_id } => {
            let v = required_value("game id", game_id.as_str())?;
            config.game_id = Some(v);
            Ok(true)
        },
        ConfigCommand::SetSession { session_id } => {
            let v = required_value("session id", session_id.as_str())?;
            config.session_id = Some(v);
            Ok(true)
        },
        ConfigCommand::Clear { key } => {
            match key {
                ConfigKey::Addr => config.addr = None,
                ConfigKey::User => config.user_id = None,
                ConfigKey::Game => config.game_id = None,
                ConfigKey::Session => config.session_id = None,
                ConfigKey::All => {
                    config.addr = None;
                    config.user_id = None;
                    config.game_id = None;
                    config.session_id = None;
                },
            }
            Ok(true)
        },
    }
}


/// The text of an optional saved choice, or `default`.
pub open spec fn shown(value: Option<String>, default: Seq<char>) -> Seq<char> {
    match value {
        Some(v) => v@,
        None => default,
    }
}

/// The text of an optional saved choice, or `default`.
fn shown_text(value: &Option<String>, default: &str) -> (r: String)
    ensures
        r@ == shown(*value, default@),
{
    match value {
        Some(v) => v.clone(),
        None => default.to_owned(),
    }
}

/// The lines that `config show` prints for the configuration file at
/// `path` holding `config`: the path, then each saved choice, the address
/// defaulting to the built-in one and the others to nothing.
pub fn config_lines(path: &str, config: &ClientConfig) -> (r: Vec<String>)
    ensures
        r@.len() == 5,
        r@[0]@ == "path="@ + path@,
        r@[1]@ == "addr="@ + shown(config.addr, DEFAULT_ADDR@),
        r@[2]@ == "user_id="@ + shown(config.user_id, Seq::empty()),
        r@[3]@ == "game_id="@ + shown(config.game_id, Seq::empty()),
        r@[4]@ == "session_id="@ + shown(config.session_id, Seq::empty()),
{
    let mut r: Vec<String> = Vec::new();
    r.push(concat_str("path=", path));
    r.push(concat_str("addr=", shown_text(&config.addr, DEFAULT_ADDR).as_str()));
    r.push(concat_str("user_id=", shown_text(&config.user_id, "").as_str()));
    r.push(concat_str("game_id=", shown_text(&config.game_id, "").as_str()));
    r.push(concat_str("session_id=", shown_text(&config.session_id, "").as_str()));
    proof {
        reveal_strlit("");
    }
    r
}

/// The line that lists the commands of the interactive mode.
pub fn play_help() -> (r: &'static str)
    ensures
        r@ == "commands: /context <message>, /summary, /characters, /events, /memory <query>, /help, /quit"@,
{
    "commands: /context <message>, /summary, /characters, /events, /memory <query>, /help, /quit"
}

/// What a line typed in the interactive mode asks for.
#[derive(Clone, Debug, PartialEq, Eq)]
pub enum PlayInput {
    /// A blank line, which is skipped.
    Blank,
    Quit,
    Help,
    Summary,
    Characters,
    Events,
    /// The context the server would build for a message.
    Context(String),
    /// A search of the session's memory.
    Memory(String),
    /// A `/` command that does not exist.
    Unknown(String),
    /// A turn of the story, sent to the narrator.
    Send(String),
}

/// What a line typed in the interactive mode asks for, in text.
pub enum PlayInputView {
    Blank,
    Quit,
    Help,
    Summary,
    Characters,
    Events,
    Context(Seq<char>),
    Memory(Seq<char>),
    Unknown(Seq<char>),
    Send(Seq<char>),
}

impl View for PlayInput {
    type V = PlayInputView;

    open spec fn view(&self) -> PlayInputView {
        match self {
            PlayInput::Blank => PlayInputView::Blank,
            PlayInput::Quit => PlayInputView::Quit,
            PlayInput::Help => PlayInputView::Help,
            PlayInput::Summary => PlayInputView::Summary,
            PlayInput::Characters => PlayInputView::Characters,
            PlayInput::Events => PlayInputView::Events,
            PlayInput::Context(v) => PlayInputView::Context(v@),
            PlayInput::Memory(v) => PlayInputView::Memory(v@),
            PlayInput::Unknown(v) => PlayInputView::Unknown(v@),
            PlayInput::Send(v) => PlayInputView::Send(v@),
        }
    }
}

/// What `line` asks for, once trimmed: a blank line is skipped; `/quit` and
/// `/exit` end the session; `/help`, `/summary`, `/characters` and `/events`
/// are commands; `/context ` and `/memory ` take the rest of the line, which
/// must not be blank; any other line that starts with `/` is an unknown
/// command; anything else is a turn of the story.
pub open spec fn play_input_of(line: Seq<char>) -> Result<PlayInputView, Seq<char>> {
    let input = trim(line);
    if input.len() == 0 {
        Ok(PlayInputView::Blank)
    } else if input == "/quit"@ || input == "/exit"@ {
        Ok(PlayInputView::Quit)
    } else if input == "/help"@ {
        Ok(PlayInputView::Help)
    } else if input == "/summary"@ {
        Ok(PlayInputView::Summary)
    } else if input == "/characters"@ {
        Ok(PlayInputView::Characters)
    } else if input == "/events"@ {
        Ok(PlayInputView::Events)
    } else if starts_with(input, "/context "@) {
        match required_text("context content"@, input.skip(9)) {
            Ok(v) => Ok(PlayInputView::Context(v)),
            Err(m) => Err(m),
        }
    } else if starts_with(input, "/memory "@) {
        match required_text("memory query"@, input.skip(8)) {
            Ok(v) => Ok(PlayInputView::Memory(v)),
            Err(m) => Err(m),
        }
    } else if starts_with(input, "/"@) {
        Ok(PlayInputView::Unknown(input))
    } else {
        Ok(PlayInputView::Send(input))
    }
}


/// Each command of the interactive mode, typed alone on its line with any
/// white space around it, asks for its own action: `/quit` and `/exit`
/// quit, `/help` shows help, `/summary` fetches the story summary,
/// `/characters` the cast and `/events` the recent events.
pub proof fn play_commands_read_as_themselves(line: Seq<char>)
    ensures
        trim(line) == "/quit"@ ==> play_input_of(line) == Ok::<PlayInputView, Seq<char>>(PlayInputView::Quit),
        trim(line) == "/exit"@ ==> play_input_of(line) == Ok::<PlayInputView, Seq<char>>(PlayInputView::Quit),
        trim(line) == "/help"@ ==> play_input_of(line) == Ok::<PlayInputView, Seq<char>>(PlayInputView::Help),
        trim(line) == "/summary"@ ==> play_input_of(line) == Ok::<PlayInputView, Seq<char>>(
            PlayInputView::Summary,
        ),
        trim(line) == "/characters"@ ==> play_input_of(line) == Ok::<PlayInputView, Seq<char>>(
            PlayInputView::Characters,
        ),
        trim(line) == "/events"@ ==> play_input_of(line) == Ok::<PlayInputView, Seq<char>>(
            PlayInputView::Events,
        ),
{
    reveal_strlit("/quit");
    reveal_strlit("/exit");
    reveal_strlit("/help");
    reveal_strlit("/summary");
    reveal_strlit("/characters");
    reveal_strlit("/events");
    assert("/help"@[1] != "/quit"@[1] && "/help"@[1] != "/exit"@[1]);
}

/// `/context ` and `/memory ` followed by some text ask for the context of
/// that text and a memory search for it, the text trimmed.
pub proof fn play_commands_with_text(line: Seq<char>, text: Seq<char>)
    requires
        !is_blank(text),
    ensures
        trim(line) == "/context "@ + text ==> play_input_of(line) == Ok::<PlayInputView, Seq<char>>(
            PlayInputView::Context(trim(text)),
        ),
        trim(line) == "/memory "@ + text ==> play_input_of(line) == Ok::<PlayInputView, Seq<char>>(
            PlayInputView::Memory(trim(text)),
        ),
{
    reveal_strlit("/quit");
    reveal_strlit("/exit");
    reveal_strlit("/help");
    reveal_strlit("/summary");
    reveal_strlit("/characters");
    reveal_strlit("/events");
    reveal_strlit("/context ");
    reveal_strlit("/memory ");
    let t = trim(line);
    if t == "/context "@ + text {
        assert(t.take(9) =~= "/context "@);
        assert(t.skip(9) =~= text);
        assert(t.len() > 9);
        assert(t[1] == 'c');
    }
    if t == "/memory "@ + text {
        assert(t.take(8) =~= "/memory "@);
        assert(t.skip(8) =~= text);
        assert(t.len() > 8);
        assert(t[1] == 'm');
        assert(t[8 - 1] == ' ');
        assert(!starts_with(t, "/context "@)) by {
            assert(t[1] != "/context "@[1]);
        }
    }
}

/// A line that does not start with `/` is a turn of the story: its trimmed
/// text is sent as it is.
pub proof fn plain_lines_are_story_turns(line: Seq<char>)
    requires
        trim(line).len() > 0,
        trim(line)[0] != '/',
    ensures
        play_input_of(line) == Ok::<PlayInputView, Seq<char>>(PlayInputView::Send(trim(line))),
{
    reveal_strlit("/quit");
    reveal_strlit("/exit");
    reveal_strlit("/help");
    reveal_strlit("/summary");
    reveal_strlit("/characters");
    reveal_strlit("/events");
    reveal_strlit("/context ");
    reveal_strlit("/memory ");
    reveal_strlit("/");
    let t = trim(line);
    assert(t.take(1)[0] == t[0]);
}

/// What the line `line` typed in the interactive mode asks for.
pub fn read_play_input(line: &str) -> (r: Result<PlayInput, CliError>)
    ensures
        match play_input_of(line@) {
            Ok(v) => r matches Ok(p) && p@ == v,
            Err(m) => r matches Err(e) && e.spec_message() == m,
        },
{
    let input = trim_str(line);
    let s = input.as_str();
    if s.is_empty() {
        return Ok(PlayInput::Blank);
    }
    if str_eq(s, "/quit") || str_eq(s, "/exit") {
        return Ok(PlayInput::Quit);
    }
    if str_eq(s, "/help") {
        return Ok(PlayInput::Help);
    }
    if str_eq(s, "/summary") {
        return Ok(PlayInput::Summary);
    }
    if str_eq(s, "/characters") {
        return Ok(PlayInput::Characters);
    }
    if str_eq(s, "/events") {
        return Ok(PlayInput::Events);
    }
    proof {
        reveal_strlit("/context ");
        reveal_strlit("/memory ");
    }
    match strip_prefix_str(s, "/context ") {
        Some(rest) => {
            let v = required_value("context content", rest.as_str())?;
            return Ok(PlayInput::Context(v));
        },
        None => {},
    }
    match strip_prefix_str(s, "/memory ") {
        Some(rest) => {
            let v = required_value("memory query", rest.as_str())?;
            return Ok(PlayInput::Memory(v));
        },
        None => {},
    }
    if str_starts_with(s, "/") {
        return Ok(PlayInput::Unknown(input));
    }
    Ok(PlayInput::Send(input))
}

/// The wire number of the job status that `admin jobs` asks for; `all`
/// asks for none in particular.
pub fn admin_status_filter(status: JobStatusArg) -> (r: i32)
    ensures
        r == match status {
            JobStatusArg::All => PbAdminJobStatus::Unspecified.code(),
            JobStatusArg::Pending => PbAdminJobStatus::Pending.code(),
            JobStatusArg::Running => PbAdminJobStatus::Running.code(),
            JobStatusArg::Succeeded => PbAdminJobStatus::Succeeded.code(),
            JobStatusArg::Failed => PbAdminJobStatus::Failed.code(),
        },
{
    match status {
        JobStatusArg::All => PbAdminJobStatus::Unspecified.as_i32(),
        JobStatusArg::Pending => PbAdminJobStatus::Pending.as_i32(),
        JobStatusArg::Running => PbAdminJobStatus::Running.as_i32(),
        JobStatusArg::Succeeded => PbAdminJobStatus::Succeeded.as_i32(),
        JobStatusArg::Failed => PbAdminJobStatus::Failed.as_i32(),
    }
}

impl PageArgs {
    /// The page request these options make: the limit as page size, and
    /// the page token or nothing.
    pub fn request(&self) -> (r: PageRequest)
        ensures
            r.page_size == self.limit,
            r.page_token@ == match self.page_token {
                Some(t) => t@,
                None => Seq::<char>::empty(),
            },
    {
        PageRequest {
            page_size: self.limit,
            page_token: match &self.page_token {
                Some(t) => t.clone(),
                None => String::new(),
            },
        }
    }
}


/// The request that a subcommand makes of the server, with the values the
/// client fills in. The listings that the interactive mode also makes carry
/// both the plain `limit` and the optional page, as their requests do; the
/// subcommands send a page and no plain limit.
#[derive(Clone, Debug, PartialEq, Eq)]
pub enum Call {
    Configure,
    Health { service: String },
    Metrics,
    ExportMetrics { out: Option<String> },
    CreateUser { display_name: String },
    GetUser { user_id: String },
    CreateGame { title: String, prompt: PromptSource },
    ListGames { page: PageRequest },
    GetGame { game_id: String },
    CreateSession { game_id: String, title: String },
    ListSessions { game_id: String, page: PageRequest },
    GetSession { session_id: String },
    ListMessages { session_id: String, page: PageRequest },
    PreviewContext { session_id: String, content: String },
    SendMessage { session_id: String, content: String, model: String },
    GetStorySummary { session_id: String },
    ListCharacters { game_id: String, limit: u32, page: Option<PageRequest> },
    GetCharacter { character_id: String },
    ListEvents { session_id: String, limit: u32, page: Option<PageRequest> },
    ListWorldFacts { game_id: String, page: PageRequest },
    ListLocations { game_id: String, page: PageRequest },
    SearchMemory { session_id: String, query: String, limit: u32, page: Option<PageRequest> },
    ExportGame { game_id: String, out: Option<String> },
    ExportGameStream { game_id: String, out: Option<String> },
    ListJobs { status: i32, page: PageRequest },
    RetryJob { job_id: String, max_attempts: i32 },
    PurgeJob { job_id: String },
    ListMemoryChunks { session_id: String, page: PageRequest },
    Play { session_id: String, model: Option<String> },
}

/// Whether `req` is the page request of the paging options `p`.
pub open spec fn page_request_of(req: PageRequest, p: PageArgs) -> bool {
    req.page_size == p.limit && req.page_token@ == match p.page_token {
        Some(t) => t@,
        None => Seq::<char>::empty(),
    }
}

/// The game a subcommand acts on: the one named, else the saved one; it
/// must not be blank.
pub open spec fn game_choice(game: Option<String>, config: ClientConfig) -> Result<Seq<char>, Seq<char>> {
    match present_value(or_else(opt_string_view(game), opt_string_view(config.game_id))) {
        Some(v) => Ok(v),
        None => Err("set game id in config or pass it explicitly"@),
    }
}

/// A game named on the command line wins over the saved one, and either is
/// used trimmed; a blank choice, or none at all, is refused.
pub proof fn named_game_wins_over_saved(game: Option<String>, config: ClientConfig)
    ensures
        game is Some && !is_blank(game->0@) ==> game_choice(game, config) == Ok::<Seq<char>, Seq<char>>(
            trim(game->0@),
        ),
        game is None && config.game_id is Some && !is_blank(config.game_id->0@) ==> game_choice(
            game,
            config,
        ) == Ok::<Seq<char>, Seq<char>>(trim(config.game_id->0@)),
        (game is Some && is_blank(game->0@)) || (game is None && (config.game_id is None || is_blank(
            config.game_id->0@,
        ))) ==> game_choice(game, config) == Err::<Seq<char>, Seq<char>>(
            "set game id in config or pass it explicitly"@,
        ),
{
}

/// `admin jobs` asks for no status in particular with `all`, and for the
/// wire numbers 1 to 4 with pending, running, succeeded and failed.
pub proof fn job_status_arguments_ask_for_their_numbers()
    ensures
        PbAdminJobStatus::Unspecified.code() == 0,
        PbAdminJobStatus::Pending.code() == 1,
        PbAdminJobStatus::Running.code() == 2,
        PbAdminJobStatus::Succeeded.code() == 3,
        PbAdminJobStatus::Failed.code() == 4,
{
}

/// The words of a message, joined by spaces.
pub open spec fn joined_words(words: Vec<String>) -> Seq<char> {
    join_with(string_views(words@), " "@)
}

/// Whether `r` is the request of the session subcommand `c`.
pub open spec fn session_call(c: SessionCommand, config: ClientConfig, r: Result<Call, CliError>) -> bool {
    match c {
        SessionCommand::Create { game, title } => match game_choice(game, config) {
            Ok(g) => r matches Ok(Call::CreateSession { game_id, title: t }) && game_id@ == g && t == title,
            Err(m) => r matches Err(e) && e.spec_message() == m,
        },
        SessionCommand::List { game, page } => match game_choice(game, config) {
            Ok(g) => r matches Ok(Call::ListSessions { game_id, page: req }) && game_id@ == g
                && page_request_of(req, page),
            Err(m) => r matches Err(e) && e.spec_message() == m,
        },
        SessionCommand::Get { session_id } => r == Ok::<Call, CliError>(Call::GetSession { session_id }),
        SessionCommand::Messages { session_id, page } => r matches Ok(
            Call::ListMessages { session_id: s, page: req },
        ) && s == session_id && page_request_of(req, page),
        SessionCommand::Context { session_id, content } => r matches Ok(
            Call::PreviewContext { session_id: s, content: text },
        ) && s == session_id && text@ == joined_words(content),
        SessionCommand::Send { model, session_id, content } => r matches Ok(
            Call::SendMessage { session_id: s, content: text, model: m },
        ) && s == session_id && text@ == joined_words(content) && m@ == match present_value(
            opt_string_view(model),
        ) {
            Some(v) => v,
            None => Seq::<char>::empty(),
        },
    }
}

/// Whether `r` is the request of the memory subcommand `c`.
pub open spec fn memory_call(c: MemoryCommand, config: ClientConfig, r: Result<Call, CliError>) -> bool {
    match c {
        MemoryCommand::Summary { session_id } => r == Ok::<Call, CliError>(
            Call::GetStorySummary { session_id },
        ),
        MemoryCommand::Characters { game, page } => match game_choice(game, config) {
            Ok(g) => r matches Ok(Call::ListCharacters { game_id, limit: 0, page: Some(req) }) && game_id@ == g
                && page_request_of(req, page),
            Err(m) => r matches Err(e) && e.spec_message() == m,
        },
        MemoryCommand::Character { character_id } => r == Ok::<Call, CliError>(
            Call::GetCharacter { character_id },
        ),
        MemoryCommand::Events { session_id, page } => r matches Ok(
            Call::ListEvents { session_id: s, limit: 0, page: Some(req) },
        ) && s == session_id && page_request_of(req, page),
        MemoryCommand::Facts { game, page } => match game_choice(game, config) {
            Ok(g) => r matches Ok(Call::ListWorldFacts { game_id, page: req }) && game_id@ == g
                && page_request_of(req, page),
            Err(m) => r matches Err(e) && e.spec_message() == m,
        },
        MemoryCommand::Locations { game, page } => match game_choice(game, config) {
            Ok(g) => r matches Ok(Call::ListLocations { game_id, page: req }) && game_id@ == g
                && page_request_of(req, page),
            Err(m) => r matches Err(e) && e.spec_message() == m,
        },
        MemoryCommand::Search { session_id, query, page } => r matches Ok(
            Call::SearchMemory { session_id: s, query: q, limit: 0, page: Some(req) },
        ) && s == session_id && q@ == joined_words(query) && page_request_of(req, page),
    }
}

/// Whether `r` is the request of the subcommand `c`, run with the saved
/// choices `config`, its output asked as JSON when `as_json`.
pub open spec fn call_of(c: Command, config: ClientConfig, as_json: bool, r: Result<Call, CliError>) -> bool {
    match c {
        Command::Config(_) => r == Ok::<Call, CliError>(Call::Configure),
        Command::Health(a) => r == Ok::<Call, CliError>(Call::Health { service: a.service }),
        Command::Metrics(a) => match a.command {
            None => r == Ok::<Call, CliError>(Call::Metrics),
            Some(MetricsCommand::Export { out }) => r == Ok::<Call, CliError>(Call::ExportMetrics { out }),
        },
        Command::User(a) => match a.command {
            UserCommand::Create { name } => r == Ok::<Call, CliError>(Call::CreateUser { display_name: name }),
            UserCommand::Get { user_id } => r == Ok::<Call, CliError>(Call::GetUser { user_id }),
        },
        Command::Game(a) => match a.command {
            GameCommand::Create { title, system_prompt, system_prompt_file } => {
                if !is_blank(system_prompt@) && system_prompt_file is Some {
                    r matches Err(e) && e.spec_message()
                        == "use either --system-prompt or --system-prompt-file, not both"@
                } else {
                    r matches Ok(Call::CreateGame { title: t, prompt }) && t == title && match prompt {
                        PromptSource::File(f) => system_prompt_file == Some(f),
                        PromptSource::Text(text) => system_prompt_file is None && text@ == (if is_blank(
                            system_prompt@,
                        ) {
                            Seq::<char>::empty()
                        } else {
                            system_prompt@
                        }),
                    }
                }
            },
            GameCommand::List { page } => r matches Ok(Call::ListGames { page: req }) && page_request_of(req, page),
            GameCommand::Get { game_id } => r == Ok::<Call, CliError>(Call::GetGame { game_id }),
        },
        Command::Session(a) => session_call(a.command, config, r),
        Command::Memory(a) => memory_call(a.command, config, r),
        Command::Backup(a) => match a.command {
            BackupCommand::Export { game, out } => match game_choice(game, config) {
                Ok(g) => r matches Ok(Call::ExportGame { game_id, out: o }) && game_id@ == g && o == out,
                Err(m) => r matches Err(e) && e.spec_message() == m,
            },
            BackupCommand::Stream { game, out } => match game_choice(game, config) {
                Ok(g) => r matches Ok(Call::ExportGameStream { game_id, out: o }) && game_id@ == g && o == out,
                Err(m) => r matches Err(e) && e.spec_message() == m,
            },
        },
        Command::Admin(a) => match a.command {
            AdminCommand::Jobs { status, page } => r matches Ok(Call::ListJobs { status: s, page: req })
                && s == match status {
                    JobStatusArg::All => PbAdminJobStatus::Unspecified.code(),
                    JobStatusArg::Pending => PbAdminJobStatus::Pending.code(),
                    JobStatusArg::Running => PbAdminJobStatus::Running.code(),
                    JobStatusArg::Succeeded => PbAdminJobStatus::Succeeded.code(),
                    JobStatusArg::Failed => PbAdminJobStatus::Failed.code(),
                } && page_request_of(req, page),
            AdminCommand::RetryJob { job_id, max_attempts } => r == Ok::<Call, CliError>(
                Call::RetryJob {
                    job_id,
                    max_attempts: match max_attempts {
                        Some(m) => m,
                        None => 0,
                    },
                },
            ),
            AdminCommand::PurgeJob { job_id } => r == Ok::<Call, CliError>(Call::PurgeJob { job_id }),
            AdminCommand::MemoryChunks { session_id, page } => r matches Ok(
                Call::ListMemoryChunks { session_id: s, page: req },
            ) && s == session_id && page_request_of(req, page),
        },
        Command::Play(a) => if as_json {
            r matches Err(e) && e.spec_message() == "--json is not supported with play"@
        } else {
            match present_value(or_else(opt_string_view(a.session_id), opt_string_view(config.session_id))) {
                Some(s) => r matches Ok(Call::Play { session_id, model }) && session_id@ == s && model
                    == a.model,
                None => r matches Err(e) && e.spec_message()
                    == "set session id in config or pass it explicitly"@,
            }
        },
    }
}

/// The game a subcommand acts on.
fn chosen_game(game: &Option<String>, config: &ClientConfig) -> (r: Result<String, CliError>)
    ensures
        match game_choice(*game, *config) {
            Ok(g) => r matches Ok(v) && v@ == g,
            Err(m) => r matches Err(e) && e.spec_message() == m,
        },
{
    let explicit: Option<&str> = match game {
        Some(g) => Some(g.as_str()),
        None => None,
    };
    proof {
        reveal_strlit("set ");
        reveal_strlit("game id");
        reveal_strlit(" in config or pass it explicitly");
        reveal_strlit("set game id in config or pass it explicitly");
        assert("set "@ + "game id"@ + " in config or pass it explicitly"@
            =~= "set game id in config or pass it explicitly"@);
    }
    explicit_or_configured("game id", explicit, &config.game_id)
}

/// The request that the subcommand `command` makes of the server, run with
/// the saved choices `config`, its output asked as JSON when `as_json`;
/// a game or session left to the saved choices must be there, and a
/// system prompt cannot be given both ways.
pub fn call_for(command: &Command, config: &ClientConfig, as_json: bool) -> (r: Result<Call, CliError>)
    ensures
        call_of(*command, *config, as_json, r),
{
    match command {
        Command::Config(_) => Ok(Call::Configure),
        Command::Health(a) => Ok(Call::Health { service: a.service.clone() }),
        Command::Metrics(a) => match &a.command {
            None => Ok(Call::Metrics),
            Some(MetricsCommand::Export { out }) => Ok(Call::ExportMetrics { out: out.clone() }),
        },
        Command::User(a) => match &a.command {
            UserCommand::Create { name } => Ok(Call::CreateUser { display_name: name.clone() }),
            UserCommand::Get { user_id } => Ok(Call::GetUser { user_id: user_id.clone() }),
        },
        Command::Game(a) => match &a.command {
            GameCommand::Create { title, system_prompt, system_prompt_file } => {
                let prompt = read_prompt(system_prompt.clone(), system_prompt_file.clone())?;
                Ok(Call::CreateGame { title: title.clone(), prompt })
            },
            GameCommand::List { page } => Ok(Call::ListGames { page: page.request() }),
            GameCommand::Get { game_id } => Ok(Call::GetGame { game_id: game_id.clone() }),
        },
        Command::Session(a) => match &a.command {
            SessionCommand::Create { game, title } => {
                let game_id = chosen_game(game, config)?;
                Ok(Call::CreateSession { game_id, title: title.clone() })
            },
            SessionCommand::List { game, page } => {
                let game_id = chosen_game(game, config)?;
                Ok(Call::ListSessions { game_id, page: page.request() })
            },
            SessionCommand::Get { session_id } => Ok(Call::GetSession { session_id: session_id.clone() }),
            SessionCommand::Messages { session_id, page } => Ok(
                Call::ListMessages { session_id: session_id.clone(), page: page.request() },
            ),
            SessionCommand::Context { session_id, content } => Ok(
                Call::PreviewContext {
                    session_id: session_id.clone(),
                    content: join_words(content.clone()),
                },
            ),
            SessionCommand::Send { model, session_id, content } => Ok(
                Call::SendMessage {
                    session_id: session_id.clone(),
                    content: join_words(content.clone()),
                    model: normalize_optional_model(model.clone()),
                },
            ),
        },
        Command::Memory(a) => match &a.command {
            MemoryCommand::Summary { session_id } => Ok(
                Call::GetStorySummary { session_id: session_id.clone() },
            ),
            MemoryCommand::Characters { game, page } => {
                let game_id = chosen_game(game, config)?;
                Ok(Call::ListCharacters { game_id, limit: 0, page: Some(page.request()) })
            },
            MemoryCommand::Character { character_id } => Ok(
                Call::GetCharacter { character_id: character_id.clone() },
            ),
            MemoryCommand::Events { session_id, page } => Ok(
                Call::ListEvents { session_id: session_id.clone(), limit: 0, page: Some(page.request()) },
            ),
            MemoryCommand::Facts { game, page } => {
                let game_id = chosen_game(game, config)?;
                Ok(Call::ListWorldFacts { game_id, page: page.request() })
            },
            MemoryCommand::Locations { game, page } => {
                let game_id = chosen_game(game, config)?;
                Ok(Call::ListLocations { game_id, page: page.request() })
            },
            MemoryCommand::Search { session_id, query, page } => Ok(
                Call::SearchMemory {
                    session_id: session_id.clone(),
                    query: join_words(query.clone()),
                    limit: 0,
                    page: Some(page.request()),
                },
            ),
        },
        Command::Backup(a) => match &a.command {
            BackupCommand::Export { game, out } => {
                let game_id = chosen_game(game, config)?;
                Ok(Call::ExportGame { game_id, out: out.clone() })
            },
            BackupCommand::Stream { game, out } => {
                let game_id = chosen_game(game, config)?;
                Ok(Call::ExportGameStream { game_id, out: out.clone() })
            },
        },
        Command::Admin(a) => match &a.command {
            AdminCommand::Jobs { status, page } => Ok(
                Call::ListJobs { status: admin_status_filter(*status), page: page.request() },
            ),
            AdminCommand::RetryJob { job_id, max_attempts } => Ok(
                Call::RetryJob {
                    job_id: job_id.clone(),
                    max_attempts: match max_attempts {
                        Some(m) => *m,
                        None => 0,
                    },
                },
            ),
            AdminCommand::PurgeJob { job_id } => Ok(Call::PurgeJob { job_id: job_id.clone() }),
            AdminCommand::MemoryChunks { session_id, page } => Ok(
                Call::ListMemoryChunks { session_id: session_id.clone(), page: page.request() },
            ),
        },
        Command::Play(a) => {
            if as_json {
                return Err(CliError::InvalidInput("--json is not supported with play".to_owned()));
            }
            let explicit: Option<&str> = match &a.session_id {
                Some(s) => Some(s.as_str()),
                None => None,
            };
            proof {
                reveal_strlit("set ");
                reveal_strlit("session id");
                reveal_strlit(" in config or pass it explicitly");
                reveal_strlit("set session id in config or pass it explicitly");
                assert("set "@ + "session id"@ + " in config or pass it explicitly"@
                    =~= "set session id in config or pass it explicitly"@);
            }
            let session_id = explicit_or_configured("session id", explicit, &config.session_id)?;
            Ok(Call::Play { session_id, model: a.model.clone() })
        },
    }
}


/// The reply a `session send` gathers from the streamed deltas: every
/// delta's text, in order; the `--json` output gives it as `response`.
pub open spec fn reply_of(deltas: Seq<pb::MessageDelta>) -> Seq<char>
    decreases deltas.len(),
{
    if deltas.len() == 0 {
        Seq::empty()
    } else {
        reply_of(deltas.drop_last()) + deltas.last().delta@
    }
}

/// What a `session send` prints without `--json`: the text of each delta
/// but the closing one, in order.
pub open spec fn printed_of(deltas: Seq<pb::MessageDelta>) -> Seq<char>
    decreases deltas.len(),
{
    if deltas.len() == 0 {
        Seq::empty()
    } else if deltas.last().done {
        printed_of(deltas.drop_last())
    } else {
        printed_of(deltas.drop_last()) + deltas.last().delta@
    }
}

/// The reply gathered from the streamed `deltas`, as `--json` reports it.
pub fn reply_text(deltas: &Vec<pb::MessageDelta>) -> (r: String)
    ensures
        r@ == reply_of(deltas@),
{
    let mut r = String::new();
    let mut i: usize = 0;
    while i < deltas.len()
        invariant
            i <= deltas@.len(),
            r@ == reply_of(deltas@.take(i as int)),
        decreases deltas.len() - i,
    {
        assert(deltas@.take(i + 1).drop_last() =~= deltas@.take(i as int));
        r.append(deltas[i].delta.as_str());
        i = i + 1;
    }
    assert(deltas@.take(deltas@.len() as int) =~= deltas@);
    r
}

/// The text printed for the streamed `deltas` without `--json`.
pub fn printed_text(deltas: &Vec<pb::MessageDelta>) -> (r: String)
    ensures
        r@ == printed_of(deltas@),
{
    let mut r = String::new();
    let mut i: usize = 0;
    while i < deltas.len()
        invariant
            i <= deltas@.len(),
            r@ == printed_of(deltas@.take(i as int)),
        decreases deltas.len() - i,
    {
        assert(deltas@.take(i + 1).drop_last() =~= deltas@.take(i as int));
        if !deltas[i].done {
            r.append(deltas[i].delta.as_str());
        }
        i = i + 1;
    }
    assert(deltas@.take(deltas@.len() as int) =~= deltas@);
    r
}

/// The client shows the reply the server streamed: when the server sends
/// the deltas `received` and then a closing message with no text, the
/// reply gathered from the stream, and the text printed without `--json`,
/// are `received` joined.
pub proof fn client_reply_is_the_streamed_reply(stream: Seq<pb::MessageDelta>, received: Seq<Seq<char>>)
    requires
        stream.len() == received.len() + 1,
        forall|i: int| 0 <= i < received.len() ==> (#[trigger] stream[i]).delta@ == received[i] && !stream[i].done,
        stream.last().done,
        stream.last().delta@ == Seq::<char>::empty(),
    ensures
        reply_of(stream) == joined(received),
        printed_of(stream) == joined(received),
{
    lemma_open_stream(stream.drop_last(), received);
    assert(reply_of(stream) =~= reply_of(stream.drop_last()));
}

/// Before the closing message, both the gathered reply and the printed
/// text are the deltas received so far, joined.
proof fn lemma_open_stream(stream: Seq<pb::MessageDelta>, received: Seq<Seq<char>>)
    requires
        stream.len() == received.len(),
        forall|i: int| 0 <= i < received.len() ==> (#[trigger] stream[i]).delta@ == received[i] && !stream[i].done,
    ensures
        reply_of(stream) == joined(received),
        printed_of(stream) == joined(received),
    decreases stream.len(),
{
    if stream.len() > 0 {
        let s = stream.drop_last();
        let r = received.drop_last();
        assert forall|i: int| 0 <= i < r.len() implies (#[trigger] s[i]).delta@ == r[i] && !s[i].done by {
            assert(s[i] == stream[i]);
        }
        lemma_open_stream(s, r);
        assert(stream.last() == stream[stream.len() - 1]);
    }
}


/// The request a line of the interactive mode makes of the server, in the
/// session `session_id` of the game `game_id`: `/summary` asks for the
/// story summary, `/characters` and `/events` for twenty entries, `/context`
/// for the context preview, `/memory` for ten search hits, and a turn is
/// sent with the chosen model; the other lines make none.
pub open spec fn play_call_of(input: PlayInputView, session_id: Seq<char>, game_id: Seq<char>, model: Option<String>, r: Option<Call>) -> bool {
    match input {
        PlayInputView::Summary => r matches Some(Call::GetStorySummary { session_id: s }) && s@ == session_id,
        PlayInputView::Characters => r matches Some(Call::ListCharacters { game_id: g, limit: 20, page: None })
            && g@ == game_id,
        PlayInputView::Events => r matches Some(Call::ListEvents { session_id: s, limit: 20, page: None })
            && s@ == session_id,
        PlayInputView::Context(c) => r matches Some(Call::PreviewContext { session_id: s, content: t })
            && s@ == session_id && t@ == c,
        PlayInputView::Memory(q) => r matches Some(
            Call::SearchMemory { session_id: s, query: t, limit: 10, page: None },
        ) && s@ == session_id && t@ == q,
        PlayInputView::Send(text) => r matches Some(Call::SendMessage { session_id: s, content: t, model: m })
            && s@ == session_id && t@ == text && m@ == match present_value(opt_string_view(model)) {
            Some(v) => v,
            None => Seq::<char>::empty(),
        },
        _ => r is None,
    }
}

/// The request a line of the interactive mode makes of the server.
pub fn play_call(input: &PlayInput, session_id: &str, game_id: &str, model: Option<String>) -> (r: Option<
    Call,
>)
    ensures
        play_call_of(input@, session_id@, game_id@, model, r),
{
    match input {
        PlayInput::Summary => Some(Call::GetStorySummary { session_id: session_id.to_owned() }),
        PlayInput::Characters => Some(
            Call::ListCharacters { game_id: game_id.to_owned(), limit: 20, page: None },
        ),
        PlayInput::Events => Some(
            Call::ListEvents { session_id: session_id.to_owned(), limit: 20, page: None },
        ),
        PlayInput::Context(c) => Some(
            Call::PreviewContext { session_id: session_id.to_owned(), content: c.clone() },
        ),
        PlayInput::Memory(q) => Some(
            Call::SearchMemory {
                session_id: session_id.to_owned(),
                query: q.clone(),
                limit: 10,
                page: None,
            },
        ),
        PlayInput::Send(text) => Some(
            Call::SendMessage {
                session_id: session_id.to_owned(),
                content: text.clone(),
                model: normalize_optional_model(model),
            },
        ),
        _ => None,
    }
}

} // verus!
