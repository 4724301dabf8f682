//! The command lines of the `harpe` client and of its terminal cockpit: the
//! grammar they accept and the values they read into.

use vstd::prelude::*;

use crate::client::{opt_string_view, opt_view};
use crate::config::{all_digits, decimal_text_reads_back, digits_value, is_digit};
use crate::text::{chars_of, int_text, nat_text, str_eq, string_from_chars, string_views};

verus! {

/// A key of the client's configuration file that `config clear` forgets.
#[derive(Clone, Copy, Debug, PartialEq, Eq, Structural)]
pub enum ConfigKey {
    Addr,
    User,
    Game,
    Session,
    All,
}

/// The job status that `admin jobs` lists.
#[derive(Clone, Copy, Debug, PartialEq, Eq, Structural)]
pub enum JobStatusArg {
    All,
    Pending,
    Running,
    Succeeded,
    Failed,
}

/// Paging options of the list commands.
#[derive(Clone, Debug, PartialEq, Eq)]
pub struct PageArgs {
    pub limit: u32,
    pub page_token: Option<String>,
}

#[derive(Clone, Debug, PartialEq, Eq)]
pub struct HealthArgs {
    pub service: String,
}

#[derive(Clone, Debug, PartialEq, Eq)]
pub enum MetricsCommand {
    Export { out: Option<String> },
}

#[derive(Clone, Debug, PartialEq, Eq)]
pub struct MetricsArgs {
    pub command: Option<MetricsCommand>,
}

#[derive(Clone, Debug, PartialEq, Eq)]
pub enum UserCommand {
    Create { name: String },
    Get { user_id: String },
}

#[derive(Clone, Debug, PartialEq, Eq)]
pub struct UserArgs {
    pub command: UserCommand,
}

#[derive(Clone, Debug, PartialEq, Eq)]
pub enum GameCommand {
    Create { title: String, system_prompt: String, system_prompt_file: Option<String> },
    List { page: PageArgs },
    Get { game_id: String },
}

#[derive(Clone, Debug, PartialEq, Eq)]
pub struct GameArgs {
    pub command: GameCommand,
}

#[derive(Clone, Debug, PartialEq, Eq)]
pub enum SessionCommand {
    Create { game: Option<String>, title: String },
    List { game: Option<String>, page: PageArgs },
    Get { session_id: String },
    Messages { session_id: String, page: PageArgs },
    Context { session_id: String, content: Vec<String> },
    Send { model: Option<String>, session_id: String, content: Vec<String> },
}

#[derive(Clone, Debug, PartialEq, Eq)]
pub struct SessionArgs {
    pub command: SessionCommand,
}

#[derive(Clone, Debug, PartialEq, Eq)]
pub enum MemoryCommand {
    Summary { session_id: String },
    Characters { game: Option<String>, page: PageArgs },
    Character { character_id: String },
    Events { session_id: String, page: PageArgs },
    Facts { game: Option<String>, page: PageArgs },
    Locations { game: Option<String>, page: PageArgs },
    Search { session_id: String, query: Vec<String>, page: PageArgs },
}

#[derive(Clone, Debug, PartialEq, Eq)]
pub struct MemoryArgs {
    pub command: MemoryCommand,
}

#[derive(Clone, Debug, PartialEq, Eq)]
pub enum BackupCommand {
    Export { game: Option<String>, out: Option<String> },
    Stream { game: Option<String>, out: Option<String> },
}

#[derive(Clone, Debug, PartialEq, Eq)]
pub struct BackupArgs {
    pub command: BackupCommand,
}

#[derive(Clone, Debug, PartialEq, Eq)]
pub enum AdminCommand {
    Jobs { status: JobStatusArg, page: PageArgs },
    RetryJob { job_id: String, max_attempts: Option<i32> },
    PurgeJob { job_id: String },
    MemoryChunks { session_id: String, page: PageArgs },
}

#[derive(Clone, Debug, PartialEq, Eq)]
pub struct AdminArgs {
    pub command: AdminCommand,
}

#[derive(Clone, Debug, PartialEq, Eq)]
pub enum ConfigCommand {
    Show,
    SetAddr { addr: String },
    SetUser { user_id: String },
    SetGame { game_id: String },
    SetSession { session_id: String },
    Clear { key: ConfigKey },
}

#[derive(Clone, Debug, PartialEq, Eq)]
pub struct ConfigArgs {
    pub command: ConfigCommand,
}

#[derive(Clone, Debug, PartialEq, Eq)]
pub struct PlayArgs {
    pub model: Option<String>,
    pub session_id: Option<String>,
}

/// The subcommand of `harpe`.
#[derive(Clone, Debug, PartialEq, Eq)]
pub enum Command {
    Health(HealthArgs),
    Metrics(MetricsArgs),
    User(UserArgs),
    Game(GameArgs),
    Session(SessionArgs),
    Memory(MemoryArgs),
    Backup(BackupArgs),
    Admin(AdminArgs),
    Config(ConfigArgs),
    Play(PlayArgs),
}

/// The command line of `harpe`: the options that every subcommand accepts,
/// and the subcommand.
#[derive(Clone, Debug, PartialEq, Eq)]
pub struct Cli {
    pub addr: Option<String>,
    pub user_id: Option<String>,
    pub config: Option<String>,
    pub json: bool,
    pub command: Command,
}

/// The command line of `harpe-tui`.
#[derive(Clone, Debug, PartialEq, Eq)]
pub struct TuiArgs {
    pub addr: Option<String>,
    pub user_id: Option<String>,
    pub config: Option<String>,
    pub game_id: Option<String>,
    pub session_id: Option<String>,
    pub model: Option<String>,
}

/// Where in the tree of subcommands a command line has got to; `Root` is
/// `harpe` itself and `Tui` is `harpe-tui`.
#[derive(Clone, Copy, Debug, PartialEq, Eq, Structural)]
pub enum CommandPath {
    Root,
    Health,
    Metrics,
    MetricsExport,
    User,
    UserCreate,
    UserGet,
    Game,
    GameCreate,
    GameList,
    GameGet,
    Session,
    SessionCreate,
    SessionList,
    SessionGet,
    SessionMessages,
    SessionContext,
    SessionSend,
    Memory,
    MemorySummary,
    MemoryCharacters,
    MemoryCharacter,
    MemoryEvents,
    MemoryFacts,
    MemoryLocations,
    MemorySearch,
    Backup,
    BackupExport,
    BackupStream,
    Admin,
    AdminJobs,
    AdminRetryJob,
    AdminPurgeJob,
    AdminMemoryChunks,
    Config,
    ConfigShow,
    ConfigSetAddr,
    ConfigSetUser,
    ConfigSetGame,
    ConfigSetSession,
    ConfigClear,
    Play,
    Tui,
}

/// Whether the command at `at` is a group of subcommands.
pub open spec fn has_children(at: CommandPath) -> bool {
    match at {
        CommandPath::Root | CommandPath::Metrics | CommandPath::User | CommandPath::Game
        | CommandPath::Session | CommandPath::Memory | CommandPath::Backup | CommandPath::Admin
        | CommandPath::Config => true,
        _ => false,
    }
}

/// Whether a command line that stops at `at` lacks its subcommand; only
/// `metrics` may stand alone.
pub open spec fn children_required(at: CommandPath) -> bool {
    has_children(at) && at != CommandPath::Metrics
}

/// The subcommand of `at` named `name`.
pub open spec fn child_of(at: CommandPath, name: Seq<char>) -> Option<CommandPath> {
    match at {
        CommandPath::Root => {
            if name == "health"@ {
                Some(CommandPath::Health)
            } else if name == "metrics"@ {
                Some(CommandPath::Metrics)
            } else if name == "user"@ {
                Some(CommandPath::User)
            } else if name == "game"@ {
                Some(CommandPath::Game)
            } else if name == "session"@ {
                Some(CommandPath::Session)
            } else if name == "memory"@ {
                Some(CommandPath::Memory)
            } else if name == "backup"@ {
                Some(CommandPath::Backup)
            } else if name == "admin"@ {
                Some(CommandPath::Admin)
            } else if name == "config"@ {
                Some(CommandPath::Config)
            } else if name == "play"@ {
                Some(CommandPath::Play)
            } else {
                None
            }
        },
        CommandPath::Metrics => {
            if name == "export"@ {
                Some(CommandPath::MetricsExport)
            } else {
                None
            }
        },
        CommandPath::User => {
            if name == "create"@ {
                Some(CommandPath::UserCreate)
            } else if name == "get"@ {
                Some(CommandPath::UserGet)
            } else {
                None
            }
        },
        CommandPath::Game => {
            if name == "create"@ {
                Some(CommandPath::GameCreate)
            } else if name == "list"@ {
                Some(CommandPath::GameList)
            } else if name == "get"@ {
                Some(CommandPath::GameGet)
            } else {
                None
            }
        },
        CommandPath::Session => {
            if name == "create"@ {
                Some(CommandPath::SessionCreate)
            } else if name == "list"@ {
                Some(CommandPath::SessionList)
            } else if name == "get"@ {
                Some(CommandPath::SessionGet)
            } else if name == "messages"@ {
                Some(CommandPath::SessionMessages)
            } else if name == "context"@ {
                Some(CommandPath::SessionContext)
            } else if name == "send"@ {
                Some(CommandPath::SessionSend)
            } else {
                None
            }
        },
        CommandPath::Memory => {
            if name == "summary"@ {
                Some(CommandPath::MemorySummary)
            } else if name == "characters"@ {
                Some(CommandPath::MemoryCharacters)
            } else if name == "character"@ {
                Some(CommandPath::MemoryCharacter)
            } else if name == "events"@ {
                Some(CommandPath::MemoryEvents)
            } else if name == "facts"@ {
                Some(CommandPath::MemoryFacts)
            } else if name == "locations"@ {
                Some(CommandPath::MemoryLocations)
            } else if name == "search"@ {
                Some(CommandPath::MemorySearch)
            } else {
                None
            }
        },
        CommandPath::Backup => {
            if name == "export"@ {
                Some(CommandPath::BackupExport)
            } else if name == "stream"@ {
                Some(CommandPath::BackupStream)
            } else {
                None
            }
        },
        CommandPath::Admin => {
            if name == "jobs"@ {
                Some(CommandPath::AdminJobs)
            } else if name == "retry-job"@ {
                Some(CommandPath::AdminRetryJob)
            } else if name == "purge-job"@ {
                Some(CommandPath::AdminPurgeJob)
            } else if name == "memory-chunks"@ {
                Some(CommandPath::AdminMemoryChunks)
            } else {
                None
            }
        },
        CommandPath::Config => {
            if name == "show"@ {
                Some(CommandPath::ConfigShow)
            } else if name == "set-addr"@ {
                Some(CommandPath::ConfigSetAddr)
            } else if name == "set-user"@ {
                Some(CommandPath::ConfigSetUser)
            } else if name == "set-game"@ {
                Some(CommandPath::ConfigSetGame)
            } else if name == "set-session"@ {
                Some(CommandPath::ConfigSetSession)
            } else if name == "clear"@ {
                Some(CommandPath::ConfigClear)
            } else {
                None
            }
        },
        _ => None,
    }
}

/// Whether the command at `at` has its own option `--name`.
pub open spec fn takes_option(at: CommandPath, name: Seq<char>) -> bool {
    let paged = name == "limit"@ || name == "page-token"@;
    match at {
        CommandPath::Health => name == "service"@,
        CommandPath::MetricsExport => name == "out"@,
        CommandPath::UserCreate => name == "name"@,
        CommandPath::GameCreate => name == "title"@ || name == "system-prompt"@ || name
            == "system-prompt-file"@,
        CommandPath::GameList => paged,
        CommandPath::SessionCreate => name == "game"@ || name == "title"@,
        CommandPath::SessionList => name == "game"@ || paged,
        CommandPath::SessionMessages => paged,
        CommandPath::SessionSend => name == "model"@,
        CommandPath::MemoryCharacters => name == "game"@ || paged,
        CommandPath::MemoryEvents => paged,
        CommandPath::MemoryFacts => name == "game"@ || paged,
        CommandPath::MemoryLocations => name == "game"@ || paged,
        CommandPath::MemorySearch => paged,
        CommandPath::BackupExport => name == "game"@ || name == "out"@,
        CommandPath::BackupStream => name == "game"@ || name == "out"@,
        CommandPath::AdminJobs => name == "status"@ || paged,
        CommandPath::AdminRetryJob => name == "max-attempts"@,
        CommandPath::AdminMemoryChunks => paged,
        CommandPath::Play => name == "model"@,
        CommandPath::Tui => name == "addr"@ || name == "user-id"@ || name == "config"@ || name
            == "game-id"@ || name == "session-id"@ || name == "model"@,
        _ => false,
    }
}

/// Whether `--name` is one of the options of `harpe` that every subcommand
/// accepts (`--json` aside, which takes no value).
pub open spec fn is_global(at: CommandPath, name: Seq<char>) -> bool {
    at != CommandPath::Tui && (name == "addr"@ || name == "user-id"@ || name == "config"@)
}

/// How many positional values the command at `at` takes at least.
pub open spec fn min_positionals(at: CommandPath) -> nat {
    match at {
        CommandPath::UserGet | CommandPath::GameGet | CommandPath::SessionGet
        | CommandPath::SessionMessages | CommandPath::MemorySummary | CommandPath::MemoryCharacter
        | CommandPath::MemoryEvents | CommandPath::AdminRetryJob | CommandPath::AdminPurgeJob
        | CommandPath::AdminMemoryChunks | CommandPath::ConfigSetAddr | CommandPath::ConfigSetUser
        | CommandPath::ConfigSetGame | CommandPath::ConfigSetSession | CommandPath::ConfigClear => 1,
        CommandPath::SessionContext | CommandPath::SessionSend | CommandPath::MemorySearch => 2,
        _ => 0,
    }
}

/// How many positional values the command at `at` takes at most; `None`
/// where its last positional takes any number of words.
pub open spec fn max_positionals(at: CommandPath) -> Option<nat> {
    match at {
        CommandPath::SessionContext | CommandPath::SessionSend | CommandPath::MemorySearch => None,
        CommandPath::Play => Some(1),
        _ => Some(min_positionals(at)),
    }
}

/// The name under which the `i`-th positional value of `at` is reported.
pub open spec fn positional_name(at: CommandPath, i: nat) -> Seq<char> {
    match at {
        CommandPath::UserGet | CommandPath::ConfigSetUser => "<USER_ID>"@,
        CommandPath::GameGet | CommandPath::ConfigSetGame => "<GAME_ID>"@,
        CommandPath::MemoryCharacter => "<CHARACTER_ID>"@,
        CommandPath::AdminRetryJob | CommandPath::AdminPurgeJob => "<JOB_ID>"@,
        CommandPath::ConfigSetAddr => "<ADDR>"@,
        CommandPath::ConfigClear => "<KEY>"@,
        CommandPath::SessionContext | CommandPath::SessionSend => if i == 0 {
            "<SESSION_ID>"@
        } else {
            "<CONTENT>..."@
        },
        CommandPath::MemorySearch => if i == 0 {
            "<SESSION_ID>"@
        } else {
            "<QUERY>..."@
        },
        _ => "<SESSION_ID>"@,
    }
}

/// The option that the command at `at` cannot do without, if any.
pub open spec fn required_option(at: CommandPath) -> Option<Seq<char>> {
    match at {
        CommandPath::UserCreate => Some("name"@),
        CommandPath::GameCreate | CommandPath::SessionCreate => Some("title"@),
        _ => None,
    }
}

/// The subcommand of `at` named `name`.
pub fn child(at: CommandPath, name: &str) -> (r: Option<CommandPath>)
    ensures
        r == child_of(at, name@),
{
    match at {
        CommandPath::Root => {
            if str_eq(name, "health") {
                Some(CommandPath::Health)
            } else if str_eq(name, "metrics") {
                Some(CommandPath::Metrics)
            } else if str_eq(name, "user") {
                Some(CommandPath::User)
            } else if str_eq(name, "game") {
                Some(CommandPath::Game)
            } else if str_eq(name, "session") {
                Some(CommandPath::Session)
            } else if str_eq(name, "memory") {
                Some(CommandPath::Memory)
            } else if str_eq(name, "backup") {
                Some(CommandPath::Backup)
            } else if str_eq(name, "admin") {
                Some(CommandPath::Admin)
            } else if str_eq(name, "config") {
                Some(CommandPath::Config)
            } else if str_eq(name, "play") {
                Some(CommandPath::Play)
            } else {
                None
            }
        },
        CommandPath::Metrics => {
            if str_eq(name, "export") {
                Some(CommandPath::MetricsExport)
            } else {
                None
            }
        },
        CommandPath::User => {
            if str_eq(name, "create") {
                Some(CommandPath::UserCreate)
            } else if str_eq(name, "get") {
                Some(CommandPath::UserGet)
            } else {
                None
            }
        },
        CommandPath::Game => {
            if str_eq(name, "create") {
                Some(CommandPath::GameCreate)
            } else if str_eq(name, "list") {
                Some(CommandPath::GameList)
            } else if str_eq(name, "get") {
                Some(CommandPath::GameGet)
            } else {
                None
            }
        },
        CommandPath::Session => {
            if str_eq(name, "create") {
                Some(CommandPath::SessionCreate)
            } else if str_eq(name, "list") {
                Some(CommandPath::SessionList)
            } else if str_eq(name, "get") {
                Some(CommandPath::SessionGet)
            } else if str_eq(name, "messages") {
                Some(CommandPath::SessionMessages)
            } else if str_eq(name, "context") {
                Some(CommandPath::SessionContext)
            } else if str_eq(name, "send") {
                Some(CommandPath::SessionSend)
            } else {
                None
            }
        },
        CommandPath::Memory => {
            if str_eq(name, "summary") {
                Some(CommandPath::MemorySummary)
            } else if str_eq(name, "characters") {
                Some(CommandPath::MemoryCharacters)
            } else if str_eq(name, "character") {
                Some(CommandPath::MemoryCharacter)
            } else if str_eq(name, "events") {
                Some(CommandPath::MemoryEvents)
            } else if str_eq(name, "facts") {
                Some(CommandPath::MemoryFacts)
            } else if str_eq(name, "locations") {
                Some(CommandPath::MemoryLocations)
            } else if str_eq(name, "search") {
                Some(CommandPath::MemorySearch)
            } else {
                None
            }
        },
        CommandPath::Backup => {
            if str_eq(name, "export") {
                Some(CommandPath::BackupExport)
            } else if str_eq(name, "stream") {
                Some(CommandPath::BackupStream)
            } else {
                None
            }
        },
        CommandPath::Admin => {
            if str_eq(name, "jobs") {
                Some(CommandPath::AdminJobs)
            } else if str_eq(name, "retry-job") {
                Some(CommandPath::AdminRetryJob)
            } else if str_eq(name, "purge-job") {
                Some(CommandPath::AdminPurgeJob)
            } else if str_eq(name, "memory-chunks") {
                Some(CommandPath::AdminMemoryChunks)
            } else {
                None
            }
        },
        CommandPath::Config => {
            if str_eq(name, "show") {
                Some(CommandPath::ConfigShow)
            } else if str_eq(name, "set-addr") {
                Some(CommandPath::ConfigSetAddr)
            } else if str_eq(name, "set-user") {
                Some(CommandPath::ConfigSetUser)
            } else if str_eq(name, "set-game") {
                Some(CommandPath::ConfigSetGame)
            } else if str_eq(name, "set-session") {
                Some(CommandPath::ConfigSetSession)
            } else if str_eq(name, "clear") {
                Some(CommandPath::ConfigClear)
            } else {
                None
            }
        },
        _ => None,
    }
}

/// Whether the command at `at` has its own option `--name`.
pub fn has_option_named(at: CommandPath, name: &str) -> (r: bool)
    ensures
        r == takes_option(at, name@),
{
    let paged = str_eq(name, "limit") || str_eq(name, "page-token");
    match at {
        CommandPath::Health => str_eq(name, "service"),
        CommandPath::MetricsExport => str_eq(name, "out"),
        CommandPath::UserCreate => str_eq(name, "name"),
        CommandPath::GameCreate => str_eq(name, "title") || str_eq(name, "system-prompt") || str_eq(
            name,
            "system-prompt-file",
        ),
        CommandPath::GameList => paged,
        CommandPath::SessionCreate => str_eq(name, "game") || str_eq(name, "title"),
        CommandPath::SessionList => str_eq(name, "game") || paged,
        CommandPath::SessionMessages => paged,
        CommandPath::SessionSend => str_eq(name, "model"),
        CommandPath::MemoryCharacters => str_eq(name, "game") || paged,
        CommandPath::MemoryEvents => paged,
        CommandPath::MemoryFacts => str_eq(name, "game") || paged,
        CommandPath::MemoryLocations => str_eq(name, "game") || paged,
        CommandPath::MemorySearch => paged,
        CommandPath::BackupExport => str_eq(name, "game") || str_eq(name, "out"),
        CommandPath::BackupStream => str_eq(name, "game") || str_eq(name, "out"),
        CommandPath::AdminJobs => str_eq(name, "status") || paged,
        CommandPath::AdminRetryJob => str_eq(name, "max-attempts"),
        CommandPath::AdminMemoryChunks => paged,
        CommandPath::Play => str_eq(name, "model"),
        CommandPath::Tui => str_eq(name, "addr") || str_eq(name, "user-id") || str_eq(name, "config")
            || str_eq(name, "game-id") || str_eq(name, "session-id") || str_eq(name, "model"),
        _ => false,
    }
}

/// Whether `--name` is an option that every subcommand of `harpe` accepts.
fn global_option(at: CommandPath, name: &str) -> (r: bool)
    ensures
        r == is_global(at, name@),
{
    match at {
        CommandPath::Tui => false,
        _ => str_eq(name, "addr") || str_eq(name, "user-id") || str_eq(name, "config"),
    }
}


/// A value given as an `i64` in decimal: an optional sign, then one or more
/// ASCII digits, and a number within `i64`.
pub open spec fn i64_text_value(s: Seq<char>) -> Option<int> {
    let negative = s.len() > 0 && s[0] == '-';
    let n: int = if negative {
        -(digits_value(signed_body(s)) as int)
    } else {
        digits_value(signed_body(s)) as int
    };
    if signed_body(s).len() > 0 && all_digits(signed_body(s)) && i64::MIN <= n <= i64::MAX {
        Some(n)
    } else {
        None
    }
}

/// The decimal text of any `i64`, with its `-` when negative, reads back as
/// that number, and so does that text with a leading `+` for a number that
/// is not negative.
pub proof fn printed_numbers_read_back(i: i64)
    ensures
        i64_text_value(int_text(i as int)) == Some(i as int),
        i >= 0 ==> i64_text_value(seq!['+'] + nat_text(i as nat)) == Some(i as int),
{
    if i < 0 {
        let m = (-(i as int)) as nat;
        decimal_text_reads_back(m);
        let t = seq!['-'] + nat_text(m);
        assert(t.drop_first() =~= nat_text(m));
        assert(signed_body(t) == nat_text(m));
    } else {
        decimal_text_reads_back(i as nat);
        let t = nat_text(i as nat);
        assert(signed_body(t) == t);
        let u = seq!['+'] + t;
        assert(u.drop_first() =~= t);
        assert(signed_body(u) == t);
    }
}

/// `s` without a leading sign.
pub open spec fn signed_body(s: Seq<char>) -> Seq<char> {
    if s.len() > 0 && (s[0] == '-' || s[0] == '+') {
        s.drop_first()
    } else {
        s
    }
}

/// The value of a run of digits is at least the value of any of its
/// prefixes.
proof fn digits_value_grows(s: Seq<char>, k: int)
    requires
        0 <= k <= s.len(),
        all_digits(s),
    ensures
        digits_value(s) >= digits_value(s.take(k)),
    decreases s.len(),
{
    if k < s.len() {
        let t = s.drop_last();
        assert(all_digits(t)) by {
            assert forall|i: int| 0 <= i < t.len() implies is_digit(#[trigger] t[i]) by {
                assert(t[i] == s[i]);
            }
        }
        digits_value_grows(t, k);
        assert(t.take(k) =~= s.take(k));
        assert(is_digit(s[s.len() - 1]));
    } else {
        assert(s.take(k) =~= s);
    }
}

/// Reads an `i64` from its decimal text, as std's `str::parse::<i64>` does:
/// an optional sign, one or more ASCII digits, and a value in range.
fn parse_i64(value: &str) -> (r: Option<i64>)
    ensures
        r matches Some(v) ==> i64_text_value(value@) == Some(v as int),
        r is None <==> i64_text_value(value@) is None,
{
    let chars = chars_of(value);
    let n = chars.len();
    let mut start: usize = 0;
    let mut negative = false;
    if n > 0 && (chars[0] == '-' || chars[0] == '+') {
        negative = chars[0] == '-';
        start = 1;
    }
    let ghost body = signed_body(value@);
    assert(body =~= chars@.subrange(start as int, n as int));
    if start >= n {
        return None;
    }
    let limit: u128 = 9223372036854775808;
    let mut acc: u128 = 0;
    let mut k: usize = start;
    while k < n
        invariant
            start <= k <= n,
            n == chars@.len(),
            chars@ == value@,
            body == chars@.subrange(start as int, n as int),
            body == signed_body(value@),
            negative <==> (value@.len() > 0 && value@[0] == '-'),
            acc == digits_value(body.take(k - start)),
            acc <= limit,
            limit == 9223372036854775808u128,
            all_digits(body.take(k - start)),
        decreases n - k,
    {
        let c = chars[k];
        let ghost j: int = k - start;
        assert(body[j] == c);
        if !('0' <= c && c <= '9') {
            assert(!all_digits(body)) by {
                assert(!is_digit(body[j]));
            }
            return None;
        }
        let d: u128 = (c as u32 - 48) as u128;
        assert(body.take(j + 1).drop_last() =~= body.take(j));
        assert(body.take(j + 1).last() == c);
        if acc > (limit - d) / 10 {
            proof {
                if all_digits(body) {
                    digits_value_grows(body, j + 1);
                }
            }
            return None;
        }
        acc = acc * 10 + d;
        assert(all_digits(body.take(j + 1))) by {
            let t = body.take(j + 1);
            assert forall|i: int| 0 <= i < t.len() implies is_digit(#[trigger] t[i]) by {
                if i < j {
                    assert(t[i] == body.take(j)[i]);
                }
            }
        }
        k = k + 1;
    }
    assert(body.take(n - start) =~= body);
    if negative {
        if acc == limit {
            Some(i64::MIN)
        } else {
            Some(-(acc as i64))
        }
    } else if acc < limit {
        Some(acc as i64)
    } else {
        None
    }
}

/// The job status named `v` on the command line.
pub open spec fn job_status_arg_of(v: Seq<char>) -> Option<JobStatusArg> {
    if v == "all"@ {
        Some(JobStatusArg::All)
    } else if v == "pending"@ {
        Some(JobStatusArg::Pending)
    } else if v == "running"@ {
        Some(JobStatusArg::Running)
    } else if v == "succeeded"@ {
        Some(JobStatusArg::Succeeded)
    } else if v == "failed"@ {
        Some(JobStatusArg::Failed)
    } else {
        None
    }
}

/// The configuration key named `v` on the command line.
pub open spec fn config_key_of(v: Seq<char>) -> Option<ConfigKey> {
    if v == "addr"@ {
        Some(ConfigKey::Addr)
    } else if v == "user"@ {
        Some(ConfigKey::User)
    } else if v == "game"@ {
        Some(ConfigKey::Game)
    } else if v == "session"@ {
        Some(ConfigKey::Session)
    } else if v == "all"@ {
        Some(ConfigKey::All)
    } else {
        None
    }
}

/// The words the command line takes for a job status and for a
/// configuration key, each read as what it names.
pub proof fn argument_words_name_their_values()
    ensures
        job_status_arg_of("all"@) == Some(JobStatusArg::All),
        job_status_arg_of("pending"@) == Some(JobStatusArg::Pending),
        job_status_arg_of("running"@) == Some(JobStatusArg::Running),
        job_status_arg_of("succeeded"@) == Some(JobStatusArg::Succeeded),
        job_status_arg_of("failed"@) == Some(JobStatusArg::Failed),
        job_status_arg_of("done"@) is None,
        config_key_of("addr"@) == Some(ConfigKey::Addr),
        config_key_of("user"@) == Some(ConfigKey::User),
        config_key_of("game"@) == Some(ConfigKey::Game),
        config_key_of("session"@) == Some(ConfigKey::Session),
        config_key_of("all"@) == Some(ConfigKey::All),
        config_key_of("model"@) is None,
{
    reveal_strlit("all");
    reveal_strlit("pending");
    reveal_strlit("running");
    reveal_strlit("succeeded");
    reveal_strlit("failed");
    reveal_strlit("done");
    reveal_strlit("addr");
    reveal_strlit("user");
    reveal_strlit("game");
    reveal_strlit("session");
    reveal_strlit("model");
    assert("running"@[0] != "pending"@[0]);
    assert("failed"@[0] != "all"@[0]);
    assert("user"@[0] != "addr"@[0]);
    assert("game"@[0] != "user"@[0]);
    assert("game"@[0] != "addr"@[0]);
    assert("done"@.len() != "all"@.len() && "done"@.len() != "pending"@.len() && "done"@.len()
        != "succeeded"@.len() && "done"@.len() != "failed"@.len());
    assert("all"@.len() != "addr"@.len() && "all"@.len() != "user"@.len() && "all"@.len()
        != "game"@.len() && "all"@.len() != "session"@.len());
}

/// The job status named `v`.
pub fn job_status_arg(v: &str) -> (r: Option<JobStatusArg>)
    ensures
        r == job_status_arg_of(v@),
{
    if str_eq(v, "all") {
        Some(JobStatusArg::All)
    } else if str_eq(v, "pending") {
        Some(JobStatusArg::Pending)
    } else if str_eq(v, "running") {
        Some(JobStatusArg::Running)
    } else if str_eq(v, "succeeded") {
        Some(JobStatusArg::Succeeded)
    } else if str_eq(v, "failed") {
        Some(JobStatusArg::Failed)
    } else {
        None
    }
}

/// The configuration key named `v`.
pub fn config_key(v: &str) -> (r: Option<ConfigKey>)
    ensures
        r == config_key_of(v@),
{
    if str_eq(v, "addr") {
        Some(ConfigKey::Addr)
    } else if str_eq(v, "user") {
        Some(ConfigKey::User)
    } else if str_eq(v, "game") {
        Some(ConfigKey::Game)
    } else if str_eq(v, "session") {
        Some(ConfigKey::Session)
    } else if str_eq(v, "all") {
        Some(ConfigKey::All)
    } else {
        None
    }
}

/// Whether `v` is an acceptable value of the option `--name`: a `u32` for
/// `--limit`, an `i32` for `--max-attempts`, a job status for `--status`;
/// any text elsewhere.
pub open spec fn value_ok(name: Seq<char>, v: Seq<char>) -> bool {
    if name == "limit"@ {
        i64_text_value(v) matches Some(n) && 0 <= n <= u32::MAX
    } else if name == "max-attempts"@ {
        i64_text_value(v) matches Some(n) && i32::MIN <= n <= i32::MAX
    } else if name == "status"@ {
        job_status_arg_of(v) is Some
    } else {
        true
    }
}

/// Whether `v` is an acceptable value of the option `--name`.
fn value_valid(name: &str, v: &str) -> (r: bool)
    ensures
        r == value_ok(name@, v@),
{
    if str_eq(name, "limit") {
        match parse_i64(v) {
            Some(n) => 0 <= n && n <= 4294967295,
            None => false,
        }
    } else if str_eq(name, "max-attempts") {
        match parse_i64(v) {
            Some(n) => -2147483648 <= n && n <= 2147483647,
            None => false,
        }
    } else if str_eq(name, "status") {
        job_status_arg(v).is_some()
    } else {
        true
    }
}

/// Whether the argument `t` has the shape of an option: a dash and at least
/// one more character.
pub open spec fn is_option_like(t: Seq<char>) -> bool {
    t.len() >= 2 && t[0] == '-'
}

/// Whether the argument `t` is a long option: two dashes and a name.
pub open spec fn is_long_option(t: Seq<char>) -> bool {
    t.len() > 2 && t[0] == '-' && t[1] == '-'
}

/// The position of the first `=` in `s` from `i` on, or the length of `s`.
pub open spec fn eq_sign_from(s: Seq<char>, i: int) -> int
    decreases s.len() - i,
{
    if i < 0 || i >= s.len() {
        s.len() as int
    } else if s[i] == '=' {
        i
    } else {
        eq_sign_from(s, i + 1)
    }
}

/// The name of the long option `t`: what follows the dashes, up to an `=`.
pub open spec fn long_name(t: Seq<char>) -> Seq<char> {
    t.skip(2).take(eq_sign_from(t.skip(2), 0))
}

/// The value written into the long option `t` after an `=`, if any.
pub open spec fn long_inline(t: Seq<char>) -> Option<Seq<char>> {
    let body = t.skip(2);
    let k = eq_sign_from(body, 0);
    if k < body.len() {
        Some(body.skip(k + 1))
    } else {
        None
    }
}

/// Whether `t` has the shape of an option.
fn looks_like_option(t: &str) -> (r: bool)
    ensures
        r == is_option_like(t@),
{
    let v = chars_of(t);
    v.len() >= 2 && v[0] == '-'
}

/// Whether `t` is a long option.
fn looks_like_long_option(t: &str) -> (r: bool)
    ensures
        r == is_long_option(t@),
{
    let v = chars_of(t);
    v.len() > 2 && v[0] == '-' && v[1] == '-'
}

/// The name of the long option `t`, and the value written into it after an `=`.
fn split_long(t: &str) -> (r: (String, Option<String>))
    requires
        is_long_option(t@),
    ensures
        r.0@ == long_name(t@),
        opt_string_view(r.1) == long_inline(t@),
{
    let v = chars_of(t);
    let n = v.len();
    let ghost body = t@.skip(2);
    let mut i: usize = 2;
    while i < n && v[i] != '='
        invariant
            v@ == t@,
            body == t@.skip(2),
            n == v@.len(),
            2 <= i <= n,
            eq_sign_from(body, 0) == eq_sign_from(body, i - 2),
        decreases n - i,
    {
        assert(body[i - 2] == v@[i as int]);
        i = i + 1;
    }
    assert(i < n ==> body[i - 2] == v@[i as int]);
    assert(eq_sign_from(body, i - 2) == i - 2);
    let name = t.substring_char(2, i).to_owned();
    assert(name@ =~= long_name(t@));
    if i < n {
        let value = t.substring_char(i + 1, n).to_owned();
        assert(value@ =~= body.skip(i - 2 + 1));
        (name, Some(value))
    } else {
        (name, None)
    }
}

/// The value of the first pair of `opts` named `name`.
pub open spec fn option_value(opts: Seq<(Seq<char>, Seq<char>)>, name: Seq<char>) -> Option<
    Seq<char>,
>
    decreases opts.len(),
{
    if opts.len() == 0 {
        None
    } else if opts[0].0 == name {
        Some(opts[0].1)
    } else {
        option_value(opts.drop_first(), name)
    }
}

/// The views of the pairs of strings `s`.
pub open spec fn pair_views(s: Seq<(String, String)>) -> Seq<(Seq<char>, Seq<char>)> {
    s.map_values(|p: (String, String)| (p.0@, p.1@))
}

/// The views of the texts `s`.
pub open spec fn str_views(s: Seq<&str>) -> Seq<Seq<char>> {
    s.map_values(|t: &str| t@)
}

/// The value given for the option `name` in `opts`.
fn find_option(opts: &Vec<(String, String)>, name: &str) -> (r: Option<String>)
    ensures
        opt_string_view(r) == option_value(pair_views(opts@), name@),
{
    let ghost all = pair_views(opts@);
    assert(all.skip(0) =~= all);
    let mut i: usize = 0;
    while i < opts.len()
        invariant
            i <= opts@.len(),
            all == pair_views(opts@),
            option_value(all, name@) == option_value(all.skip(i as int), name@),
        decreases opts.len() - i,
    {
        assert(all.skip(i as int)[0] == all[i as int]);
        if str_eq(opts[i].0.as_str(), name) {
            return Some(opts[i].1.clone());
        }
        assert(all.skip(i as int).drop_first() =~= all.skip(i + 1));
        i = i + 1;
    }
    assert(all.skip(i as int) =~= Seq::<(Seq<char>, Seq<char>)>::empty());
    None
}

/// An error in a command line.
#[derive(Clone, Debug, PartialEq, Eq)]
pub enum ArgError {
    /// An argument that the command does not take.
    UnknownArgument(String),
    /// An option given without its value.
    MissingValue(String),
    /// An option or positional value given a value it cannot take.
    InvalidValue(String, String),
    /// An option given twice.
    DuplicateArgument(String),
    /// A value written into an option that takes none.
    UnexpectedValue(String),
    /// A subcommand that the command does not have.
    UnrecognizedSubcommand(String),
    /// A command given without the subcommand it needs.
    MissingSubcommand,
    /// A required option or positional value that was not given.
    MissingArgument(String),
    /// A request for the help text.
    Help,
}

/// What an `ArgError` says, in text.
pub enum ArgFault {
    UnknownArgument(Seq<char>),
    MissingValue(Seq<char>),
    InvalidValue(Seq<char>, Seq<char>),
    DuplicateArgument(Seq<char>),
    UnexpectedValue(Seq<char>),
    UnrecognizedSubcommand(Seq<char>),
    MissingSubcommand,
    MissingArgument(Seq<char>),
    Help,
}

impl View for ArgError {
    type V = ArgFault;

    open spec fn view(&self) -> ArgFault {
        match self {
            ArgError::UnknownArgument(a) => ArgFault::UnknownArgument(a@),
            ArgError::MissingValue(a) => ArgFault::MissingValue(a@),
            ArgError::InvalidValue(a, v) => ArgFault::InvalidValue(a@, v@),
            ArgError::DuplicateArgument(a) => ArgFault::DuplicateArgument(a@),
            ArgError::UnexpectedValue(a) => ArgFault::UnexpectedValue(a@),
            ArgError::UnrecognizedSubcommand(a) => ArgFault::UnrecognizedSubcommand(a@),
            ArgError::MissingSubcommand => ArgFault::MissingSubcommand,
            ArgError::MissingArgument(a) => ArgFault::MissingArgument(a@),
            ArgError::Help => ArgFault::Help,
        }
    }
}

/// How far a command line has been read: the options that every
/// subcommand takes, the command reached, its own options (name and value,
/// in the order given) and its positional values, and whether a `--` has
/// ended the options.
pub struct ScanView {
    pub addr: Option<Seq<char>>,
    pub user_id: Option<Seq<char>>,
    pub config: Option<Seq<char>>,
    pub json: bool,
    pub at: CommandPath,
    pub options: Seq<(Seq<char>, Seq<char>)>,
    pub positionals: Seq<Seq<char>>,
    pub raw: bool,
}

/// Nothing read yet, at the command `at`.
pub open spec fn initial_scan(at: CommandPath) -> ScanView {
    ScanView {
        addr: None,
        user_id: None,
        config: None,
        json: false,
        at,
        options: Seq::empty(),
        positionals: Seq::empty(),
        raw: false,
    }
}

/// `name` with the two dashes of a long option.
pub open spec fn dashed(name: Seq<char>) -> Seq<char> {
    "--"@ + name
}

/// The value given so far for the option `--name` that every subcommand takes.
pub open spec fn global_of(st: ScanView, name: Seq<char>) -> Option<Seq<char>> {
    if name == "addr"@ {
        st.addr
    } else if name == "user-id"@ {
        st.user_id
    } else {
        st.config
    }
}

/// `st` with the option `--name` that every subcommand takes set to `v`.
pub open spec fn with_global(st: ScanView, name: Seq<char>, v: Seq<char>) -> ScanView {
    if name == "addr"@ {
        ScanView { addr: Some(v), ..st }
    } else if name == "user-id"@ {
        ScanView { user_id: Some(v), ..st }
    } else {
        ScanView { config: Some(v), ..st }
    }
}

/// Reading the positional argument `t`: the name of a subcommand where the
/// command has subcommands, else one more positional value.
pub open spec fn take_positional(st: ScanView, t: Seq<char>) -> Result<ScanView, ArgFault> {
    if has_children(st.at) {
        if t == "help"@ {
            Err(ArgFault::Help)
        } else {
            match child_of(st.at, t) {
                Some(c) => Ok(ScanView { at: c, ..st }),
                None => Err(ArgFault::UnrecognizedSubcommand(t)),
            }
        }
    } else if max_positionals(st.at) matches Some(m) && st.positionals.len() >= m {
        Err(ArgFault::UnknownArgument(t))
    } else if st.at == CommandPath::ConfigClear && config_key_of(t) is None {
        Err(ArgFault::InvalidValue(positional_name(st.at, st.positionals.len()), t))
    } else {
        Ok(ScanView { positionals: st.positionals.push(t), ..st })
    }
}

/// Reading the long option `t`, with `next` the argument after it: the new
/// state, and whether `next` was taken as the option's value.
pub open spec fn take_long(st: ScanView, t: Seq<char>, next: Option<Seq<char>>) -> Result<
    (ScanView, bool),
    ArgFault,
> {
    let name = long_name(t);
    let inline = long_inline(t);
    if name == "help"@ {
        Err(ArgFault::Help)
    } else if name == "json"@ && st.at != CommandPath::Tui {
        if inline is Some {
            Err(ArgFault::UnexpectedValue(dashed(name)))
        } else if st.json {
            Err(ArgFault::DuplicateArgument(dashed(name)))
        } else {
            Ok((ScanView { json: true, ..st }, false))
        }
    } else if is_global(st.at, name) || takes_option(st.at, name) {
        let value: Option<Seq<char>> = match inline {
            Some(v) => Some(v),
            None => match next {
                Some(v) => if is_option_like(v) {
                    None
                } else {
                    Some(v)
                },
                None => None,
            },
        };
        let used = inline is None && value is Some;
        match value {
            None => Err(ArgFault::MissingValue(dashed(name))),
            Some(v) => if is_global(st.at, name) {
                if global_of(st, name) is Some {
                    Err(ArgFault::DuplicateArgument(dashed(name)))
                } else {
                    Ok((with_global(st, name, v), used))
                }
            } else if option_value(st.options, name) is Some {
                Err(ArgFault::DuplicateArgument(dashed(name)))
            } else if !value_ok(name, v) {
                Err(ArgFault::InvalidValue(dashed(name), v))
            } else {
                Ok((ScanView { options: st.options.push((name, v)), ..st }, used))
            },
        }
    } else {
        Err(ArgFault::UnknownArgument(dashed(name)))
    }
}

/// Reading the argument `t`, with `next` the argument after it.
pub open spec fn scan_step(st: ScanView, t: Seq<char>, next: Option<Seq<char>>) -> Result<
    (ScanView, bool),
    ArgFault,
> {
    if st.raw || !is_option_like(t) {
        match take_positional(st, t) {
            Ok(s) => Ok((s, false)),
            Err(e) => Err(e),
        }
    } else if t == "--"@ {
        Ok((ScanView { raw: true, ..st }, false))
    } else if is_long_option(t) {
        take_long(st, t, next)
    } else if t == "-h"@ {
        Err(ArgFault::Help)
    } else {
        Err(ArgFault::UnknownArgument(t))
    }
}

/// Reading the arguments `toks` in order from the state `st`; the first
/// error stops it.
pub open spec fn scan(toks: Seq<Seq<char>>, st: ScanView) -> Result<ScanView, ArgFault>
    decreases toks.len(),
{
    if toks.len() == 0 {
        Ok(st)
    } else {
        let next = if toks.len() > 1 {
            Some(toks[1])
        } else {
            None
        };
        match scan_step(st, toks[0], next) {
            Err(e) => Err(e),
            Ok((s2, used)) => if used && toks.len() > 1 {
                scan(toks.skip(2), s2)
            } else {
                scan(toks.skip(1), s2)
            },
        }
    }
}

/// The checks made once every argument is read: a subcommand where one is
/// needed, then the required option, then enough positional values.
pub open spec fn finish(st: ScanView) -> Result<ScanView, ArgFault> {
    if children_required(st.at) {
        Err(ArgFault::MissingSubcommand)
    } else if required_option(st.at) matches Some(o) && option_value(st.options, o) is None {
        Err(ArgFault::MissingArgument(dashed(required_option(st.at)->0)))
    } else if st.positionals.len() < min_positionals(st.at) {
        Err(ArgFault::MissingArgument(positional_name(st.at, st.positionals.len())))
    } else {
        Ok(st)
    }
}

/// Reading the command line `args` of the program whose top command is
/// `start`; the first argument names the program and is skipped.
pub open spec fn command_line(args: Seq<Seq<char>>, start: CommandPath) -> Result<ScanView, ArgFault> {
    let toks = if args.len() > 0 {
        args.skip(1)
    } else {
        args
    };
    match scan(toks, initial_scan(start)) {
        Ok(st) => finish(st),
        Err(e) => Err(e),
    }
}


/// Whether the command at `at` is a group of subcommands.
fn is_group(at: CommandPath) -> (r: bool)
    ensures
        r == has_children(at),
{
    match at {
        CommandPath::Root | CommandPath::Metrics | CommandPath::User | CommandPath::Game
        | CommandPath::Session | CommandPath::Memory | CommandPath::Backup | CommandPath::Admin
        | CommandPath::Config => true,
        _ => false,
    }
}

/// How many positional values the command at `at` takes at least.
fn min_positional_count(at: CommandPath) -> (r: usize)
    ensures
        r as nat == min_positionals(at),
{
    match at {
        CommandPath::UserGet | CommandPath::GameGet | CommandPath::SessionGet
        | CommandPath::SessionMessages | CommandPath::MemorySummary | CommandPath::MemoryCharacter
        | CommandPath::MemoryEvents | CommandPath::AdminRetryJob | CommandPath::AdminPurgeJob
        | CommandPath::AdminMemoryChunks | CommandPath::ConfigSetAddr | CommandPath::ConfigSetUser
        | CommandPath::ConfigSetGame | CommandPath::ConfigSetSession | CommandPath::ConfigClear => 1,
        CommandPath::SessionContext | CommandPath::SessionSend | CommandPath::MemorySearch => 2,
        _ => 0,
    }
}

/// How many positional values the command at `at` takes at most.
fn max_positional_count(at: CommandPath) -> (r: Option<usize>)
    ensures
        match r {
            Some(m) => max_positionals(at) == Some(m as nat),
            None => max_positionals(at) is None,
        },
{
    match at {
        CommandPath::SessionContext | CommandPath::SessionSend | CommandPath::MemorySearch => None,
        CommandPath::Play => Some(1),
        _ => Some(min_positional_count(at)),
    }
}

/// The name under which the `i`-th positional value of `at` is reported.
fn positional_name_text(at: CommandPath, i: usize) -> (r: String)
    ensures
        r@ == positional_name(at, i as nat),
{
    match at {
        CommandPath::UserGet | CommandPath::ConfigSetUser => "<USER_ID>".to_owned(),
        CommandPath::GameGet | CommandPath::ConfigSetGame => "<GAME_ID>".to_owned(),
        CommandPath::MemoryCharacter => "<CHARACTER_ID>".to_owned(),
        CommandPath::AdminRetryJob | CommandPath::AdminPurgeJob => "<JOB_ID>".to_owned(),
        CommandPath::ConfigSetAddr => "<ADDR>".to_owned(),
        CommandPath::ConfigClear => "<KEY>".to_owned(),
        CommandPath::SessionContext | CommandPath::SessionSend => if i == 0 {
            "<SESSION_ID>".to_owned()
        } else {
            "<CONTENT>...".to_owned()
        },
        CommandPath::MemorySearch => if i == 0 {
            "<SESSION_ID>".to_owned()
        } else {
            "<QUERY>...".to_owned()
        },
        _ => "<SESSION_ID>".to_owned(),
    }
}

/// The option that the command at `at` cannot do without, if any.
fn required_option_name(at: CommandPath) -> (r: Option<&'static str>)
    ensures
        match r {
            Some(o) => required_option(at) == Some(o@),
            None => required_option(at) is None,
        },
{
    match at {
        CommandPath::UserCreate => Some("name"),
        CommandPath::GameCreate | CommandPath::SessionCreate => Some("title"),
        _ => None,
    }
}

/// `name` with the two dashes of a long option.
fn dashed_text(name: &str) -> (r: String)
    ensures
        r@ == dashed(name@),
{
    let mut r = "--".to_owned();
    r.append(name);
    r
}

/// A command line being read.
struct Scanner {
    addr: Option<String>,
    user_id: Option<String>,
    config: Option<String>,
    json: bool,
    at: CommandPath,
    options: Vec<(String, String)>,
    positionals: Vec<String>,
    raw: bool,
}

impl View for Scanner {
    type V = ScanView;

    closed spec fn view(&self) -> ScanView {
        ScanView {
            addr: opt_string_view(self.addr),
            user_id: opt_string_view(self.user_id),
            config: opt_string_view(self.config),
            json: self.json,
            at: self.at,
            options: pair_views(self.options@),
            positionals: string_views(self.positionals@),
            raw: self.raw,
        }
    }
}

impl Scanner {
    /// Nothing read yet, at the command `at`.
    fn new(at: CommandPath) -> (r: Scanner)
        ensures
            r@ == initial_scan(at),
    {
        let r = Scanner {
            addr: None,
            user_id: None,
            config: None,
            json: false,
            at,
            options: Vec::new(),
            positionals: Vec::new(),
            raw: false,
        };
        assert(pair_views(r.options@) =~= Seq::empty());
        assert(string_views(r.positionals@) =~= Seq::empty());
        r
    }

    /// Whether the option `--name` that every subcommand takes was given.
    fn global_is_set(&self, name: &str) -> (r: bool)
        ensures
            r == (global_of(self@, name@) is Some),
    {
        if str_eq(name, "addr") {
            self.addr.is_some()
        } else if str_eq(name, "user-id") {
            self.user_id.is_some()
        } else {
            self.config.is_some()
        }
    }

    /// Sets the option `--name` that every subcommand takes to `v`.
    fn set_global(&mut self, name: &str, v: String)
        ensures
            final(self)@ == with_global(old(self)@, name@, v@),
    {
        if str_eq(name, "addr") {
            self.addr = Some(v);
        } else if str_eq(name, "user-id") {
            self.user_id = Some(v);
        } else {
            self.config = Some(v);
        }
    }

    /// Reads the positional argument `t`.
    fn take_positional(&mut self, t: &str) -> (r: Result<(), ArgError>)
        ensures
            match take_positional(old(self)@, t@) {
                Ok(s) => r is Ok && final(self)@ == s,
                Err(e) => r matches Err(e2) && e2@ == e,
            },
    {
        if is_group(self.at) {
            if str_eq(t, "help") {
                return Err(ArgError::Help);
            }
            match child(self.at, t) {
                Some(c) => {
                    self.at = c;
                    Ok(())
                },
                None => Err(ArgError::UnrecognizedSubcommand(t.to_owned())),
            }
        } else {
            match max_positional_count(self.at) {
                Some(m) => {
                    if self.positionals.len() >= m {
                        return Err(ArgError::UnknownArgument(t.to_owned()));
                    }
                },
                None => {},
            }
            if self.at == CommandPath::ConfigClear && config_key(t).is_none() {
                let name = positional_name_text(self.at, self.positionals.len());
                return Err(ArgError::InvalidValue(name, t.to_owned()));
            }
            let ghost before = self.positionals@;
            self.positionals.push(t.to_owned());
            assert(string_views(self.positionals@) =~= string_views(before).push(t@));
            Ok(())
        }
    }

    /// Reads the long option `t`, with `next` the argument after it; says
    /// whether `next` was taken as its value.
    fn take_long(&mut self, t: &str, next: Option<&str>) -> (r: Result<bool, ArgError>)
        requires
            is_long_option(t@),
        ensures
            match take_long(old(self)@, t@, opt_view(next)) {
                Ok((s, used)) => r == Ok::<bool, ArgError>(used) && final(self)@ == s,
                Err(e) => r matches Err(e2) && e2@ == e,
            },
    {
        let (name, inline) = split_long(t);
        if str_eq(name.as_str(), "help") {
            return Err(ArgError::Help);
        }
        let tui = self.at == CommandPath::Tui;
        if str_eq(name.as_str(), "json") && !tui {
            if inline.is_some() {
                return Err(ArgError::UnexpectedValue(dashed_text(name.as_str())));
            }
            if self.json {
                return Err(ArgError::DuplicateArgument(dashed_text(name.as_str())));
            }
            self.json = true;
            return Ok(false);
        }
        let global = global_option(self.at, name.as_str());
        if !(global || has_option_named(self.at, name.as_str())) {
            return Err(ArgError::UnknownArgument(dashed_text(name.as_str())));
        }
        let used = inline.is_none();
        let value: Option<String> = match inline {
            Some(v) => Some(v),
            None => match next {
                Some(v) => if looks_like_option(v) {
                    None
                } else {
                    Some(v.to_owned())
                },
                None => None,
            },
        };
        match value {
            None => Err(ArgError::MissingValue(dashed_text(name.as_str()))),
            Some(v) => {
                if global {
                    if self.global_is_set(name.as_str()) {
                        return Err(ArgError::DuplicateArgument(dashed_text(name.as_str())));
                    }
                    self.set_global(name.as_str(), v);
                    Ok(used)
                } else if find_option(&self.options, name.as_str()).is_some() {
                    Err(ArgError::DuplicateArgument(dashed_text(name.as_str())))
                } else if !value_valid(name.as_str(), v.as_str()) {
                    Err(ArgError::InvalidValue(dashed_text(name.as_str()), v))
                } else {
                    let ghost before = self.options@;
                    let ghost pair = (name@, v@);
                    self.options.push((name, v));
                    assert(pair_views(self.options@) =~= pair_views(before).push(pair));
                    Ok(used)
                }
            },
        }
    }

    /// Reads the argument `t`, with `next` the argument after it; says
    /// whether `next` was taken as the value of `t`.
    fn step(&mut self, t: &str, next: Option<&str>) -> (r: Result<bool, ArgError>)
        ensures
            match scan_step(old(self)@, t@, opt_view(next)) {
                Ok((s, used)) => r == Ok::<bool, ArgError>(used) && final(self)@ == s,
                Err(e) => r matches Err(e2) && e2@ == e,
            },
    {
        if self.raw || !looks_like_option(t) {
            match self.take_positional(t) {
                Ok(()) => return Ok(false),
                Err(e) => return Err(e),
            }
        }
        if str_eq(t, "--") {
            self.raw = true;
            return Ok(false);
        }
        if looks_like_long_option(t) {
            return self.take_long(t, next);
        }
        if str_eq(t, "-h") {
            return Err(ArgError::Help);
        }
        Err(ArgError::UnknownArgument(t.to_owned()))
    }

    /// The checks made once every argument is read.
    fn finish(&self) -> (r: Result<(), ArgError>)
        ensures
            match finish(self@) {
                Ok(s) => r is Ok && s == self@,
                Err(e) => r matches Err(e2) && e2@ == e,
            },
    {
        if is_group(self.at) && self.at != CommandPath::Metrics {
            return Err(ArgError::MissingSubcommand);
        }
        match required_option_name(self.at) {
            Some(o) => {
                if find_option(&self.options, o).is_none() {
                    return Err(ArgError::MissingArgument(dashed_text(o)));
                }
            },
            None => {},
        }
        if self.positionals.len() < min_positional_count(self.at) {
            return Err(
                ArgError::MissingArgument(positional_name_text(self.at, self.positionals.len())),
            );
        }
        Ok(())
    }
}

/// Reads the arguments of `args` from the `start`-th on, at the command `at`.
fn scan_arguments(args: &[&str], start: usize, at: CommandPath) -> (r: Result<Scanner, ArgError>)
    requires
        start <= args@.len(),
    ensures
        match scan(str_views(args@).skip(start as int), initial_scan(at)) {
            Ok(s) => r matches Ok(sc) && sc@ == s,
            Err(e) => r matches Err(e2) && e2@ == e,
        },
{
    let ghost toks = str_views(args@);
    let mut st = Scanner::new(at);
    let mut i: usize = start;
    while i < args.len()
        invariant
            start <= i <= args@.len(),
            toks == str_views(args@),
            scan(toks.skip(i as int), st@) == scan(toks.skip(start as int), initial_scan(at)),
        decreases args.len() - i,
    {
        let ghost rest = toks.skip(i as int);
        let next: Option<&str> = if i + 1 < args.len() {
            Some(args[i + 1])
        } else {
            None
        };
        assert(rest[0] == args@[i as int]@);
        assert(i + 1 < args@.len() ==> rest[1] == args@[i + 1]@);
        match st.step(args[i], next) {
            Err(e) => {
                return Err(e);
            },
            Ok(used) => {
                if used && i + 1 < args.len() {
                    assert(rest.skip(2) =~= toks.skip(i + 2));
                    i = i + 2;
                } else {
                    assert(rest.skip(1) =~= toks.skip(i + 1));
                    i = i + 1;
                }
            },
        }
    }
    assert(toks.skip(i as int) =~= Seq::<Seq<char>>::empty());
    Ok(st)
}

/// Reads the command line `args` of the program whose top command is `at`.
fn read_command_line(args: &[&str], at: CommandPath) -> (r: Result<Scanner, ArgError>)
    ensures
        match command_line(str_views(args@), at) {
            Ok(s) => r matches Ok(sc) && sc@ == s,
            Err(e) => r matches Err(e2) && e2@ == e,
        },
{
    let start: usize = if args.len() > 0 {
        1
    } else {
        0
    };
    assert(str_views(args@).skip(0) =~= str_views(args@));
    let st = scan_arguments(args, start, at)?;
    match st.finish() {
        Ok(()) => Ok(st),
        Err(e) => Err(e),
    }
}


/// In a text with no `=` before its position `n`, where it holds one or
/// ends, the first `=` from any earlier position is at `n`.
proof fn lemma_eq_sign_at(s: Seq<char>, n: int, i: int)
    requires
        0 <= i <= n <= s.len(),
        n < s.len() ==> s[n] == '=',
        forall|k: int| 0 <= k < n ==> s[k] != '=',
    ensures
        eq_sign_from(s, i) == n,
    decreases n - i,
{
    if i < n {
        lemma_eq_sign_at(s, n, i + 1);
    }
}

/// An option's value may follow it as the next argument or be written into
/// it after an `=`: for an option the command takes (other than `--json`,
/// which takes no value), `--name value` and `--name=value` read alike,
/// the first taking the next argument and the second not.
pub proof fn inline_value_reads_like_separate_value(
    st: ScanView,
    name: Seq<char>,
    v: Seq<char>,
    next: Option<Seq<char>>,
)
    requires
        name.len() > 0,
        forall|k: int| 0 <= k < name.len() ==> name[k] != '=',
        !is_option_like(v),
        is_global(st.at, name) || takes_option(st.at, name),
        !(name == "json"@ && st.at != CommandPath::Tui),
    ensures
        take_long(st, "--"@ + name, Some(v)) is Ok <==> take_long(st, "--"@ + name + "="@ + v, next) is Ok,
        take_long(st, "--"@ + name, Some(v)) is Ok ==> take_long(st, "--"@ + name, Some(v))->Ok_0 == (
            take_long(st, "--"@ + name + "="@ + v, next)->Ok_0.0,
            true,
        ),
        take_long(st, "--"@ + name, Some(v)) is Err ==> take_long(st, "--"@ + name, Some(v)) == take_long(
            st,
            "--"@ + name + "="@ + v,
            next,
        ),
{
    reveal_strlit("--");
    reveal_strlit("=");
    let t1 = "--"@ + name;
    let t2 = "--"@ + name + "="@ + v;
    assert(t1.skip(2) =~= name);
    let body = t2.skip(2);
    assert(body =~= name + "="@ + v);
    lemma_eq_sign_at(name, name.len() as int, 0);
    assert(body[name.len() as int] == '=');
    assert forall|k: int| 0 <= k < name.len() implies body[k] != '=' by {
        assert(body[k] == name[k]);
    }
    lemma_eq_sign_at(body, name.len() as int, 0);
    assert(long_name(t1) =~= name);
    assert(long_inline(t1) is None);
    assert(long_name(t2) =~= name);
    assert(body.skip(name.len() as int + 1) =~= v);
    assert(long_inline(t2) == Some(v));
}

/// An option that every subcommand takes may stand before or after a
/// positional argument: reading `--name value` then `t`, or `t` then
/// `--name value`, succeeds in both orders or in neither, and reaches the
/// same state whatever follows.
pub proof fn global_option_trades_places_with_a_positional(
    st: ScanView,
    name: Seq<char>,
    v: Seq<char>,
    t: Seq<char>,
    rest: Seq<Seq<char>>,
)
    requires
        !st.raw,
        is_global(st.at, name),
        !is_option_like(v),
        !is_option_like(t),
    ensures
        scan(seq!["--"@ + name, v, t] + rest, st) is Ok <==> scan(seq![t, "--"@ + name, v] + rest, st) is Ok,
        scan(seq!["--"@ + name, v, t] + rest, st) is Ok ==> scan(seq!["--"@ + name, v, t] + rest, st)
            == scan(seq![t, "--"@ + name, v] + rest, st),
{
    reveal_strlit("--");
    reveal_strlit("help");
    reveal_strlit("json");
    reveal_strlit("addr");
    reveal_strlit("user-id");
    reveal_strlit("config");
    let g = "--"@ + name;
    let first = seq![g, v, t] + rest;
    let second = seq![t, g, v] + rest;
    assert(g.skip(2) =~= name);
    lemma_eq_sign_at(name, name.len() as int, 0);
    assert(long_name(g) =~= name);
    assert(long_inline(g) is None);
    assert(is_option_like(g) && is_long_option(g));
    assert(g != "--"@);
    assert(first[0] == g && first[1] == v && first[2] == t);
    assert(second[0] == t && second[1] == g && second[2] == v);
    assert(first.skip(2) =~= seq![t] + rest);
    assert((seq![t] + rest).skip(1) =~= rest);
    assert(second.skip(1) =~= seq![g, v] + rest);
    assert((seq![g, v] + rest).skip(2) =~= rest);
    assert((seq![t] + rest)[0] == t);
    assert((seq![g, v] + rest)[0] == g && (seq![g, v] + rest)[1] == v);
    let after_t = seq![t] + rest;
    let after_g = seq![g, v] + rest;
    let next_t: Option<Seq<char>> = if after_t.len() > 1 {
        Some(after_t[1])
    } else {
        None
    };
    // Reading the option first.
    assert(scan_step(st, g, Some(v)) == take_long(st, g, Some(v)));
    // Reading the positional first.
    assert(scan_step(st, t, Some(g)) == match take_positional(st, t) {
        Ok(p) => Ok::<(ScanView, bool), ArgFault>((p, false)),
        Err(e) => Err(e),
    });
    if global_of(st, name) is None {
        let s_g = with_global(st, name, v);
        assert(take_long(st, g, Some(v)) == Ok::<(ScanView, bool), ArgFault>((s_g, true)));
        assert(scan(first, st) == scan(after_t, s_g));
        assert(scan_step(s_g, t, next_t) == match take_positional(s_g, t) {
            Ok(p) => Ok::<(ScanView, bool), ArgFault>((p, false)),
            Err(e) => Err(e),
        });
        match take_positional(st, t) {
            Ok(p0) => {
                assert(p0.at != CommandPath::Tui);
                assert(take_positional(s_g, t) == Ok::<ScanView, ArgFault>(with_global(p0, name, v)));
                assert(scan(after_t, s_g) == scan(rest, with_global(p0, name, v)));
                assert(scan(second, st) == scan(after_g, p0));
                assert(global_of(p0, name) is None);
                assert(take_long(p0, g, Some(v)) == Ok::<(ScanView, bool), ArgFault>(
                    (with_global(p0, name, v), true),
                ));
                assert(scan(after_g, p0) == scan(rest, with_global(p0, name, v)));
            },
            Err(e) => {
                assert(take_positional(s_g, t) is Err);
                assert(scan(first, st) is Err);
                assert(scan(second, st) is Err);
            },
        }
    } else {
        assert(scan(first, st) is Err);
        match take_positional(st, t) {
            Ok(p0) => {
                assert(scan(second, st) == scan(after_g, p0));
                assert(global_of(p0, name) is Some);
                assert(scan(after_g, p0) is Err);
            },
            Err(e) => {
                assert(scan(second, st) is Err);
            },
        }
    }
}

/// Whether `st` is what reading a command line can have reached: each option
/// holds a value it can take, no more positional values than the command
/// takes, a configuration key where `config clear` takes one, and none
/// before a subcommand is chosen.
pub open spec fn scan_well_formed(st: ScanView) -> bool {
    &&& forall|i: int| 0 <= i < st.options.len() ==> value_ok(#[trigger] st.options[i].0, st.options[i].1)
    &&& (max_positionals(st.at) matches Some(m) ==> st.positionals.len() <= m)
    &&& (st.at == CommandPath::ConfigClear && st.positionals.len() > 0 ==> config_key_of(st.positionals[0]) is Some)
    &&& (has_children(st.at) ==> st.positionals.len() == 0)
}

/// One step of reading keeps the state well formed, and reaches the
/// cockpit's command exactly from it.
proof fn lemma_step_keeps_well_formed(st: ScanView, t: Seq<char>, next: Option<Seq<char>>)
    requires
        scan_well_formed(st),
        scan_step(st, t, next) is Ok,
    ensures
        scan_well_formed(scan_step(st, t, next)->Ok_0.0),
        (scan_step(st, t, next)->Ok_0.0.at == CommandPath::Tui) == (st.at == CommandPath::Tui),
{
    let s2 = scan_step(st, t, next)->Ok_0.0;
    if !(st.raw || !is_option_like(t)) && t != "--"@ && is_long_option(t) {
        let name = long_name(t);
        if s2.options.len() > st.options.len() {
            assert(s2.options == st.options.push((name, s2.options.last().1)));
            assert forall|i: int| 0 <= i < s2.options.len() implies value_ok(#[trigger] s2.options[i].0, s2.options[i].1) by {
                if i < st.options.len() {
                    assert(s2.options[i] == st.options[i]);
                }
            }
        }
    }
}

/// Reading a whole sequence of arguments keeps the state well formed, and
/// reaches the cockpit's command exactly from it.
proof fn lemma_scan_keeps_well_formed(toks: Seq<Seq<char>>, st: ScanView)
    requires
        scan_well_formed(st),
        scan(toks, st) is Ok,
    ensures
        scan_well_formed(scan(toks, st)->Ok_0),
        (scan(toks, st)->Ok_0.at == CommandPath::Tui) == (st.at == CommandPath::Tui),
    decreases toks.len(),
{
    if toks.len() > 0 {
        let next = if toks.len() > 1 {
            Some(toks[1])
        } else {
            None
        };
        lemma_step_keeps_well_formed(st, toks[0], next);
        let (s2, used) = scan_step(st, toks[0], next)->Ok_0;
        if used && toks.len() > 1 {
            lemma_scan_keeps_well_formed(toks.skip(2), s2);
        } else {
            lemma_scan_keeps_well_formed(toks.skip(1), s2);
        }
    }
}

/// A value found for an option is one of the pairs given.
proof fn lemma_option_value_given(opts: Seq<(Seq<char>, Seq<char>)>, name: Seq<char>)
    requires
        option_value(opts, name) is Some,
    ensures
        exists|i: int| 0 <= i < opts.len() && opts[i] == (name, option_value(opts, name)->0),
    decreases opts.len(),
{
    if opts[0].0 != name {
        lemma_option_value_given(opts.drop_first(), name);
        let i = choose|i: int| 0 <= i < opts.drop_first().len() && opts.drop_first()[i] == (name, option_value(opts.drop_first(), name)->0);
        assert(opts[i + 1] == opts.drop_first()[i]);
    } else {
        assert(opts[0] == (name, option_value(opts, name)->0));
    }
}

/// In a well-formed state, the value found for an option is one it can take.
proof fn lemma_found_value_ok(st: ScanView, name: Seq<char>)
    requires
        scan_well_formed(st),
        option_value(st.options, name) is Some,
    ensures
        value_ok(name, option_value(st.options, name)->0),
{
    lemma_option_value_given(st.options, name);
    let i = choose|i: int| 0 <= i < st.options.len() && st.options[i] == (name, option_value(st.options, name)->0);
    assert(value_ok(st.options[i].0, st.options[i].1));
}

/// The value of the option `--name` in `st`.
pub open spec fn opt_of(st: ScanView, name: Seq<char>) -> Option<Seq<char>> {
    option_value(st.options, name)
}

/// The text of `o`, or nothing.
pub open spec fn text_or_empty(o: Option<Seq<char>>) -> Seq<char> {
    match o {
        Some(v) => v,
        None => Seq::empty(),
    }
}

/// Whether `p` holds the paging options read into `st`: `--limit`, 20 by
/// default, and `--page-token`.
pub open spec fn page_matches(p: PageArgs, st: ScanView) -> bool {
    &&& match opt_of(st, "limit"@) {
        Some(v) => i64_text_value(v) == Some(p.limit as int),
        None => p.limit == 20,
    }
    &&& opt_string_view(p.page_token) == opt_of(st, "page-token"@)
}

/// Whether `c` is the subcommand read into `st`, with each field taken from
/// the option or positional value that fills it.
pub open spec fn command_matches(c: Command, st: ScanView) -> bool {
    let p = st.positionals;
    match c {
        Command::Health(a) => st.at == CommandPath::Health && a.service@ == text_or_empty(
            opt_of(st, "service"@),
        ),
        Command::Metrics(a) => match a.command {
            None => st.at == CommandPath::Metrics,
            Some(MetricsCommand::Export { out }) => st.at == CommandPath::MetricsExport
                && opt_string_view(out) == opt_of(st, "out"@),
        },
        Command::User(a) => match a.command {
            UserCommand::Create { name } => st.at == CommandPath::UserCreate && Some(name@) == opt_of(
                st,
                "name"@,
            ),
            UserCommand::Get { user_id } => st.at == CommandPath::UserGet && user_id@ == p[0],
        },
        Command::Game(a) => match a.command {
            GameCommand::Create { title, system_prompt, system_prompt_file } => {
                &&& st.at == CommandPath::GameCreate
                &&& Some(title@) == opt_of(st, "title"@)
                &&& system_prompt@ == text_or_empty(opt_of(st, "system-prompt"@))
                &&& opt_string_view(system_prompt_file) == opt_of(st, "system-prompt-file"@)
            },
            GameCommand::List { page } => st.at == CommandPath::GameList && page_matches(page, st),
            GameCommand::Get { game_id } => st.at == CommandPath::GameGet && game_id@ == p[0],
        },
        Command::Session(a) => match a.command {
            SessionCommand::Create { game, title } => {
                &&& st.at == CommandPath::SessionCreate
                &&& opt_string_view(game) == opt_of(st, "game"@)
                &&& Some(title@) == opt_of(st, "title"@)
            },
            SessionCommand::List { game, page } => st.at == CommandPath::SessionList
                && opt_string_view(game) == opt_of(st, "game"@) && page_matches(page, st),
            SessionCommand::Get { session_id } => st.at == CommandPath::SessionGet && session_id@
                == p[0],
            SessionCommand::Messages { session_id, page } => st.at == CommandPath::SessionMessages
                && session_id@ == p[0] && page_matches(page, st),
            SessionCommand::Context { session_id, content } => st.at == CommandPath::SessionContext
                && session_id@ == p[0] && string_views(content@) == p.skip(1),
            SessionCommand::Send { model, session_id, content } => {
                &&& st.at == CommandPath::SessionSend
                &&& opt_string_view(model) == opt_of(st, "model"@)
                &&& session_id@ == p[0]
                &&& string_views(content@) == p.skip(1)
            },
        },
        Command::Memory(a) => match a.command {
            MemoryCommand::Summary { session_id } => st.at == CommandPath::MemorySummary
                && session_id@ == p[0],
            MemoryCommand::Characters { game, page } => st.at == CommandPath::MemoryCharacters
                && opt_string_view(game) == opt_of(st, "game"@) && page_matches(page, st),
            MemoryCommand::Character { character_id } => st.at == CommandPath::MemoryCharacter
                && character_id@ == p[0],
            MemoryCommand::Events { session_id, page } => st.at == CommandPath::MemoryEvents
                && session_id@ == p[0] && page_matches(page, st),
            MemoryCommand::Facts { game, page } => st.at == CommandPath::MemoryFacts
                && opt_string_view(game) == opt_of(st, "game"@) && page_matches(page, st),
            MemoryCommand::Locations { game, page } => st.at == CommandPath::MemoryLocations
                && opt_string_view(game) == opt_of(st, "game"@) && page_matches(page, st),
            MemoryCommand::Search { session_id, query, page } => {
                &&& st.at == CommandPath::MemorySearch
                &&& session_id@ == p[0]
                &&& string_views(query@) == p.skip(1)
                &&& page_matches(page, st)
            },
        },
        Command::Backup(a) => match a.command {
            BackupCommand::Export { game, out } => st.at == CommandPath::BackupExport
                && opt_string_view(game) == opt_of(st, "game"@) && opt_string_view(out) == opt_of(
                st,
                "out"@,
            ),
            BackupCommand::Stream { game, out } => st.at == CommandPath::BackupStream
                && opt_string_view(game) == opt_of(st, "game"@) && opt_string_view(out) == opt_of(
                st,
                "out"@,
            ),
        },
        Command::Admin(a) => match a.command {
            AdminCommand::Jobs { status, page } => {
                &&& st.at == CommandPath::AdminJobs
                &&& match opt_of(st, "status"@) {
                    Some(v) => job_status_arg_of(v) == Some(status),
                    None => status == JobStatusArg::All,
                }
                &&& page_matches(page, st)
            },
            AdminCommand::RetryJob { job_id, max_attempts } => {
                &&& st.at == CommandPath::AdminRetryJob
                &&& job_id@ == p[0]
                &&& match opt_of(st, "max-attempts"@) {
                    Some(v) => max_attempts matches Some(m) && i64_text_value(v) == Some(m as int),
                    None => max_attempts is None,
                }
            },
            AdminCommand::PurgeJob { job_id } => st.at == CommandPath::AdminPurgeJob && job_id@
                == p[0],
            AdminCommand::MemoryChunks { session_id, page } => st.at
                == CommandPath::AdminMemoryChunks && session_id@ == p[0] && page_matches(page, st),
        },
        Command::Config(a) => match a.command {
            ConfigCommand::Show => st.at == CommandPath::ConfigShow,
            ConfigCommand::SetAddr { addr } => st.at == CommandPath::ConfigSetAddr && addr@ == p[0],
            ConfigCommand::SetUser { user_id } => st.at == CommandPath::ConfigSetUser && user_id@
                == p[0],
            ConfigCommand::SetGame { game_id } => st.at == CommandPath::ConfigSetGame && game_id@
                == p[0],
            ConfigCommand::SetSession { session_id } => st.at == CommandPath::ConfigSetSession
                && session_id@ == p[0],
            ConfigCommand::Clear { key } => st.at == CommandPath::ConfigClear && config_key_of(p[0])
                == Some(key),
        },
        Command::Play(a) => {
            &&& st.at == CommandPath::Play
            &&& opt_string_view(a.model) == opt_of(st, "model"@)
            &&& opt_string_view(a.session_id) == (if p.len() > 0 {
                Some(p[0])
            } else {
                None
            })
        },
    }
}

/// Whether `cli` is what the command line read into `st` says.
pub open spec fn cli_matches(cli: Cli, st: ScanView) -> bool {
    &&& opt_string_view(cli.addr) == st.addr
    &&& opt_string_view(cli.user_id) == st.user_id
    &&& opt_string_view(cli.config) == st.config
    &&& cli.json == st.json
    &&& command_matches(cli.command, st)
}

/// Whether `args` is what the cockpit's command line read into `st` says.
pub open spec fn tui_matches(args: TuiArgs, st: ScanView) -> bool {
    &&& opt_string_view(args.addr) == opt_of(st, "addr"@)
    &&& opt_string_view(args.user_id) == opt_of(st, "user-id"@)
    &&& opt_string_view(args.config) == opt_of(st, "config"@)
    &&& opt_string_view(args.game_id) == opt_of(st, "game-id"@)
    &&& opt_string_view(args.session_id) == opt_of(st, "session-id"@)
    &&& opt_string_view(args.model) == opt_of(st, "model"@)
}


/// The text of `o`, or an empty string.
fn text_or_new(o: Option<String>) -> (r: String)
    ensures
        r@ == text_or_empty(opt_string_view(o)),
{
    match o {
        Some(v) => v,
        None => String::new(),
    }
}

/// The strings of `v` from the `k`-th on.
fn strings_from(v: &Vec<String>, k: usize) -> (r: Vec<String>)
    requires
        k <= v@.len(),
    ensures
        string_views(r@) == string_views(v@).skip(k as int),
{
    let mut r: Vec<String> = Vec::new();
    let mut i: usize = k;
    while i < v.len()
        invariant
            k <= i <= v@.len(),
            string_views(r@) == string_views(v@).subrange(k as int, i as int),
        decreases v.len() - i,
    {
        let ghost before = r@;
        r.push(v[i].clone());
        assert(string_views(r@) =~= string_views(before).push(v@[i as int]@));
        assert(string_views(v@).subrange(k as int, i + 1) =~= string_views(v@).subrange(
            k as int,
            i as int,
        ).push(v@[i as int]@));
        i = i + 1;
    }
    assert(string_views(v@).subrange(k as int, v@.len() as int) =~= string_views(v@).skip(k as int));
    r
}

impl Scanner {
    /// The value given for the option `--name`.
    fn option(&self, name: &str) -> (r: Option<String>)
        ensures
            opt_string_view(r) == opt_of(self@, name@),
    {
        find_option(&self.options, name)
    }

    /// The `i`-th positional value.
    fn positional(&self, i: usize) -> (r: String)
        requires
            i < self@.positionals.len(),
        ensures
            r@ == self@.positionals[i as int],
    {
        self.positionals[i].clone()
    }

    /// The paging options read.
    fn page(&self) -> (r: PageArgs)
        requires
            scan_well_formed(self@),
        ensures
            page_matches(r, self@),
    {
        let limit: u32 = match self.option("limit") {
            Some(v) => {
                proof {
                    lemma_found_value_ok(self@, "limit"@);
                }
                parse_i64(v.as_str()).unwrap() as u32
            },
            None => 20,
        };
        PageArgs { limit, page_token: self.option("page-token") }
    }

    /// The value of a required option, given as the checks at the end ensure.
    fn required(&self, name: &str) -> (r: String)
        requires
            opt_of(self@, name@) is Some,
        ensures
            Some(r@) == opt_of(self@, name@),
    {
        self.option(name).unwrap()
    }

    /// The subcommand read.
    fn command(&self) -> (r: Command)
        requires
            scan_well_formed(self@),
            finish(self@) is Ok,
            self@.at != CommandPath::Tui,
        ensures
            command_matches(r, self@),
    {
        match self.at {
            CommandPath::Health => Command::Health(
                HealthArgs { service: text_or_new(self.option("service")) },
            ),
            CommandPath::Metrics => Command::Metrics(MetricsArgs { command: None }),
            CommandPath::MetricsExport => Command::Metrics(
                MetricsArgs { command: Some(MetricsCommand::Export { out: self.option("out") }) },
            ),
            CommandPath::UserCreate => Command::User(
                UserArgs { command: UserCommand::Create { name: self.required("name") } },
            ),
            CommandPath::UserGet => Command::User(
                UserArgs { command: UserCommand::Get { user_id: self.positional(0) } },
            ),
            CommandPath::GameCreate => Command::Game(
                GameArgs {
                    command: GameCommand::Create {
                        title: self.required("title"),
                        system_prompt: text_or_new(self.option("system-prompt")),
                        system_prompt_file: self.option("system-prompt-file"),
                    },
                },
            ),
            CommandPath::GameList => Command::Game(
                GameArgs { command: GameCommand::List { page: self.page() } },
            ),
            CommandPath::GameGet => Command::Game(
                GameArgs { command: GameCommand::Get { game_id: self.positional(0) } },
            ),
            CommandPath::SessionCreate => Command::Session(
                SessionArgs {
                    command: SessionCommand::Create {
                        game: self.option("game"),
                        title: self.required("title"),
                    },
                },
            ),
            CommandPath::SessionList => Command::Session(
                SessionArgs {
                    command: SessionCommand::List { game: self.option("game"), page: self.page() },
                },
            ),
            CommandPath::SessionGet => Command::Session(
                SessionArgs { command: SessionCommand::Get { session_id: self.positional(0) } },
            ),
            CommandPath::SessionMessages => Command::Session(
                SessionArgs {
                    command: SessionCommand::Messages {
                        session_id: self.positional(0),
                        page: self.page(),
                    },
                },
            ),
            CommandPath::SessionContext => Command::Session(
                SessionArgs {
                    command: SessionCommand::Context {
                        session_id: self.positional(0),
                        content: strings_from(&self.positionals, 1),
                    },
                },
            ),
            CommandPath::SessionSend => Command::Session(
                SessionArgs {
                    command: SessionCommand::Send {
                        model: self.option("model"),
                        session_id: self.positional(0),
                        content: strings_from(&self.positionals, 1),
                    },
                },
            ),
            CommandPath::MemorySummary => Command::Memory(
                MemoryArgs { command: MemoryCommand::Summary { session_id: self.positional(0) } },
            ),
            CommandPath::MemoryCharacters => Command::Memory(
                MemoryArgs {
                    command: MemoryCommand::Characters {
                        game: self.option("game"),
                        page: self.page(),
                    },
                },
            ),
            CommandPath::MemoryCharacter => Command::Memory(
                MemoryArgs {
                    command: MemoryCommand::Character { character_id: self.positional(0) },
                },
            ),
            CommandPath::MemoryEvents => Command::Memory(
                MemoryArgs {
                    command: MemoryCommand::Events {
                        session_id: self.positional(0),
                        page: self.page(),
                    },
                },
            ),
            CommandPath::MemoryFacts => Command::Memory(
                MemoryArgs {
                    command: MemoryCommand::Facts { game: self.option("game"), page: self.page() },
                },
            ),
            CommandPath::MemoryLocations => Command::Memory(
                MemoryArgs {
                    command: MemoryCommand::Locations {
                        game: self.option("game"),
                        page: self.page(),
                    },
                },
            ),
            CommandPath::MemorySearch => Command::Memory(
                MemoryArgs {
                    command: MemoryCommand::Search {
                        session_id: self.positional(0),
                        query: strings_from(&self.positionals, 1),
                        page: self.page(),
                    },
                },
            ),
            CommandPath::BackupExport => Command::Backup(
                BackupArgs {
                    command: BackupCommand::Export {
                        game: self.option("game"),
                        out: self.option("out"),
                    },
                },
            ),
            CommandPath::BackupStream => Command::Backup(
                BackupArgs {
                    command: BackupCommand::Stream {
                        game: self.option("game"),
                        out: self.option("out"),
                    },
                },
            ),
            CommandPath::AdminJobs => {
                let status = match self.option("status") {
                    Some(v) => {
                        proof {
                            reveal_strlit("status");
                            reveal_strlit("limit");
                            reveal_strlit("max-attempts");
                            lemma_found_value_ok(self@, "status"@);
                            assert("status"@.len() != "limit"@.len());
                            assert("status"@.len() != "max-attempts"@.len());
                        }
                        job_status_arg(v.as_str()).unwrap()
                    },
                    None => JobStatusArg::All,
                };
                Command::Admin(AdminArgs { command: AdminCommand::Jobs { status, page: self.page() } })
            },
            CommandPath::AdminRetryJob => {
                let max_attempts: Option<i32> = match self.option("max-attempts") {
                    Some(v) => {
                        proof {
                            reveal_strlit("limit");
                            reveal_strlit("max-attempts");
                            lemma_found_value_ok(self@, "max-attempts"@);
                            assert("max-attempts"@.len() != "limit"@.len());
                        }
                        Some(parse_i64(v.as_str()).unwrap() as i32)
                    },
                    None => None,
                };
                Command::Admin(
                    AdminArgs {
                        command: AdminCommand::RetryJob { job_id: self.positional(0), max_attempts },
                    },
                )
            },
            CommandPath::AdminPurgeJob => Command::Admin(
                AdminArgs { command: AdminCommand::PurgeJob { job_id: self.positional(0) } },
            ),
            CommandPath::AdminMemoryChunks => Command::Admin(
                AdminArgs {
                    command: AdminCommand::MemoryChunks {
                        session_id: self.positional(0),
                        page: self.page(),
                    },
                },
            ),
            CommandPath::ConfigShow => Command::Config(ConfigArgs { command: ConfigCommand::Show }),
            CommandPath::ConfigSetAddr => Command::Config(
                ConfigArgs { command: ConfigCommand::SetAddr { addr: self.positional(0) } },
            ),
            CommandPath::ConfigSetUser => Command::Config(
                ConfigArgs { command: ConfigCommand::SetUser { user_id: self.positional(0) } },
            ),
            CommandPath::ConfigSetGame => Command::Config(
                ConfigArgs { command: ConfigCommand::SetGame { game_id: self.positional(0) } },
            ),
            CommandPath::ConfigSetSession => Command::Config(
                ConfigArgs { command: ConfigCommand::SetSession { session_id: self.positional(0) } },
            ),
            CommandPath::ConfigClear => {
                let key = config_key(self.positionals[0].as_str()).unwrap();
                Command::Config(ConfigArgs { command: ConfigCommand::Clear { key } })
            },
            CommandPath::Play => {
                let session_id = if self.positionals.len() > 0 {
                    Some(self.positional(0))
                } else {
                    None
                };
                Command::Play(PlayArgs { model: self.option("model"), session_id })
            },
            // The other groups and the cockpit's command never reach here:
            // the checks at the end refuse a group without its subcommand.
            _ => Command::Metrics(MetricsArgs { command: None }),
        }
    }
}

impl Cli {
    /// Reads the command line `args` of `harpe`, the program's name first:
    /// the options that every subcommand takes may stand anywhere before a
    /// `--`, a subcommand's own options after its name, and an option's
    /// value after it or after an `=`.
    pub fn try_parse_from(args: &[&str]) -> (r: Result<Cli, ArgError>)
        ensures
            match command_line(str_views(args@), CommandPath::Root) {
                Ok(st) => r matches Ok(cli) && cli_matches(cli, st),
                Err(e) => r matches Err(e2) && e2@ == e,
            },
    {
        let st = match read_command_line(args, CommandPath::Root) {
            Ok(st) => st,
            Err(e) => return Err(e),
        };
        proof {
            let toks = if args@.len() > 0 {
                str_views(args@).skip(1)
            } else {
                str_views(args@)
            };
            lemma_scan_keeps_well_formed(toks, initial_scan(CommandPath::Root));
        }
        let command = st.command();
        Ok(Cli { addr: st.addr, user_id: st.user_id, config: st.config, json: st.json, command })
    }

    /// The command line with the options it lacks taken from the
    /// environment: `addr`, `user_id` and `config` are the values of
    /// `HARPE_GRPC_ADDR`, `HARPE_USER_ID` and `HARPE_CONFIG`, where set.
    pub fn with_env(self, addr: Option<String>, user_id: Option<String>, config: Option<String>) -> (r: Cli)
        ensures
            opt_string_view(r.addr) == crate::client::or_else(opt_string_view(self.addr), opt_string_view(addr)),
            opt_string_view(r.user_id) == crate::client::or_else(opt_string_view(self.user_id), opt_string_view(user_id)),
            opt_string_view(r.config) == crate::client::or_else(opt_string_view(self.config), opt_string_view(config)),
            r.json == self.json,
            r.command == self.command,
    {
        Cli {
            addr: match self.addr {
                Some(a) => Some(a),
                None => addr,
            },
            user_id: match self.user_id {
                Some(u) => Some(u),
                None => user_id,
            },
            config: match self.config {
                Some(c) => Some(c),
                None => config,
            },
            json: self.json,
            command: self.command,
        }
    }
}

impl TuiArgs {
    /// Reads the command line `args` of `harpe-tui`, the program's name first.
    pub fn try_parse_from(args: &[&str]) -> (r: Result<TuiArgs, ArgError>)
        ensures
            match command_line(str_views(args@), CommandPath::Tui) {
                Ok(st) => r matches Ok(a) && tui_matches(a, st),
                Err(e) => r matches Err(e2) && e2@ == e,
            },
    {
        let st = match read_command_line(args, CommandPath::Tui) {
            Ok(st) => st,
            Err(e) => return Err(e),
        };
        Ok(
            TuiArgs {
                addr: st.option("addr"),
                user_id: st.option("user-id"),
                config: st.option("config"),
                game_id: st.option("game-id"),
                session_id: st.option("session-id"),
                model: st.option("model"),
            },
        )
    }

    /// The command line with the options it lacks taken from the
    /// environment, as for `Cli::with_env`.
    pub fn with_env(self, addr: Option<String>, user_id: Option<String>, config: Option<String>) -> (r: TuiArgs)
        ensures
            opt_string_view(r.addr) == crate::client::or_else(opt_string_view(self.addr), opt_string_view(addr)),
            opt_string_view(r.user_id) == crate::client::or_else(opt_string_view(self.user_id), opt_string_view(user_id)),
            opt_string_view(r.config) == crate::client::or_else(opt_string_view(self.config), opt_string_view(config)),
            r.game_id == self.game_id,
            r.session_id == self.session_id,
            r.model == self.model,
    {
        TuiArgs {
            addr: match self.addr {
                Some(a) => Some(a),
                None => addr,
            },
            user_id: match self.user_id {
                Some(u) => Some(u),
                None => user_id,
            },
            config: match self.config {
                Some(c) => Some(c),
                None => config,
            },
            game_id: self.game_id,
            session_id: self.session_id,
            model: self.model,
        }
    }
}


impl ArgFault {
    /// The text that reports the error to the user.
    pub open spec fn text(self) -> Seq<char> {
        match self {
            ArgFault::UnknownArgument(a) => "unexpected argument '"@ + a + "' found"@,
            ArgFault::MissingValue(a) => "a value is required for '"@ + a + "' but none was supplied"@,
            ArgFault::InvalidValue(a, v) => "invalid value '"@ + v + "' for '"@ + a + "'"@,
            ArgFault::DuplicateArgument(a) => "the argument '"@ + a + "' cannot be used multiple times"@,
            ArgFault::UnexpectedValue(a) => "unexpected value for '"@ + a + "'; no more were expected"@,
            ArgFault::UnrecognizedSubcommand(a) => "unrecognized subcommand '"@ + a + "'"@,
            ArgFault::MissingSubcommand => "a subcommand is required but one was not provided"@,
            ArgFault::MissingArgument(a) => "the following required argument was not provided: "@ + a,
            ArgFault::Help => "help requested"@,
        }
    }
}

impl ArgError {
    /// The text that reports the error to the user.
    pub fn message(&self) -> (r: String)
        ensures
            r@ == self@.text(),
    {
        match self {
            ArgError::UnknownArgument(a) => {
                let mut r = "unexpected argument '".to_owned();
                r.append(a.as_str());
                r.append("' found");
                r
            },
            ArgError::MissingValue(a) => {
                let mut r = "a value is required for '".to_owned();
                r.append(a.as_str());
                r.append("' but none was supplied");
                r
            },
            ArgError::InvalidValue(a, v) => {
                let mut r = "invalid value '".to_owned();
                r.append(v.as_str());
                r.append("' for '");
                r.append(a.as_str());
                r.append("'");
                r
            },
            ArgError::DuplicateArgument(a) => {
                let mut r = "the argument '".to_owned();
                r.append(a.as_str());
                r.append("' cannot be used multiple times");
                r
            },
            ArgError::UnexpectedValue(a) => {
                let mut r = "unexpected value for '".to_owned();
                r.append(a.as_str());
                r.append("'; no more were expected");
                r
            },
            ArgError::UnrecognizedSubcommand(a) => {
                let mut r = "unrecognized subcommand '".to_owned();
                r.append(a.as_str());
                r.append("'");
                r
            },
            ArgError::MissingSubcommand => "a subcommand is required but one was not provided".to_owned(),
            ArgError::MissingArgument(a) => {
                let mut r = "the following required argument was not provided: ".to_owned();
                r.append(a.as_str());
                r
            },
            ArgError::Help => "help requested".to_owned(),
        }
    }
}


} // verus!
