//! The client-side rules of the `harpe` command line and terminal clients:
//! the saved configuration, how the server address and the user are
//! resolved, and the checks on required values.

use vstd::prelude::*;

use crate::text::{
    trim_has_no_edge_space, trim_keeps_trimmed, chars_of, concat_str, is_blank, is_blank_str, join_strings, join_with, starts_with,
    str_starts_with, string_views, trim, trim_str,
};

verus! {

/// The server address used when none is configured.
pub const DEFAULT_ADDR: &'static str = "http://[::1]:50051";

/// The file name of the configuration file.
pub const DEFAULT_CONFIG_FILE: &'static str = "config.toml";

/// The file name of the configuration file of earlier versions.
pub const LEGACY_CONFIG_FILE: &'static str = "config.json";

/// The failures of the clients, reported to the user as invalid input.
#[derive(Clone, Debug, PartialEq, Eq)]
pub enum CliError {
    InvalidInput(String),
}

impl CliError {
    /// The message shown to the user.
    pub open spec fn spec_message(self) -> Seq<char> {
        match self {
            CliError::InvalidInput(m) => m@,
        }
    }

    /// The message shown to the user.
    pub fn message(&self) -> (r: String)
        ensures
            r@ == self.spec_message(),
    {
        match self {
            CliError::InvalidInput(m) => m.clone(),
        }
    }
}

/// The saved choices of the clients: the server, the user, the game and the
/// session.
#[derive(Clone, Debug, Default, PartialEq, Eq)]
pub struct ClientConfig {
    pub addr: Option<String>,
    pub user_id: Option<String>,
    pub game_id: Option<String>,
    pub session_id: Option<String>,
}

impl ClientConfig {
    /// A configuration that holds nothing.
    pub fn empty() -> (r: ClientConfig)
        ensures
            r.addr is None,
            r.user_id is None,
            r.game_id is None,
            r.session_id is None,
    {
        ClientConfig { addr: None, user_id: None, game_id: None, session_id: None }
    }
}

/// The server address for an address given by the user: trimmed, with
/// `http://` put in front unless it names `http://` or `https://` already.
pub open spec fn spec_normalize_addr(addr: Seq<char>) -> Result<Seq<char>, Seq<char>> {
    let a = trim(addr);
    if a.len() == 0 {
        Err("gRPC address is required"@)
    } else if starts_with(a, "http://"@) || starts_with(a, "https://"@) {
        Ok(a)
    } else {
        Ok("http://"@ + a)
    }
}

/// The relation between a client result and its specification.
pub open spec fn matches_spec(r: Result<String, CliError>, s: Result<Seq<char>, Seq<char>>) -> bool {
    match (r, s) {
        (Ok(v), Ok(w)) => v@ == w,
        (Err(e), Err(m)) => e.spec_message() == m,
        _ => false,
    }
}

/// The server address for an address given by the user; a blank address is refused.
pub fn normalize_addr(addr: &str) -> (r: Result<String, CliError>)
    ensures
        matches_spec(r, spec_normalize_addr(addr@)),
{
    let a = trim_str(addr);
    if a.as_str().is_empty() {
        return Err(CliError::InvalidInput("gRPC address is required".to_owned()));
    }
    if str_starts_with(a.as_str(), "http://") || str_starts_with(a.as_str(), "https://") {
        Ok(a)
    } else {
        Ok(concat_str("http://", a.as_str()))
    }
}

/// Normalizing an address that normalizing gave gives it back unchanged:
/// an address saved by `config set-addr` is the one a later run connects to.
pub proof fn normalize_addr_is_idempotent(addr: Seq<char>)
    requires
        spec_normalize_addr(addr) is Ok,
    ensures
        spec_normalize_addr(spec_normalize_addr(addr)->Ok_0) == spec_normalize_addr(addr),
{
    let a = trim(addr);
    trim_has_no_edge_space(addr);
    reveal_strlit("http://");
    reveal_strlit("https://");
    if starts_with(a, "http://"@) || starts_with(a, "https://"@) {
        trim_keeps_trimmed(a);
    } else {
        let n = "http://"@ + a;
        assert(n[0] == 'h');
        assert(n.last() == a.last());
        trim_keeps_trimmed(n);
        assert(n.take(7) =~= "http://"@);
    }
}

/// An address that already names its scheme, `http://` or `https://`, is
/// kept as typed, only trimmed; `http://` is put in front of an address
/// without a scheme; a blank address is refused.
pub proof fn normalize_addr_adds_a_scheme_only_when_missing(addr: Seq<char>)
    ensures
        ({
            let a = trim(addr);
            &&& (a.len() == 0 <==> spec_normalize_addr(addr) is Err)
            &&& (a.len() >= 7 && a.subrange(0, 7) == "http://"@) ==> spec_normalize_addr(addr)
                == Ok::<Seq<char>, Seq<char>>(a)
            &&& (a.len() >= 8 && a.subrange(0, 8) == "https://"@) ==> spec_normalize_addr(addr)
                == Ok::<Seq<char>, Seq<char>>(a)
            &&& (a.len() > 0 && !(a.len() >= 7 && a.subrange(0, 7) == "http://"@) && !(a.len() >= 8
                && a.subrange(0, 8) == "https://"@)) ==> spec_normalize_addr(addr) == Ok::<
                Seq<char>,
                Seq<char>,
            >("http://"@ + a)
        }),
{
    reveal_strlit("http://");
    reveal_strlit("https://");
    let a = trim(addr);
    assert(a.len() >= 7 ==> a.take(7) =~= a.subrange(0, 7));
    assert(a.len() >= 8 ==> a.take(8) =~= a.subrange(0, 8));
}

/// The view of an optional text.
pub open spec fn opt_view(o: Option<&str>) -> Option<Seq<char>> {
    match o {
        Some(s) => Some(s@),
        None => None,
    }
}

/// The view of an optional string.
pub open spec fn opt_string_view(o: Option<String>) -> Option<Seq<char>> {
    match o {
        Some(s) => Some(s@),
        None => None,
    }
}

/// The first of `first` and `second` that is present.
pub open spec fn or_else(first: Option<Seq<char>>, second: Option<Seq<char>>) -> Option<Seq<char>> {
    match first {
        Some(v) => Some(v),
        None => second,
    }
}

/// The text of a configured value.
fn as_text(value: &Option<String>) -> (r: Option<&str>)
    ensures
        opt_view(r) == opt_string_view(*value),
{
    match value {
        Some(v) => Some(v.as_str()),
        None => None,
    }
}

/// The server to connect to: the address given on the command line, else
/// the configured one, else the default, normalized.
pub fn resolve_addr(cli_addr: Option<&str>, config: &ClientConfig) -> (r: Result<String, CliError>)
    ensures
        matches_spec(
            r,
            spec_normalize_addr(
                match or_else(opt_view(cli_addr), opt_string_view(config.addr)) {
                    Some(a) => a,
                    None => DEFAULT_ADDR@,
                },
            ),
        ),
{
    let chosen = match cli_addr {
        Some(a) => a,
        None => match as_text(&config.addr) {
            Some(a) => a,
            None => DEFAULT_ADDR,
        },
    };
    normalize_addr(chosen)
}

/// The user to act as: the one given on the command line, else the configured one.
pub fn resolve_user_id<'a>(cli_user_id: Option<&'a str>, config: &'a ClientConfig) -> (r: Option<
    &'a str,
>)
    ensures
        opt_view(r) == or_else(opt_view(cli_user_id), opt_string_view(config.user_id)),
{
    match cli_user_id {
        Some(u) => Some(u),
        None => as_text(&config.user_id),
    }
}

/// The trimmed value, when it is present and not blank.
pub open spec fn present_value(value: Option<Seq<char>>) -> Option<Seq<char>> {
    match value {
        Some(v) => if is_blank(v) {
            None
        } else {
            Some(trim(v))
        },
        None => None,
    }
}

/// The trimmed value, when it is present and not blank.
fn present(value: Option<&str>) -> (r: Option<String>)
    ensures
        opt_string_view(r) == present_value(opt_view(value)),
{
    match value {
        Some(v) => if is_blank_str(v) {
            None
        } else {
            Some(trim_str(v))
        },
        None => None,
    }
}

/// The user an owned command acts as, which must be given.
pub fn required_user_id(user_id: Option<&str>) -> (r: Result<String, CliError>)
    ensures
        matches_spec(
            r,
            match present_value(opt_view(user_id)) {
                Some(u) => Ok(u),
                None => Err("set --user-id or HARPE_USER_ID for this command"@),
            },
        ),
{
    match present(user_id) {
        Some(u) => Ok(u),
        None => Err(
            CliError::InvalidInput("set --user-id or HARPE_USER_ID for this command".to_owned()),
        ),
    }
}

/// A value the user must give: trimmed, and refused when blank.
pub fn required_value(name: &str, value: &str) -> (r: Result<String, CliError>)
    ensures
        matches_spec(
            r,
            if is_blank(value@) {
                Err(name@ + " is required"@)
            } else {
                Ok(trim(value@))
            },
        ),
{
    if is_blank_str(value) {
        return Err(CliError::InvalidInput(concat_str(name, " is required")));
    }
    Ok(trim_str(value))
}

/// A value that comes from the command line or the configuration, which
/// must be present.
pub fn required_config_value(name: &str, value: Option<&str>) -> (r: Result<String, CliError>)
    ensures
        matches_spec(
            r,
            match present_value(opt_view(value)) {
                Some(v) => Ok(v),
                None => Err("set "@ + name@ + " in config or pass it explicitly"@),
            },
        ),
{
    match present(value) {
        Some(v) => Ok(v),
        None => {
            let mut m = concat_str("set ", name);
            m.append(" in config or pass it explicitly");
            Err(CliError::InvalidInput(m))
        },
    }
}

/// A value named on the command line, else the configured one, which must
/// be present.
pub fn explicit_or_configured(name: &str, explicit: Option<&str>, configured: &Option<String>) -> (r:
    Result<String, CliError>)
    ensures
        matches_spec(
            r,
            match present_value(or_else(opt_view(explicit), opt_string_view(*configured))) {
                Some(v) => Ok(v),
                None => Err("set "@ + name@ + " in config or pass it explicitly"@),
            },
        ),
{
    let chosen = match explicit {
        Some(v) => Some(v),
        None => as_text(configured),
    };
    required_config_value(name, chosen)
}

/// The model a request asks for: trimmed, empty for the server's default.
pub fn normalize_optional_model(model: Option<String>) -> (r: String)
    ensures
        r@ == match present_value(opt_string_view(model)) {
            Some(m) => m,
            None => Seq::<char>::empty(),
        },
{
    match model {
        Some(m) => match present(Some(m.as_str())) {
            Some(t) => t,
            None => String::new(),
        },
        None => String::new(),
    }
}

/// The words of a message given unquoted on the command line, joined by spaces.
pub fn join_words(words: Vec<String>) -> (r: String)
    ensures
        r@ == join_with(string_views(words@), " "@),
{
    join_strings(&words, " ")
}

/// Where the system prompt of a new game comes from.
#[derive(Clone, Debug, PartialEq, Eq)]
pub enum PromptSource {
    Text(String),
    File(String),
}

/// The system prompt of a new game: the given text, or the given file when
/// the text is blank; giving both is refused.
pub fn read_prompt(system_prompt: String, system_prompt_file: Option<String>) -> (r: Result<
    PromptSource,
    CliError,
>)
    ensures
        is_blank(system_prompt@) && system_prompt_file is Some ==> r == Ok::<PromptSource, CliError>(
            PromptSource::File(system_prompt_file->0),
        ),
        is_blank(system_prompt@) && system_prompt_file is None ==> (r matches Ok(
            PromptSource::Text(t),
        ) && t@ == Seq::<char>::empty()),
        !is_blank(system_prompt@) && system_prompt_file is None ==> r == Ok::<PromptSource, CliError>(
            PromptSource::Text(system_prompt),
        ),
        !is_blank(system_prompt@) && system_prompt_file is Some ==> (r matches Err(e)
            && e.spec_message() == "use either --system-prompt or --system-prompt-file, not both"@),
{
    match (is_blank_str(system_prompt.as_str()), system_prompt_file) {
        (true, Some(path)) => Ok(PromptSource::File(path)),
        (false, Some(_)) => Err(
            CliError::InvalidInput(
                "use either --system-prompt or --system-prompt-file, not both".to_owned(),
            ),
        ),
        (true, None) => Ok(PromptSource::Text(String::new())),
        (false, None) => Ok(PromptSource::Text(system_prompt)),
    }
}

/// The extension of the last component of a path, as std's `Path::extension` gives it.
pub uninterp spec fn path_extension(path: Seq<char>) -> Option<Seq<char>>;

/// The extension of the last component of `path` (std's `Path::extension`).
#[verifier::external_body]
fn extension_of(path: &str) -> (r: Option<String>)
    ensures
        opt_string_view(r) == path_extension(path@),
{
    std::path::Path::new(path).extension().and_then(|e| e.to_str()).map(|e| e.to_owned())
}

/// `c` with ASCII capitals made small.
pub open spec fn ascii_lower(c: char) -> char {
    if 'A' <= c && c <= 'Z' {
        ((c as u32) + 32) as char
    } else {
        c
    }
}

/// Whether `a` and `b` are equal when ASCII letters are compared without case.
pub open spec fn eq_ignore_ascii_case(a: Seq<char>, b: Seq<char>) -> bool {
    a.len() == b.len() && forall|i: int| 0 <= i < a.len() ==> ascii_lower(#[trigger] a[i]) == ascii_lower(b[i])
}

/// Whether `a` and `b` are equal when ASCII letters are compared without case.
pub fn str_eq_ignore_ascii_case(a: &str, b: &str) -> (r: bool)
    ensures
        r == eq_ignore_ascii_case(a@, b@),
{
    let va = chars_of(a);
    let vb = chars_of(b);
    if va.len() != vb.len() {
        return false;
    }
    let mut i: usize = 0;
    while i < va.len()
        invariant
            va@ == a@,
            vb@ == b@,
            va@.len() == vb@.len(),
            i <= va@.len(),
            forall|k: int| 0 <= k < i ==> ascii_lower(#[trigger] va@[k]) == ascii_lower(vb@[k]),
        decreases va.len() - i,
    {
        let x = va[i];
        let y = vb[i];
        let lx = if 'A' <= x && x <= 'Z' {
            ((x as u8) + 32) as char
        } else {
            x
        };
        let ly = if 'A' <= y && y <= 'Z' {
            ((y as u8) + 32) as char
        } else {
            y
        };
        if lx != ly {
            return false;
        }
        i = i + 1;
    }
    true
}

/// Whether a configuration path names a JSON file: its extension is `json`
/// in any case.
pub fn is_json_path(path: &str) -> (r: bool)
    ensures
        r == (path_extension(path@) matches Some(e) && eq_ignore_ascii_case(e, "json"@)),
{
    match extension_of(path) {
        Some(e) => str_eq_ignore_ascii_case(e.as_str(), "json"),
        None => false,
    }
}

/// Which file the configuration is read from.
#[derive(Clone, Copy, Debug, PartialEq, Eq, Structural)]
pub enum ConfigSource {
    /// The configuration file itself.
    Primary,
    /// The `config.json` beside a missing default `config.toml`.
    Legacy,
    /// No file: the empty configuration.
    Nothing,
}

/// Which file the configuration is read from: the legacy JSON file stands
/// in for a missing default TOML file; a missing file reads as empty.
pub fn config_source(path_exists: bool, has_default_name: bool, legacy_exists: bool) -> (r:
    ConfigSource)
    ensures
        path_exists ==> r == ConfigSource::Primary,
        !path_exists && has_default_name && legacy_exists ==> r == ConfigSource::Legacy,
        !path_exists && !(has_default_name && legacy_exists) ==> r == ConfigSource::Nothing,
{
    if !path_exists && has_default_name && legacy_exists {
        ConfigSource::Legacy
    } else if !path_exists {
        ConfigSource::Nothing
    } else {
        ConfigSource::Primary
    }
}


/// Where the configuration file lies: the path given, or the file
/// `harpe/config.toml` under the configuration directory, or under
/// `.config` in the home directory.
#[derive(Clone, Debug, PartialEq, Eq)]
pub enum ConfigLocation {
    Given(String),
    UnderConfigHome(String),
    UnderHome(String),
}

/// Where the configuration file lies, from the path given on the command
/// line, else `XDG_CONFIG_HOME`, else `HOME`; with none of them it cannot
/// be found.
pub fn config_location(explicit: Option<String>, config_home: Option<String>, home: Option<String>) -> (r:
    Result<ConfigLocation, CliError>)
    ensures
        explicit is Some ==> r == Ok::<ConfigLocation, CliError>(ConfigLocation::Given(explicit->0)),
        explicit is None && config_home is Some ==> r == Ok::<ConfigLocation, CliError>(
            ConfigLocation::UnderConfigHome(config_home->0),
        ),
        explicit is None && config_home is None && home is Some ==> r == Ok::<ConfigLocation, CliError>(
            ConfigLocation::UnderHome(home->0),
        ),
        explicit is None && config_home is None && home is None ==> (r matches Err(e)
            && e.spec_message() == "cannot resolve config path; set --config or HOME"@),
{
    match explicit {
        Some(p) => Ok(ConfigLocation::Given(p)),
        None => match config_home {
            Some(c) => Ok(ConfigLocation::UnderConfigHome(c)),
            None => match home {
                Some(h) => Ok(ConfigLocation::UnderHome(h)),
                None => Err(
                    CliError::InvalidInput("cannot resolve config path; set --config or HOME".to_owned()),
                ),
            },
        },
    }
}


/// `base` with the relative path `part` after it, as `Path::join` joins
/// them on Unix: a `/` between the two unless `base` is empty or already
/// ends with one.
pub open spec fn path_join(base: Seq<char>, part: Seq<char>) -> Seq<char> {
    if base.len() == 0 || base.last() == '/' {
        base + part
    } else {
        base + "/"@ + part
    }
}

/// `base` with the relative path `part` after it.
fn join_path(base: &str, part: &str) -> (r: String)
    ensures
        r@ == path_join(base@, part@),
{
    let v = chars_of(base);
    let mut r = base.to_owned();
    if v.len() > 0 && v[v.len() - 1] != '/' {
        r.append("/");
    }
    r.append(part);
    proof {
        reveal_strlit("/");
    }
    r
}

/// The path of the configuration file: the path given on the command line,
/// else `harpe/config.toml` under `XDG_CONFIG_HOME`, else
/// `.config/harpe/config.toml` under `HOME`; with none of them it cannot be
/// found.
pub fn config_path_text(explicit: Option<String>, config_home: Option<String>, home: Option<String>) -> (r:
    Result<String, CliError>)
    ensures
        explicit matches Some(p) ==> r == Ok::<String, CliError>(p),
        explicit is None && config_home is Some ==> (r matches Ok(t) && t@ == path_join(
            path_join(config_home->0@, "harpe"@),
            DEFAULT_CONFIG_FILE@,
        )),
        explicit is None && config_home is None && home is Some ==> (r matches Ok(t) && t@
            == path_join(path_join(path_join(home->0@, ".config"@), "harpe"@), DEFAULT_CONFIG_FILE@)),
        explicit is None && config_home is None && home is None ==> (r matches Err(e)
            && e.spec_message() == "cannot resolve config path; set --config or HOME"@),
{
    match config_location(explicit, config_home, home)? {
        ConfigLocation::Given(p) => Ok(p),
        ConfigLocation::UnderConfigHome(dir) => {
            let base = join_path(dir.as_str(), "harpe");
            Ok(join_path(base.as_str(), DEFAULT_CONFIG_FILE))
        },
        ConfigLocation::UnderHome(dir) => {
            let config = join_path(dir.as_str(), ".config");
            let base = join_path(config.as_str(), "harpe");
            Ok(join_path(base.as_str(), DEFAULT_CONFIG_FILE))
        },
    }
}

} // verus!
