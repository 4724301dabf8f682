//! The server's settings, read from its environment variables.

use vstd::prelude::*;

use crate::domain::HarpeError;
use crate::text::{chars_of, concat_str, digit_char, nat_text, is_blank, is_blank_str, str_eq, string_from_chars, trim, trim_str};

verus! {

/// Whether `c` is an ASCII decimal digit.
pub open spec fn is_digit(c: char) -> bool {
    '0' <= c && c <= '9'
}

/// The value of the decimal digits `s`.
pub open spec fn digits_value(s: Seq<char>) -> nat
    decreases s.len(),
{
    if s.len() == 0 {
        0
    } else {
        digits_value(s.drop_last()) * 10 + ((s.last() as nat) - 48) as nat
    }
}

/// Whether every character of `s` is an ASCII decimal digit.
pub open spec fn all_digits(s: Seq<char>) -> bool {
    forall|i: int| 0 <= i < s.len() ==> is_digit(#[trigger] s[i])
}

/// The decimal text of a number is made of digits and reads back as the
/// number; with or without a leading `+`, it is an unsigned number's text.
pub proof fn decimal_text_reads_back(n: nat)
    ensures
        nat_text(n).len() > 0,
        all_digits(nat_text(n)),
        digits_value(nat_text(n)) == n,
        is_digit(nat_text(n)[0]),
        unsigned_text_value(nat_text(n)) == Some(n),
    decreases n,
{
    if n < 10 {
        let t = nat_text(n);
        assert(t =~= seq![digit_char(n)]);
        assert(t.drop_last() =~= Seq::<char>::empty());
        assert((digit_char(n) as nat) == 48 + n);
        assert(t.last() == digit_char(n));
        assert(digits_value(t) == digits_value(t.drop_last()) * 10 + ((t.last() as nat) - 48) as nat);
        assert(digits_value(Seq::<char>::empty()) == 0);
    } else {
        decimal_text_reads_back(n / 10);
        let p = nat_text(n / 10);
        let t = p.push(digit_char(n % 10));
        assert(t == nat_text(n));
        assert(t.drop_last() =~= p);
        assert((digit_char(n % 10) as nat) == 48 + n % 10);
        assert(t.last() == digit_char(n % 10));
        assert(digits_value(t) == digits_value(t.drop_last()) * 10 + ((t.last() as nat) - 48) as nat);
        assert(digits_value(t) == (n / 10) * 10 + n % 10);
        assert((n / 10) * 10 + n % 10 == n) by (nonlinear_arith);
        assert(t[0] == p[0]);
        assert forall|i: int| 0 <= i < t.len() implies is_digit(#[trigger] t[i]) by {
            if i < p.len() {
                assert(t[i] == p[i]);
            }
        }
    }
    assert(unsigned_body(nat_text(n)) == nat_text(n));
}

/// `s` without a leading `+`.
pub open spec fn unsigned_body(s: Seq<char>) -> Seq<char> {
    if s.len() > 0 && s[0] == '+' {
        s.drop_first()
    } else {
        s
    }
}

/// The number an unsigned integer text denotes: an optional `+` followed by
/// one or more ASCII digits, nothing else.
pub open spec fn unsigned_text_value(s: Seq<char>) -> Option<nat> {
    if unsigned_body(s).len() > 0 && all_digits(unsigned_body(s)) {
        Some(digits_value(unsigned_body(s)))
    } else {
        None
    }
}

/// Reads a `u64` from its decimal text (std's `str::parse::<u64>`): an
/// optional `+` and digits, and a value that fits; the error carries std's
/// description of the failure, which is not stated here.
#[verifier::external_body]
fn parse_u64_text(value: &str) -> (r: Result<u64, String>)
    ensures
        r matches Ok(v) ==> unsigned_text_value(value@) == Some(v as nat),
        r is Ok <==> (unsigned_text_value(value@) matches Some(n) && n <= u64::MAX),
{
    value.parse::<u64>().map_err(|error| error.to_string())
}

/// Reads a `usize` from its decimal text (std's `str::parse::<usize>`).
#[verifier::external_body]
fn parse_usize_text(value: &str) -> (r: Result<usize, String>)
    ensures
        r matches Ok(v) ==> unsigned_text_value(value@) == Some(v as nat),
        r is Ok <==> (unsigned_text_value(value@) matches Some(n) && n <= usize::MAX),
{
    value.parse::<usize>().map_err(|error| error.to_string())
}

/// Reads an unsigned number set for `key`.
pub fn parse_u64(value: &str, key: &str) -> (r: Result<u64, HarpeError>)
    ensures
        r matches Ok(v) ==> unsigned_text_value(value@) == Some(v as nat),
        r is Ok <==> (unsigned_text_value(value@) matches Some(n) && n <= u64::MAX),
        r matches Err(e) ==> (e matches HarpeError::Validation(m) && crate::text::starts_with(
            m@,
            key@ + " is invalid: "@,
        )),
{
    match parse_u64_text(value) {
        Ok(v) => Ok(v),
        Err(detail) => {
            let mut m = concat_str(key, " is invalid: ");
            let ghost head = m@;
            m.append(detail.as_str());
            assert(m@.take(head.len() as int) =~= head);
            Err(HarpeError::Validation(m))
        },
    }
}

/// Reads a count set for `key`.
pub fn parse_usize(value: &str, key: &str) -> (r: Result<usize, HarpeError>)
    ensures
        r matches Ok(v) ==> unsigned_text_value(value@) == Some(v as nat),
        r is Ok <==> (unsigned_text_value(value@) matches Some(n) && n <= usize::MAX),
        r matches Err(e) ==> (e matches HarpeError::Validation(m) && crate::text::starts_with(
            m@,
            key@ + " is invalid: "@,
        )),
{
    match parse_usize_text(value) {
        Ok(v) => Ok(v),
        Err(detail) => {
            let mut m = concat_str(key, " is invalid: ");
            let ghost head = m@;
            m.append(detail.as_str());
            assert(m@.take(head.len() as int) =~= head);
            Err(HarpeError::Validation(m))
        },
    }
}

/// The first value set for `key` in `vars`.
pub open spec fn lookup(vars: Seq<(String, String)>, key: Seq<char>) -> Option<Seq<char>>
    decreases vars.len(),
{
    if vars.len() == 0 {
        None
    } else if vars[0].0@ == key {
        Some(vars[0].1@)
    } else {
        lookup(vars.drop_first(), key)
    }
}

/// The value set for `key`, or `default`.
pub open spec fn lookup_or(vars: Seq<(String, String)>, key: Seq<char>, default: Seq<char>) -> Seq<char> {
    match lookup(vars, key) {
        Some(v) => v,
        None => default,
    }
}

/// The first value set for `key`.
pub fn var(vars: &Vec<(String, String)>, key: &str) -> (r: Option<String>)
    ensures
        match r {
            Some(v) => lookup(vars@, key@) == Some(v@),
            None => lookup(vars@, key@) is None,
        },
{
    assert(vars@.skip(0) =~= vars@);
    let mut i: usize = 0;
    while i < vars.len()
        invariant
            i <= vars@.len(),
            lookup(vars@, key@) == lookup(vars@.skip(i as int), key@),
        decreases vars.len() - i,
    {
        assert(vars@.skip(i as int).drop_first() =~= vars@.skip(i + 1));
        if str_eq(vars[i].0.as_str(), key) {
            return Some(vars[i].1.clone());
        }
        i = i + 1;
    }
    assert(vars@.skip(i as int) =~= Seq::<(String, String)>::empty());
    None
}

/// The value set for `key`, or `default`.
fn var_or(vars: &Vec<(String, String)>, key: &str, default: &str) -> (r: String)
    ensures
        r@ == lookup_or(vars@, key@, default@),
{
    match var(vars, key) {
        Some(v) => v,
        None => default.to_owned(),
    }
}

/// A value that must be set for `key` and not be blank; it is kept as set.
pub fn required_var(vars: &Vec<(String, String)>, key: &str) -> (r: Result<String, HarpeError>)
    ensures
        r is Ok <==> !is_blank(lookup_or(vars@, key@, Seq::empty())),
        r matches Ok(v) ==> v@ == lookup_or(vars@, key@, Seq::empty()),
        r matches Err(e) ==> (e matches HarpeError::Validation(m) && m@ == key@ + " is required"@),
{
    let value = var_or(vars, key, "");
    proof {
        reveal_strlit("");
        assert(""@ =~= Seq::<char>::empty());
    }
    if is_blank_str(value.as_str()) {
        return Err(HarpeError::Validation(concat_str(key, " is required")));
    }
    Ok(value)
}

/// `s` with ASCII capitals made small.
pub open spec fn ascii_lowercase(s: Seq<char>) -> Seq<char> {
    s.map_values(|c: char| crate::client::ascii_lower(c))
}

/// `s` with ASCII capitals made small.
fn to_ascii_lowercase(s: &str) -> (r: String)
    ensures
        r@ == ascii_lowercase(s@),
{
    let v = chars_of(s);
    let mut out: Vec<char> = Vec::new();
    let mut i: usize = 0;
    while i < v.len()
        invariant
            i <= v@.len(),
            out@ == v@.take(i as int).map_values(|c: char| crate::client::ascii_lower(c)),
        decreases v.len() - i,
    {
        let c = v[i];
        let l = if 'A' <= c && c <= 'Z' {
            ((c as u8) + 32) as char
        } else {
            c
        };
        out.push(l);
        assert(v@.take(i + 1).map_values(|c: char| crate::client::ascii_lower(c)) =~= v@.take(
            i as int,
        ).map_values(|c: char| crate::client::ascii_lower(c)).push(crate::client::ascii_lower(c)));
        i = i + 1;
    }
    assert(v@.take(v@.len() as int) =~= v@);
    string_from_chars(out.as_slice())
}

/// The settings of an OpenAI-compatible model provider.
#[derive(Clone, Debug, PartialEq, Eq)]
pub struct HttpLlmConfig {
    pub base_url: String,
    pub api_key: Option<String>,
    pub chat_model: String,
    pub extraction_model: String,
    pub embedding_model: String,
    pub timeout_ms: u64,
    pub max_retries: usize,
    pub retry_base_ms: u64,
}

impl HttpLlmConfig {
    /// A provider at `base_url` with the given models, a one-minute timeout,
    /// two retries and a 200 ms retry base.
    pub fn openai_compatible(
        base_url: String,
        api_key: Option<String>,
        chat_model: String,
        extraction_model: String,
        embedding_model: String,
    ) -> (r: HttpLlmConfig)
        ensures
            r.base_url == base_url,
            r.api_key == api_key,
            r.chat_model == chat_model,
            r.extraction_model == extraction_model,
            r.embedding_model == embedding_model,
            r.timeout_ms == 60000,
            r.max_retries == 2,
            r.retry_base_ms == 200,
    {
        HttpLlmConfig {
            base_url,
            api_key,
            chat_model,
            extraction_model,
            embedding_model,
            timeout_ms: 60000,
            max_retries: 2,
            retry_base_ms: 200,
        }
    }

    /// The same provider with another timeout and retry policy.
    pub fn with_request_policy(self, timeout_ms: u64, max_retries: usize, retry_base_ms: u64) -> (r:
        HttpLlmConfig)
        ensures
            r.base_url == self.base_url,
            r.api_key == self.api_key,
            r.chat_model == self.chat_model,
            r.extraction_model == self.extraction_model,
            r.embedding_model == self.embedding_model,
            r.timeout_ms == timeout_ms,
            r.max_retries == max_retries,
            r.retry_base_ms == retry_base_ms,
    {
        HttpLlmConfig { timeout_ms, max_retries, retry_base_ms, ..self }
    }
}

/// Which model client the server uses.
#[derive(Clone, Debug, PartialEq, Eq)]
pub enum AppLlmConfig {
    Echo,
    Http(HttpLlmConfig),
}

/// The server's settings; the gRPC address is kept as the checked text.
#[derive(Clone, Debug, PartialEq, Eq)]
pub struct AppConfig {
    pub grpc_addr: String,
    pub surreal_endpoint: String,
    pub surreal_namespace: String,
    pub surreal_database: String,
    pub llm: AppLlmConfig,
    pub job_interval_ms: u64,
    pub job_batch_limit: usize,
}

/// Whether `s` reads as a number that fits in `max`.
pub open spec fn reads_as(s: Seq<char>, max: nat) -> bool {
    unsigned_text_value(s) matches Some(n) && n <= max
}

/// The provider the variables choose: the setting trimmed and in ASCII lowercase.
pub open spec fn provider_of(vars: Seq<(String, String)>) -> Seq<char> {
    ascii_lowercase(trim(lookup_or(vars, "HARPE_LLM_PROVIDER"@, "echo"@)))
}

/// Whether the provider settings of an HTTP provider are complete and readable.
pub open spec fn http_settings_ok(vars: Seq<(String, String)>) -> bool {
    &&& !is_blank(lookup_or(vars, "HARPE_LLM_BASE_URL"@, Seq::empty()))
    &&& !is_blank(lookup_or(vars, "HARPE_LLM_CHAT_MODEL"@, Seq::empty()))
    &&& !is_blank(lookup_or(vars, "HARPE_LLM_EXTRACTION_MODEL"@, Seq::empty()))
    &&& !is_blank(lookup_or(vars, "HARPE_LLM_EMBEDDING_MODEL"@, Seq::empty()))
    &&& reads_as(lookup_or(vars, "HARPE_LLM_TIMEOUT_MS"@, "60000"@), u64::MAX as nat)
    &&& reads_as(lookup_or(vars, "HARPE_LLM_MAX_RETRIES"@, "2"@), usize::MAX as nat)
    &&& reads_as(lookup_or(vars, "HARPE_LLM_RETRY_BASE_MS"@, "200"@), u64::MAX as nat)
}

/// Why the variables do not make a configuration, for the first setting,
/// in the order they are read, that cannot be used.
pub enum ConfigFault {
    /// A provider that is neither `echo`, `http` nor `openai-compatible`.
    Unsupported(Seq<char>),
    /// A provider setting that is missing or blank.
    Required(Seq<char>),
    /// A number that does not read, or does not fit.
    Invalid(Seq<char>),
}

/// The fault, if any, of the number set for `key` (or its `default`) that
/// must fit in `max`.
pub open spec fn number_fault(vars: Seq<(String, String)>, key: Seq<char>, default: Seq<char>, max: nat) -> Option<ConfigFault> {
    if reads_as(lookup_or(vars, key, default), max) {
        None
    } else {
        Some(ConfigFault::Invalid(key))
    }
}

/// The fault, if any, of the required provider setting `key`.
pub open spec fn required_fault(vars: Seq<(String, String)>, key: Seq<char>) -> Option<ConfigFault> {
    if is_blank(lookup_or(vars, key, Seq::empty())) {
        Some(ConfigFault::Required(key))
    } else {
        None
    }
}

/// The first of two possible faults.
pub open spec fn first_fault(a: Option<ConfigFault>, b: Option<ConfigFault>) -> Option<ConfigFault> {
    match a {
        Some(f) => Some(f),
        None => b,
    }
}

/// The first fault of the HTTP provider's settings: the base URL and the
/// three models must be set, then the timeout, retry count and retry base
/// must read as numbers.
pub open spec fn http_fault(vars: Seq<(String, String)>) -> Option<ConfigFault> {
    first_fault(required_fault(vars, "HARPE_LLM_BASE_URL"@),
    first_fault(required_fault(vars, "HARPE_LLM_CHAT_MODEL"@),
    first_fault(required_fault(vars, "HARPE_LLM_EXTRACTION_MODEL"@),
    first_fault(required_fault(vars, "HARPE_LLM_EMBEDDING_MODEL"@),
    first_fault(number_fault(vars, "HARPE_LLM_TIMEOUT_MS"@, "60000"@, u64::MAX as nat),
    first_fault(number_fault(vars, "HARPE_LLM_MAX_RETRIES"@, "2"@, usize::MAX as nat),
    number_fault(vars, "HARPE_LLM_RETRY_BASE_MS"@, "200"@, u64::MAX as nat)))))))
}

/// The first fault of the variables, once the address has been read: the
/// provider and its settings, then the job interval and batch limit.
pub open spec fn config_fault(vars: Seq<(String, String)>) -> Option<ConfigFault> {
    let provider = provider_of(vars);
    first_fault(
        if provider == "echo"@ {
            None
        } else if provider == "http"@ || provider == "openai-compatible"@ {
            http_fault(vars)
        } else {
            Some(ConfigFault::Unsupported(provider))
        },
        first_fault(number_fault(vars, "HARPE_JOB_INTERVAL_MS"@, "2000"@, u64::MAX as nat),
        number_fault(vars, "HARPE_JOB_BATCH_LIMIT"@, "25"@, usize::MAX as nat)),
    )
}

/// Whether `m` is the message of the fault `f`: the unsupported provider
/// named, the missing setting named as required, or the setting that does
/// not read named as invalid, followed by std's description of the failure.
pub open spec fn fault_message(f: ConfigFault, m: Seq<char>) -> bool {
    match f {
        ConfigFault::Unsupported(p) => m == "unsupported HARPE_LLM_PROVIDER "@ + p,
        ConfigFault::Required(key) => m == key + " is required"@,
        ConfigFault::Invalid(key) => crate::text::starts_with(m, key + " is invalid: "@),
    }
}

/// Whether the variables make a valid configuration.
pub open spec fn vars_ok(vars: Seq<(String, String)>) -> bool {
    let provider = provider_of(vars);
    &&& (provider == "echo"@ || ((provider == "http"@ || provider == "openai-compatible"@)
        && http_settings_ok(vars)))
    &&& reads_as(lookup_or(vars, "HARPE_JOB_INTERVAL_MS"@, "2000"@), u64::MAX as nat)
    &&& reads_as(lookup_or(vars, "HARPE_JOB_BATCH_LIMIT"@, "25"@), usize::MAX as nat)
}

impl AppConfig {
    /// The text of the address the server listens on: `HARPE_GRPC_ADDR`,
    /// or its development default.
    pub fn grpc_addr_text(vars: &Vec<(String, String)>) -> (r: String)
        ensures
            r@ == lookup_or(vars@, "HARPE_GRPC_ADDR"@, "[::1]:50051"@),
    {
        var_or(vars, "HARPE_GRPC_ADDR", "[::1]:50051")
    }

    /// The settings read from the variables `vars`, each with its
    /// development default; a setting that cannot be read is refused.
    /// `grpc_addr_error` is what reading the text of `grpc_addr_text` as a
    /// socket address reported, if it failed; that address comes first.
    pub fn from_vars(vars: &Vec<(String, String)>, grpc_addr_error: Option<String>) -> (r: Result<AppConfig, HarpeError>)
        ensures
            r is Ok <==> grpc_addr_error is None && vars_ok(vars@),
            grpc_addr_error is None ==> (r is Ok <==> config_fault(vars@) is None),
            grpc_addr_error is None && config_fault(vars@) is Some ==> (r matches Err(
                HarpeError::Validation(m),
            ) && fault_message(config_fault(vars@)->0, m@)),
            r matches Err(e) ==> e is Validation,
            grpc_addr_error matches Some(d) ==> (r matches Err(HarpeError::Validation(m)) && m@
                == "HARPE_GRPC_ADDR is invalid: "@ + d@),
            r matches Ok(c) ==> {
                &&& c.grpc_addr@ == lookup_or(vars@, "HARPE_GRPC_ADDR"@, "[::1]:50051"@)
                &&& c.surreal_endpoint@ == lookup_or(vars@, "SURREALDB_ENDPOINT"@, "memory"@)
                &&& c.surreal_namespace@ == lookup_or(vars@, "SURREALDB_NAMESPACE"@, "harpe"@)
                &&& c.surreal_database@ == lookup_or(vars@, "SURREALDB_DATABASE"@, "dev"@)
                &&& Some(c.job_interval_ms as nat) == unsigned_text_value(
                    lookup_or(vars@, "HARPE_JOB_INTERVAL_MS"@, "2000"@),
                )
                &&& Some(c.job_batch_limit as nat) == unsigned_text_value(
                    lookup_or(vars@, "HARPE_JOB_BATCH_LIMIT"@, "25"@),
                )
                &&& (provider_of(vars@) == "echo"@ <==> c.llm is Echo)
                &&& (c.llm matches AppLlmConfig::Http(h) ==> {
                    &&& h.base_url@ == lookup_or(vars@, "HARPE_LLM_BASE_URL"@, Seq::empty())
                    &&& h.api_key.is_some() == lookup(vars@, "HARPE_LLM_API_KEY"@).is_some()
                    &&& (h.api_key matches Some(k) ==> lookup(vars@, "HARPE_LLM_API_KEY"@) == Some(k@))
                    &&& h.chat_model@ == lookup_or(vars@, "HARPE_LLM_CHAT_MODEL"@, Seq::empty())
                    &&& h.extraction_model@ == lookup_or(vars@, "HARPE_LLM_EXTRACTION_MODEL"@, Seq::empty())
                    &&& h.embedding_model@ == lookup_or(vars@, "HARPE_LLM_EMBEDDING_MODEL"@, Seq::empty())
                    &&& Some(h.timeout_ms as nat) == unsigned_text_value(lookup_or(vars@, "HARPE_LLM_TIMEOUT_MS"@, "60000"@))
                    &&& Some(h.max_retries as nat) == unsigned_text_value(lookup_or(vars@, "HARPE_LLM_MAX_RETRIES"@, "2"@))
                    &&& Some(h.retry_base_ms as nat) == unsigned_text_value(lookup_or(vars@, "HARPE_LLM_RETRY_BASE_MS"@, "200"@))
                })
            },
    {
        let grpc_addr = var_or(vars, "HARPE_GRPC_ADDR", "[::1]:50051");
        match grpc_addr_error {
            None => {},
            Some(detail) => {
                let mut m = "HARPE_GRPC_ADDR is invalid: ".to_owned();
                m.append(detail.as_str());
                return Err(HarpeError::Validation(m));
            },
        }
        let surreal_endpoint = var_or(vars, "SURREALDB_ENDPOINT", "memory");
        let surreal_namespace = var_or(vars, "SURREALDB_NAMESPACE", "harpe");
        let surreal_database = var_or(vars, "SURREALDB_DATABASE", "dev");
        let provider_setting = var_or(vars, "HARPE_LLM_PROVIDER", "echo");
        let trimmed = trim_str(provider_setting.as_str());
        let provider = to_ascii_lowercase(trimmed.as_str());
        let llm = if str_eq(provider.as_str(), "echo") {
            AppLlmConfig::Echo
        } else if str_eq(provider.as_str(), "http") || str_eq(provider.as_str(), "openai-compatible") {
            let base_url = required_var(vars, "HARPE_LLM_BASE_URL")?;
            let api_key = var(vars, "HARPE_LLM_API_KEY");
            let chat_model = required_var(vars, "HARPE_LLM_CHAT_MODEL")?;
            let extraction_model = required_var(vars, "HARPE_LLM_EXTRACTION_MODEL")?;
            let embedding_model = required_var(vars, "HARPE_LLM_EMBEDDING_MODEL")?;
            let timeout_text = var_or(vars, "HARPE_LLM_TIMEOUT_MS", "60000");
            let timeout_ms = parse_u64(timeout_text.as_str(), "HARPE_LLM_TIMEOUT_MS")?;
            let retries_text = var_or(vars, "HARPE_LLM_MAX_RETRIES", "2");
            let max_retries = parse_usize(retries_text.as_str(), "HARPE_LLM_MAX_RETRIES")?;
            let base_text = var_or(vars, "HARPE_LLM_RETRY_BASE_MS", "200");
            let retry_base_ms = parse_u64(base_text.as_str(), "HARPE_LLM_RETRY_BASE_MS")?;
            AppLlmConfig::Http(
                HttpLlmConfig::openai_compatible(
                    base_url,
                    api_key,
                    chat_model,
                    extraction_model,
                    embedding_model,
                ).with_request_policy(timeout_ms, max_retries, retry_base_ms),
            )
        } else {
            let mut m = "unsupported HARPE_LLM_PROVIDER ".to_owned();
            m.append(provider.as_str());
            return Err(HarpeError::Validation(m));
        };
        let interval_text = var_or(vars, "HARPE_JOB_INTERVAL_MS", "2000");
        let job_interval_ms = parse_u64(interval_text.as_str(), "HARPE_JOB_INTERVAL_MS")?;
        let batch_text = var_or(vars, "HARPE_JOB_BATCH_LIMIT", "25");
        let job_batch_limit = parse_usize(batch_text.as_str(), "HARPE_JOB_BATCH_LIMIT")?;
        proof {
            reveal_strlit("echo");
            reveal_strlit("http");
            reveal_strlit("openai-compatible");
        }
        Ok(
            AppConfig {
                grpc_addr,
                surreal_endpoint,
                surreal_namespace,
                surreal_database,
                llm,
                job_interval_ms,
                job_batch_limit,
            },
        )
    }
}

} // verus!
