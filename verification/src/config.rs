//! Configuration management.
//!
//! Configuration sources, in priority order:
//! 1. Command-line arguments (highest)
//! 2. Environment variables (`AGNES_API_KEY`, `AGNES_BASE_URL`, `AGNES_MCP_*`)
//! 3. TOML configuration file
//! 4. Built-in defaults (lowest)
//!
//! The environment is handed in as an [`EnvVars`] snapshot, so the rules by
//! which it overrides the configuration are plain functions of it.

use vstd::prelude::*;

use crate::error::{Error, Result};
use crate::text::{
    concat, contains_string, has_prefix, lemma_trim_idempotent, owned, parse_unsigned, parse_unsigned_str, push_string, split,
    split_on, starts_with, trim, trim_str, trim_trailing, trim_trailing_char,
};

verus! {

/// Default Agnes API base URL.
pub const DEFAULT_AGNES_BASE_URL: &'static str = "https://apihub.agnes-ai.com";

/// Agnes chat/text model identifier.
pub const MODEL_TEXT: &'static str = "agnes-2.0-flash";

/// Agnes image generation model identifier.
pub const MODEL_IMAGE: &'static str = "agnes-image-2.1-flash";

/// Agnes video generation model identifier.
pub const MODEL_VIDEO: &'static str = "agnes-video-v2.0";

/// Message of the error raised when no API key is configured at validation.
pub const MISSING_KEY_MESSAGE: &'static str = "agnes.api_key / agnes.api_keys is required. Set it in config.toml,                  the AGNES_API_KEY / AGNES_API_KEYS env var, or pass --api-key.";

/// Message of the error raised when no API key is configured for a client.
pub const KEY_NOT_SET_MESSAGE: &'static str = "agnes.api_key / agnes.api_keys is not set";

/// Prefix of the error raised for a base URL that is not http(s).
pub const BAD_BASE_URL_PREFIX: &'static str = "agnes.base_url must start with http:// or https://, got: ";

// ---------------------------------------------------------------------------
// The key pool specification
// ---------------------------------------------------------------------------

/// The entries of `s` that are not empty, in order.
pub open spec fn nonempty_only(s: Seq<Seq<char>>) -> Seq<Seq<char>>
    decreases s.len(),
{
    if s.len() == 0 {
        s
    } else {
        let rest = nonempty_only(s.drop_last());
        if s.last().len() > 0 {
            rest.push(s.last())
        } else {
            rest
        }
    }
}

/// `s` with every entry after its first occurrence removed.
pub open spec fn dedup(s: Seq<Seq<char>>) -> Seq<Seq<char>>
    decreases s.len(),
{
    if s.len() == 0 {
        s
    } else {
        let rest = dedup(s.drop_last());
        if rest.contains(s.last()) {
            rest
        } else {
            rest.push(s.last())
        }
    }
}

/// Every entry of `s` trimmed.
pub open spec fn trim_each(s: Seq<Seq<char>>) -> Seq<Seq<char>> {
    s.map_values(|k: Seq<char>| trim(k))
}

/// The key pool built from raw entries: trimmed, empties dropped, deduped
/// keeping the first occurrence.
pub open spec fn key_pool(raw: Seq<Seq<char>>) -> Seq<Seq<char>> {
    dedup(nonempty_only(trim_each(raw)))
}

/// The trimmed, non-empty pieces of a comma-separated list.
pub open spec fn comma_list(s: Seq<char>) -> Seq<Seq<char>> {
    nonempty_only(trim_each(split(s, ',')))
}

/// Whether a base URL uses the http or https scheme.
pub open spec fn base_url_ok(u: Seq<char>) -> bool {
    has_prefix(u, "http://"@) || has_prefix(u, "https://"@)
}

// ---------------------------------------------------------------------------
// Configuration types
// ---------------------------------------------------------------------------

/// Top-level application configuration.
#[derive(Debug, Clone)]
pub struct AppConfig {
    /// Agnes API configuration.
    pub agnes: AgnesConfig,
    /// Server / transport configuration.
    pub server: ServerConfig,
    /// Logging configuration.
    pub logging: LoggingConfig,
}

/// Agnes API configuration.
#[derive(Debug, Clone)]
pub struct AgnesConfig {
    /// Agnes API base URL (no trailing slash).
    pub base_url: String,
    /// Agnes API key. Accepts a single key or a comma-separated list (e.g.
    /// `"sk-1, sk-2"`), which is split into multiple pool entries.
    pub api_key: Option<String>,
    /// Multiple Agnes API keys used as a round-robin pool.
    pub api_keys: Option<Vec<String>>,
    /// Request timeout in seconds for synchronous endpoints (chat, image).
    pub request_timeout_secs: u64,
    /// Cooldown in seconds applied to an API key after an authentication
    /// failure (HTTP 401/403).
    pub key_cooldown_secs: u64,
    /// Cooldown in seconds applied to an API key after a rate-limit response
    /// (HTTP 429).
    pub key_rate_limit_cooldown_secs: u64,
    /// Agnes chat/text model identifier.
    pub model_text: String,
    /// Agnes image generation model identifier.
    pub model_image: String,
    /// Agnes video generation model identifier.
    pub model_video: String,
    /// MCP tool names to disable (not register with the server).
    pub disabled_tools: Vec<String>,
}

/// Server / transport configuration.
#[derive(Debug, Clone)]
pub struct ServerConfig {
    /// Server name reported to MCP clients.
    pub name: String,
    /// Bind host address.
    pub host: String,
    /// Bind port (HTTP/SSE transports).
    pub port: u16,
    /// Transport mode: `stdio`, `http`, `sse`, or `hybrid`.
    pub transport_mode: String,
}

/// Logging configuration.
#[derive(Debug, Clone)]
pub struct LoggingConfig {
    /// Log level: `trace`, `debug`, `info`, `warn`, or `error`.
    pub level: String,
}

// ---------------------------------------------------------------------------
// Defaults
// ---------------------------------------------------------------------------

/// Default request timeout in seconds.
pub fn default_request_timeout() -> (r: u64)
    ensures
        r == 180,
{
    180
}

/// Default cooldown after an authentication failure, in seconds.
pub fn default_key_cooldown() -> (r: u64)
    ensures
        r == 600,
{
    600
}

/// Default cooldown after a rate-limit response, in seconds.
pub fn default_key_rate_limit_cooldown() -> (r: u64)
    ensures
        r == 60,
{
    60
}

/// Default Agnes API base URL.
pub fn default_base_url() -> (r: String)
    ensures
        r@ == DEFAULT_AGNES_BASE_URL@,
{
    owned(DEFAULT_AGNES_BASE_URL)
}

/// Default chat/text model identifier.
pub fn default_model_text() -> (r: String)
    ensures
        r@ == MODEL_TEXT@,
{
    owned(MODEL_TEXT)
}

/// Default image generation model identifier.
pub fn default_model_image() -> (r: String)
    ensures
        r@ == MODEL_IMAGE@,
{
    owned(MODEL_IMAGE)
}

/// Default video generation model identifier.
pub fn default_model_video() -> (r: String)
    ensures
        r@ == MODEL_VIDEO@,
{
    owned(MODEL_VIDEO)
}

/// Default server name.
pub fn default_server_name() -> (r: String)
    ensures
        r@ == crate::NAME@,
{
    owned(crate::NAME)
}

/// Default bind host.
pub fn default_server_host() -> (r: String)
    ensures
        r@ == "127.0.0.1"@,
{
    owned("127.0.0.1")
}

/// Default bind port.
pub fn default_server_port() -> (r: u16)
    ensures
        r == 8080,
{
    8080
}

/// Default transport mode.
pub fn default_transport_mode() -> (r: String)
    ensures
        r@ == "stdio"@,
{
    owned("stdio")
}

/// Default log level.
pub fn default_log_level() -> (r: String)
    ensures
        r@ == "info"@,
{
    owned("info")
}

impl AgnesConfig {
    /// Whether this is the built-in default Agnes configuration.
    pub open spec fn is_default(&self) -> bool {
        &&& self.base_url@ == DEFAULT_AGNES_BASE_URL@
        &&& self.api_key is None
        &&& self.api_keys is None
        &&& self.request_timeout_secs == 180
        &&& self.key_cooldown_secs == 600
        &&& self.key_rate_limit_cooldown_secs == 60
        &&& self.model_text@ == MODEL_TEXT@
        &&& self.model_image@ == MODEL_IMAGE@
        &&& self.model_video@ == MODEL_VIDEO@
        &&& self.disabled_tools@.len() == 0
    }
}

impl ServerConfig {
    /// Whether this is the built-in default server configuration.
    pub open spec fn is_default(&self) -> bool {
        &&& self.name@ == crate::NAME@
        &&& self.host@ == "127.0.0.1"@
        &&& self.port == 8080
        &&& self.transport_mode@ == "stdio"@
    }
}

impl LoggingConfig {
    /// Whether this is the built-in default logging configuration.
    pub open spec fn is_default(&self) -> bool {
        self.level@ == "info"@
    }
}

impl AppConfig {
    /// Whether this is the built-in default configuration.
    pub open spec fn is_default(&self) -> bool {
        self.agnes.is_default() && self.server.is_default() && self.logging.is_default()
    }
}

impl Default for AgnesConfig {
    fn default() -> (r: Self)
        ensures
            r.is_default(),
    {
        AgnesConfig {
            base_url: default_base_url(),
            api_key: None,
            api_keys: None,
            request_timeout_secs: default_request_timeout(),
            key_cooldown_secs: default_key_cooldown(),
            key_rate_limit_cooldown_secs: default_key_rate_limit_cooldown(),
            model_text: default_model_text(),
            model_image: default_model_image(),
            model_video: default_model_video(),
            disabled_tools: Vec::new(),
        }
    }
}

impl Default for ServerConfig {
    fn default() -> (r: Self)
        ensures
            r.is_default(),
    {
        ServerConfig {
            name: default_server_name(),
            host: default_server_host(),
            port: default_server_port(),
            transport_mode: default_transport_mode(),
        }
    }
}

impl Default for LoggingConfig {
    fn default() -> (r: Self)
        ensures
            r.is_default(),
    {
        LoggingConfig { level: default_log_level() }
    }
}

impl Default for AppConfig {
    fn default() -> (r: Self)
        ensures
            r.is_default(),
    {
        AppConfig {
            agnes: AgnesConfig::default(),
            server: ServerConfig::default(),
            logging: LoggingConfig::default(),
        }
    }
}

// ---------------------------------------------------------------------------
// The API key pool
// ---------------------------------------------------------------------------

impl AgnesConfig {
    /// The `api_keys` list, or nothing when unset.
    pub open spec fn api_key_list(&self) -> Seq<Seq<char>> {
        match &self.api_keys {
            Some(v) => v.deep_view(),
            None => Seq::<Seq<char>>::empty(),
        }
    }

    /// The trimmed comma-separated pieces of `api_key`, or nothing when unset.
    pub open spec fn api_key_pieces(&self) -> Seq<Seq<char>> {
        match &self.api_key {
            Some(k) => trim_each(split(k@, ',')),
            None => Seq::<Seq<char>>::empty(),
        }
    }

    /// The merged, deduped pool of API keys.
    pub open spec fn key_pool(&self) -> Seq<Seq<char>> {
        key_pool(self.api_key_list() + self.api_key_pieces())
    }

    /// Merge all configured API keys into a single deduped pool.
    ///
    /// Sources (in order, all merged — not override semantics):
    /// 1. `agnes.api_keys`: the TOML array, with the `AGNES_API_KEYS` env
    ///    entries (comma-separated) and the repeatable CLI `--api-key` merged in
    /// 2. `agnes.api_key` (TOML scalar, or the `AGNES_API_KEY` env).
    ///    The scalar form also accepts comma-separated entries.
    ///
    /// Empty strings and duplicates are dropped; the first occurrence wins.
    pub fn effective_api_keys(&self) -> (r: Vec<String>)
        ensures
            r.deep_view() == self.key_pool(),
    {
        let mut raw: Vec<String> = Vec::new();
        match &self.api_keys {
            Some(list) => {
                let mut i: usize = 0;
                while i < list.len()
                    invariant
                        0 <= i <= list@.len(),
                        raw.deep_view() == list.deep_view().take(i as int),
                    decreases list@.len() - i,
                {
                    let k = owned(list[i].as_str());
                    push_string(&mut raw, k);
                    i = i + 1;
                    assert(raw.deep_view() =~= list.deep_view().take(i as int));
                }
                assert(list.deep_view().take(list@.len() as int) =~= list.deep_view());
            },
            None => {},
        }
        assert(raw.deep_view() =~= self.api_key_list());
        match &self.api_key {
            Some(single) => {
                let parts = split_on(single.as_str(), ',');
                let ghost base = raw.deep_view();
                let mut i: usize = 0;
                while i < parts.len()
                    invariant
                        0 <= i <= parts@.len(),
                        parts.deep_view() == split(single@, ','),
                        raw.deep_view() == base + trim_each(parts.deep_view().take(i as int)),
                    decreases parts@.len() - i,
                {
                    let t = trim_str(parts[i].as_str());
                    push_string(&mut raw, t);
                    i = i + 1;
                    assert(raw.deep_view() =~= base + trim_each(parts.deep_view().take(i as int)));
                }
                assert(parts.deep_view().take(parts@.len() as int) =~= parts.deep_view());
            },
            None => {
                assert(raw.deep_view() =~= raw.deep_view() + self.api_key_pieces());
            },
        }
        let ghost all = raw.deep_view();
        assert(all =~= self.api_key_list() + self.api_key_pieces());
        let mut keys: Vec<String> = Vec::new();
        let mut i: usize = 0;
        while i < raw.len()
            invariant
                0 <= i <= raw@.len(),
                all == raw.deep_view(),
                keys.deep_view() == key_pool(all.take(i as int)),
            decreases raw@.len() - i,
        {
            let t = trim_str(raw[i].as_str());
            let ghost prev = all.take(i as int);
            let ghost next = all.take(i + 1 as int);
            assert(next.drop_last() =~= prev);
            assert(trim_each(next).drop_last() =~= trim_each(prev));
            assert(trim_each(next).last() == t@);
            if !t.as_str().is_empty() {
                assert(nonempty_only(trim_each(next)) == nonempty_only(trim_each(prev)).push(t@));
                assert(nonempty_only(trim_each(next)).drop_last() =~= nonempty_only(
                    trim_each(prev),
                ));
                if !contains_string(&keys, t.as_str()) {
                    push_string(&mut keys, t);
                    assert(keys.deep_view() =~= key_pool(next));
                }
            } else {
                assert(nonempty_only(trim_each(next)) == nonempty_only(trim_each(prev)));
            }
            i = i + 1;
        }
        assert(all.take(raw@.len() as int) =~= all);
        keys
    }

    /// Returns the merged, deduped list of API keys, or an error if empty.
    pub fn require_api_keys(&self) -> (r: Result<Vec<String>>)
        ensures
            self.key_pool().len() > 0 ==> (r matches Ok(keys) && keys.deep_view()
                == self.key_pool()),
            self.key_pool().len() == 0 ==> (r matches Err(e) && e.is_config_with(
                KEY_NOT_SET_MESSAGE@,
            )),
    {
        let keys = self.effective_api_keys();
        if keys.len() == 0 {
            return Err(Error::config(owned(KEY_NOT_SET_MESSAGE)));
        }
        Ok(keys)
    }
}

impl AppConfig {
    /// Whether this configuration passes validation.
    pub open spec fn is_valid(&self) -> bool {
        self.agnes.key_pool().len() > 0 && base_url_ok(self.agnes.base_url@)
    }

    /// Validate the configuration, returning an error if a required field is
    /// missing or invalid.
    pub fn validate(&self) -> (r: Result<()>)
        ensures
            r is Ok <==> self.is_valid(),
            self.agnes.key_pool().len() == 0 ==> (r matches Err(e) && e.is_config_with(
                MISSING_KEY_MESSAGE@,
            )),
            self.agnes.key_pool().len() > 0 && !base_url_ok(self.agnes.base_url@) ==> (r matches Err(
                e,
            ) && e.is_config_with(BAD_BASE_URL_PREFIX@ + self.agnes.base_url@)),
    {
        let keys = self.agnes.effective_api_keys();
        if keys.len() == 0 {
            return Err(Error::config(owned(MISSING_KEY_MESSAGE)));
        }
        if !starts_with(self.agnes.base_url.as_str(), "http://") && !starts_with(
            self.agnes.base_url.as_str(),
            "https://",
        ) {
            return Err(Error::config(concat(BAD_BASE_URL_PREFIX, self.agnes.base_url.as_str())));
        }
        Ok(())
    }
}

// ---------------------------------------------------------------------------
// Environment overrides
// ---------------------------------------------------------------------------

/// A snapshot of the environment variables the configuration reads. Each
/// field is `None` when the variable is unset (or not valid Unicode).
#[derive(Debug, Clone)]
pub struct EnvVars {
    /// `AGNES_API_KEYS`: comma-separated multi-key pool.
    pub api_keys: Option<String>,
    /// `AGNES_API_KEY`.
    pub api_key: Option<String>,
    /// `AGNES_TOKEN`, read when `AGNES_API_KEY` is unset.
    pub token: Option<String>,
    /// `AGNES_BASE_URL`.
    pub base_url: Option<String>,
    /// `AGNES_MCP_HOST`.
    pub host: Option<String>,
    /// `AGNES_MCP_PORT`.
    pub port: Option<String>,
    /// `AGNES_MCP_TRANSPORT`.
    pub transport: Option<String>,
    /// `AGNES_KEY_COOLDOWN_SECS`.
    pub key_cooldown_secs: Option<String>,
    /// `AGNES_KEY_RATE_LIMIT_COOLDOWN_SECS`.
    pub key_rate_limit_cooldown_secs: Option<String>,
    /// `AGNES_MCP_LOG_LEVEL`.
    pub log_level: Option<String>,
    /// `AGNES_MODEL_TEXT`.
    pub model_text: Option<String>,
    /// `AGNES_MODEL_IMAGE`.
    pub model_image: Option<String>,
    /// `AGNES_MODEL_VIDEO`.
    pub model_video: Option<String>,
    /// `AGNES_DISABLED_TOOLS`: comma-separated tool names.
    pub disabled_tools: Option<String>,
}

impl Default for EnvVars {
    /// No variable set.
    fn default() -> (r: Self)
        ensures
            r.api_keys is None && r.api_key is None && r.token is None && r.base_url is None
                && r.host is None && r.port is None && r.transport is None
                && r.key_cooldown_secs is None && r.key_rate_limit_cooldown_secs is None
                && r.log_level is None && r.model_text is None && r.model_image is None
                && r.model_video is None && r.disabled_tools is None,
    {
        EnvVars {
            api_keys: None,
            api_key: None,
            token: None,
            base_url: None,
            host: None,
            port: None,
            transport: None,
            key_cooldown_secs: None,
            key_rate_limit_cooldown_secs: None,
            log_level: None,
            model_text: None,
            model_image: None,
            model_video: None,
            disabled_tools: None,
        }
    }
}

/// Whether an optional variable is set to a non-empty value.
pub open spec fn set_nonempty(v: Option<String>) -> bool {
    v matches Some(s) && s@.len() > 0
}

/// The value of a variable that is set (meaningful under `set_nonempty`).
pub open spec fn value_of(v: Option<String>) -> Seq<char> {
    match v {
        Some(s) => s@,
        None => Seq::<char>::empty(),
    }
}

/// A string field after an override by a variable that applies when set
/// and non-empty.
pub open spec fn string_overridden(before: String, after: String, v: Option<String>) -> bool {
    if set_nonempty(v) {
        after@ == value_of(v)
    } else {
        after == before
    }
}

/// An unsigned field after an override by a variable that applies when its
/// trimmed value parses as an integer no larger than `max`.
pub open spec fn number_overridden(before: nat, after: nat, v: Option<String>, max: nat) -> bool {
    match v {
        Some(s) => match parse_unsigned(trim(s@), max) {
            Some(n) => after == n,
            None => after == before,
        },
        None => after == before,
    }
}

/// The key variable that applies: `AGNES_API_KEY`, or `AGNES_TOKEN` when
/// the former is unset.
pub open spec fn chosen_key_var(env: EnvVars) -> Option<String> {
    if env.api_key is Some {
        env.api_key
    } else {
        env.token
    }
}

/// `after` is `before` with the environment `env` applied.
pub open spec fn env_applied(before: AppConfig, after: AppConfig, env: EnvVars) -> bool {
    &&& if set_nonempty(env.api_keys) {
        after.agnes.api_keys matches Some(l) && l.deep_view() == dedup(
            before.agnes.api_key_list() + comma_list(value_of(env.api_keys)),
        )
    } else {
        after.agnes.api_keys == before.agnes.api_keys
    }
    &&& if set_nonempty(chosen_key_var(env)) {
        after.agnes.api_key matches Some(k) && k@ == value_of(chosen_key_var(env))
    } else {
        after.agnes.api_key == before.agnes.api_key
    }
    &&& if set_nonempty(env.base_url) {
        after.agnes.base_url@ == trim_trailing(value_of(env.base_url), '/')
    } else {
        after.agnes.base_url == before.agnes.base_url
    }
    &&& string_overridden(before.server.host, after.server.host, env.host)
    &&& number_overridden(before.server.port as nat, after.server.port as nat, env.port, 65535)
    &&& string_overridden(before.server.transport_mode, after.server.transport_mode, env.transport)
    &&& number_overridden(
        before.agnes.key_cooldown_secs as nat,
        after.agnes.key_cooldown_secs as nat,
        env.key_cooldown_secs,
        u64::MAX as nat,
    )
    &&& number_overridden(
        before.agnes.key_rate_limit_cooldown_secs as nat,
        after.agnes.key_rate_limit_cooldown_secs as nat,
        env.key_rate_limit_cooldown_secs,
        u64::MAX as nat,
    )
    &&& string_overridden(before.logging.level, after.logging.level, env.log_level)
    &&& string_overridden(before.agnes.model_text, after.agnes.model_text, env.model_text)
    &&& string_overridden(before.agnes.model_image, after.agnes.model_image, env.model_image)
    &&& string_overridden(before.agnes.model_video, after.agnes.model_video, env.model_video)
    &&& if set_nonempty(env.disabled_tools) {
        after.agnes.disabled_tools.deep_view() == dedup(
            before.agnes.disabled_tools.deep_view() + comma_list(value_of(env.disabled_tools)),
        )
    } else {
        after.agnes.disabled_tools == before.agnes.disabled_tools
    }
    &&& after.server.name == before.server.name
    &&& after.agnes.request_timeout_secs == before.agnes.request_timeout_secs
}

/// The trimmed, non-empty pieces of a comma-separated list.
pub fn parse_comma_list(s: &str) -> (r: Vec<String>)
    ensures
        r.deep_view() == comma_list(s@),
{
    let parts = split_on(s, ',');
    let mut out: Vec<String> = Vec::new();
    let mut i: usize = 0;
    while i < parts.len()
        invariant
            0 <= i <= parts@.len(),
            parts.deep_view() == split(s@, ','),
            out.deep_view() == nonempty_only(trim_each(parts.deep_view().take(i as int))),
        decreases parts@.len() - i,
    {
        let t = trim_str(parts[i].as_str());
        let ghost prev = parts.deep_view().take(i as int);
        let ghost next = parts.deep_view().take(i + 1 as int);
        assert(trim_each(next).drop_last() =~= trim_each(prev));
        assert(trim_each(next).last() == t@);
        if !t.as_str().is_empty() {
            push_string(&mut out, t);
            assert(out.deep_view() =~= nonempty_only(trim_each(next)));
        }
        i = i + 1;
    }
    assert(parts.deep_view().take(parts@.len() as int) =~= parts.deep_view());
    out
}

/// The trimmed, non-empty entries of a list of names.
pub fn clean_names(v: &Vec<String>) -> (r: Vec<String>)
    ensures
        r.deep_view() == nonempty_only(trim_each(v.deep_view())),
{
    let mut out: Vec<String> = Vec::new();
    let mut i: usize = 0;
    while i < v.len()
        invariant
            0 <= i <= v@.len(),
            out.deep_view() == nonempty_only(trim_each(v.deep_view().take(i as int))),
        decreases v@.len() - i,
    {
        let t = trim_str(v[i].as_str());
        let ghost prev = v.deep_view().take(i as int);
        let ghost next = v.deep_view().take(i + 1 as int);
        assert(trim_each(next).drop_last() =~= trim_each(prev));
        assert(trim_each(next).last() == t@);
        if !t.as_str().is_empty() {
            push_string(&mut out, t);
            assert(out.deep_view() =~= nonempty_only(trim_each(next)));
        }
        i = i + 1;
    }
    assert(v.deep_view().take(v@.len() as int) =~= v.deep_view());
    out
}

/// A list of names with more names merged in: the list, then the new
/// names, each name kept at its first occurrence only.
pub fn merge_names(list: &Vec<String>, more: &Vec<String>) -> (r: Vec<String>)
    ensures
        r.deep_view() == dedup(list.deep_view() + more.deep_view()),
{
    let mut out: Vec<String> = Vec::new();
    let mut i: usize = 0;
    while i < list.len()
        invariant
            0 <= i <= list@.len(),
            out.deep_view() == dedup(list.deep_view().take(i as int)),
        decreases list@.len() - i,
    {
        let ghost prev = list.deep_view().take(i as int);
        let ghost next = list.deep_view().take(i + 1 as int);
        assert(next.drop_last() =~= prev);
        assert(next.last() == list@[i as int]@);
        if !contains_string(&out, list[i].as_str()) {
            push_string(&mut out, owned(list[i].as_str()));
        }
        i = i + 1;
    }
    assert(list.deep_view().take(list@.len() as int) =~= list.deep_view());
    let ghost base = list.deep_view();
    let mut j: usize = 0;
    while j < more.len()
        invariant
            0 <= j <= more@.len(),
            base == list.deep_view(),
            out.deep_view() == dedup(base + more.deep_view().take(j as int)),
        decreases more@.len() - j,
    {
        let ghost prev = base + more.deep_view().take(j as int);
        let ghost next = base + more.deep_view().take(j + 1 as int);
        assert(next.drop_last() =~= prev);
        assert(next.last() == more@[j as int]@);
        if !contains_string(&out, more[j].as_str()) {
            push_string(&mut out, owned(more[j].as_str()));
        }
        j = j + 1;
    }
    assert(more.deep_view().take(more@.len() as int) =~= more.deep_view());
    out
}

/// Whether an optional variable is set to a non-empty value.
fn nonempty_var(v: &Option<String>) -> (r: bool)
    ensures
        r == set_nonempty(*v),
{
    match v {
        Some(s) => !s.as_str().is_empty(),
        None => false,
    }
}

/// Overrides a string field with a variable that is set and non-empty.
fn override_string(field: &mut String, v: &Option<String>)
    ensures
        string_overridden(*old(field), *final(field), *v),
{
    if let Some(s) = v {
        if !s.as_str().is_empty() {
            *field = owned(s.as_str());
        }
    }
}

/// Overrides a `u64` field with a variable whose trimmed value parses.
fn override_u64(field: &mut u64, v: &Option<String>)
    ensures
        number_overridden(*old(field) as nat, *final(field) as nat, *v, u64::MAX as nat),
{
    if let Some(p) = v {
        let t = trim_str(p.as_str());
        if let Some(n) = parse_unsigned_str(t.as_str(), u64::MAX) {
            *field = n;
        }
    }
}

/// Overrides a `u16` field with a variable whose trimmed value parses.
fn override_u16(field: &mut u16, v: &Option<String>)
    ensures
        number_overridden(*old(field) as nat, *final(field) as nat, *v, 65535),
{
    if let Some(p) = v {
        let t = trim_str(p.as_str());
        if let Some(n) = parse_unsigned_str(t.as_str(), 65535) {
            *field = n as u16;
        }
    }
}

impl AppConfig {
    /// Apply environment-variable overrides in place.
    ///
    /// Recognized variables:
    /// - `AGNES_API_KEYS`               → merged into `agnes.api_keys` (comma-separated; deduped)
    /// - `AGNES_API_KEY` / `AGNES_TOKEN` → `agnes.api_key`
    /// - `AGNES_BASE_URL`               → `agnes.base_url` (trailing `/` removed)
    /// - `AGNES_MCP_HOST`               → `server.host`
    /// - `AGNES_MCP_PORT`               → `server.port`
    /// - `AGNES_MCP_TRANSPORT`          → `server.transport_mode`
    /// - `AGNES_KEY_COOLDOWN_SECS`      → `agnes.key_cooldown_secs`
    /// - `AGNES_KEY_RATE_LIMIT_COOLDOWN_SECS` → `agnes.key_rate_limit_cooldown_secs`
    /// - `AGNES_MCP_LOG_LEVEL`          → `logging.level`
    /// - `AGNES_MODEL_TEXT`             → `agnes.model_text`
    /// - `AGNES_MODEL_IMAGE`            → `agnes.model_image`
    /// - `AGNES_MODEL_VIDEO`            → `agnes.model_video`
    /// - `AGNES_DISABLED_TOOLS`         → merged into `agnes.disabled_tools` (comma-separated; deduped)
    ///
    /// Empty values are ignored, as are numbers that do not parse.
    pub fn apply_env(&mut self, env: &EnvVars)
        ensures
            env_applied(*old(self), *final(self), *env),
    {
        if nonempty_var(&env.api_keys) {
            let v = env.api_keys.as_ref().unwrap();
            let more = parse_comma_list(v.as_str());
            let merged = match &self.agnes.api_keys {
                Some(list) => merge_names(list, &more),
                None => {
                    let none: Vec<String> = Vec::new();
                    assert(none.deep_view() =~= Seq::<Seq<char>>::empty());
                    merge_names(&none, &more)
                },
            };
            self.agnes.api_keys = Some(merged);
        }
        let key_var = if env.api_key.is_some() {
            &env.api_key
        } else {
            &env.token
        };
        if nonempty_var(key_var) {
            let v = key_var.as_ref().unwrap();
            self.agnes.api_key = Some(owned(v.as_str()));
        }
        if nonempty_var(&env.base_url) {
            let v = env.base_url.as_ref().unwrap();
            self.agnes.base_url = trim_trailing_char(v.as_str(), '/');
        }
        override_string(&mut self.server.host, &env.host);
        override_u16(&mut self.server.port, &env.port);
        override_string(&mut self.server.transport_mode, &env.transport);
        override_u64(&mut self.agnes.key_cooldown_secs, &env.key_cooldown_secs);
        override_u64(
            &mut self.agnes.key_rate_limit_cooldown_secs,
            &env.key_rate_limit_cooldown_secs,
        );
        override_string(&mut self.logging.level, &env.log_level);
        override_string(&mut self.agnes.model_text, &env.model_text);
        override_string(&mut self.agnes.model_image, &env.model_image);
        override_string(&mut self.agnes.model_video, &env.model_video);
        if nonempty_var(&env.disabled_tools) {
            let v = env.disabled_tools.as_ref().unwrap();
            let more = parse_comma_list(v.as_str());
            self.agnes.disabled_tools = merge_names(&self.agnes.disabled_tools, &more);
        }
    }
}

// ---------------------------------------------------------------------------
// Laws of the key pool
// ---------------------------------------------------------------------------

/// Position of the first occurrence of `x` in `s` (meaningful when
/// `s.contains(x)`).
pub open spec fn first_pos(s: Seq<Seq<char>>, x: Seq<char>) -> int
    decreases s.len(),
{
    if s.len() == 0 {
        0
    } else if s.drop_last().contains(x) {
        first_pos(s.drop_last(), x)
    } else {
        s.len() - 1
    }
}

proof fn lemma_first_pos(s: Seq<Seq<char>>, x: Seq<char>)
    requires
        s.contains(x),
    ensures
        0 <= first_pos(s, x) < s.len(),
        s[first_pos(s, x)] == x,
        forall|k: int| 0 <= k < first_pos(s, x) ==> s[k] != x,
    decreases s.len(),
{
    let p = s.drop_last();
    if p.contains(x) {
        lemma_first_pos(p, x);
        assert forall|k: int| 0 <= k < first_pos(s, x) implies s[k] != x by {
            assert(p[k] == s[k]);
        }
    } else {
        assert forall|k: int| 0 <= k < s.len() - 1 implies s[k] != x by {
            assert(p[k] == s[k]);
        }
        let k = choose|k: int| 0 <= k < s.len() && s[k] == x;
        if k < s.len() - 1 {
            assert(p[k] == x);
        }
    }
}

pub proof fn lemma_dedup(s: Seq<Seq<char>>)
    ensures
        dedup(s).no_duplicates(),
        forall|x: Seq<char>| dedup(s).contains(x) <==> s.contains(x),
        forall|i: int, j: int|
            0 <= i < j < dedup(s).len() ==> first_pos(s, #[trigger] dedup(s)[i]) < first_pos(
                s,
                #[trigger] dedup(s)[j],
            ),
        forall|i: int| 0 <= i < dedup(s).len() ==> s.contains(#[trigger] dedup(s)[i]),
    decreases s.len(),
{
    if s.len() > 0 {
        let p = s.drop_last();
        let d = dedup(p);
        lemma_dedup(p);
        assert forall|x: Seq<char>| s.contains(x) <==> (p.contains(x) || x == s.last()) by {
            if s.contains(x) {
                let k = choose|k: int| 0 <= k < s.len() && s[k] == x;
                if k < s.len() - 1 {
                    assert(p[k] == x);
                }
            }
            if p.contains(x) {
                let k = choose|k: int| 0 <= k < p.len() && p[k] == x;
                assert(s[k] == x);
            }
            if x == s.last() {
                assert(s[s.len() - 1] == x);
            }
        }
        assert forall|x: Seq<char>| p.contains(x) implies first_pos(s, x) == first_pos(p, x) by {}
        if !d.contains(s.last()) {
            let e = d.push(s.last());
            assert forall|i: int| 0 <= i < e.len() implies s.contains(#[trigger] e[i]) by {
                if i < d.len() {
                    assert(e[i] == d[i]);
                }
            }
            assert forall|x: Seq<char>| e.contains(x) <==> s.contains(x) by {
                if e.contains(x) {
                    let k = choose|k: int| 0 <= k < e.len() && e[k] == x;
                    if k < d.len() {
                        assert(d[k] == x);
                    }
                }
                if d.contains(x) {
                    let k = choose|k: int| 0 <= k < d.len() && d[k] == x;
                    assert(e[k] == x);
                }
                if x == s.last() {
                    assert(e[e.len() - 1] == x);
                }
            }
            assert(e.no_duplicates()) by {
                assert forall|i: int, j: int| 0 <= i < e.len() && 0 <= j < e.len() && i != j implies e[i]
                    != e[j] by {
                    if i < d.len() && j < d.len() {
                        assert(e[i] == d[i] && e[j] == d[j]);
                    } else if i < d.len() {
                        assert(e[i] == d[i]);
                        assert(d.contains(d[i]));
                    } else if j < d.len() {
                        assert(e[j] == d[j]);
                        assert(d.contains(d[j]));
                    }
                }
            }
            assert(!p.contains(s.last()));
            assert(first_pos(s, s.last()) == s.len() - 1);
            assert forall|i: int, j: int| 0 <= i < j < e.len() implies first_pos(
                s,
                #[trigger] e[i],
            ) < first_pos(s, #[trigger] e[j]) by {
                assert(e[i] == d[i]);
                assert(p.contains(d[i]));
                lemma_first_pos(p, d[i]);
                if j < d.len() {
                    assert(e[j] == d[j]);
                    assert(p.contains(d[j]));
                }
            }
        } else {
            assert forall|i: int, j: int| 0 <= i < j < d.len() implies first_pos(
                s,
                #[trigger] d[i],
            ) < first_pos(s, #[trigger] d[j]) by {
                assert(p.contains(d[i]));
                assert(p.contains(d[j]));
            }
        }
    }
}

pub proof fn lemma_nonempty_only(s: Seq<Seq<char>>)
    ensures
        forall|x: Seq<char>| nonempty_only(s).contains(x) <==> (s.contains(x) && x.len() > 0),
        forall|i: int| 0 <= i < nonempty_only(s).len() ==> s.contains(#[trigger] nonempty_only(s)[i]),
    decreases s.len(),
{
    if s.len() > 0 {
        let p = s.drop_last();
        lemma_nonempty_only(p);
        let r = nonempty_only(p);
        assert forall|x: Seq<char>| s.contains(x) <==> (p.contains(x) || x == s.last()) by {
            if s.contains(x) {
                let k = choose|k: int| 0 <= k < s.len() && s[k] == x;
                if k < s.len() - 1 {
                    assert(p[k] == x);
                }
            }
            if p.contains(x) {
                let k = choose|k: int| 0 <= k < p.len() && p[k] == x;
                assert(s[k] == x);
            }
            if x == s.last() {
                assert(s[s.len() - 1] == x);
            }
        }
        if s.last().len() > 0 {
            let e = r.push(s.last());
            assert forall|x: Seq<char>| e.contains(x) <==> r.contains(x) || x == s.last() by {
                if e.contains(x) {
                    let k = choose|k: int| 0 <= k < e.len() && e[k] == x;
                    if k < r.len() {
                        assert(r[k] == x);
                    }
                }
                if r.contains(x) {
                    let k = choose|k: int| 0 <= k < r.len() && r[k] == x;
                    assert(e[k] == x);
                }
                if x == s.last() {
                    assert(e[e.len() - 1] == x);
                }
            }
            assert forall|i: int| 0 <= i < e.len() implies s.contains(#[trigger] e[i]) by {
                if i < r.len() {
                    assert(e[i] == r[i]);
                }
            }
        }
    }
}

/// The API key pool holds no duplicates, no empty or untrimmed entry, and
/// exactly the trimmed non-empty entries of both sources; each key keeps the
/// place of its first occurrence ("first occurrence wins").
pub proof fn lemma_key_pool_laws(cfg: AgnesConfig)
    ensures
        cfg.key_pool().no_duplicates(),
        forall|k: Seq<char>|
            #![trigger cfg.key_pool().contains(k)]
            cfg.key_pool().contains(k) <==> (k.len() > 0 && trim_each(
                cfg.api_key_list() + cfg.api_key_pieces(),
            ).contains(k)),
        forall|i: int|
            0 <= i < cfg.key_pool().len() ==> (#[trigger] cfg.key_pool()[i]).len() > 0 && trim(
                cfg.key_pool()[i],
            ) == cfg.key_pool()[i],
        forall|i: int, j: int|
            0 <= i < j < cfg.key_pool().len() ==> first_pos(
                trim_each(cfg.api_key_list() + cfg.api_key_pieces()),
                #[trigger] cfg.key_pool()[i],
            ) < first_pos(
                trim_each(cfg.api_key_list() + cfg.api_key_pieces()),
                #[trigger] cfg.key_pool()[j],
            ),
{
    let raw = cfg.api_key_list() + cfg.api_key_pieces();
    let t = trim_each(raw);
    let n = nonempty_only(t);
    lemma_nonempty_only(t);
    lemma_dedup(n);
    assert forall|i: int| 0 <= i < cfg.key_pool().len() implies (#[trigger] cfg.key_pool()[
        i
    ]).len() > 0 && trim(cfg.key_pool()[i]) == cfg.key_pool()[i] by {
        let k = cfg.key_pool()[i];
        assert(n.contains(k));
        assert(t.contains(k));
        let m = choose|m: int| 0 <= m < t.len() && t[m] == k;
        lemma_trim_idempotent(raw[m]);
    }
    lemma_first_pos_filtered(t);
    assert forall|i: int, j: int| 0 <= i < j < cfg.key_pool().len() implies first_pos(
        t,
        #[trigger] cfg.key_pool()[i],
    ) < first_pos(t, #[trigger] cfg.key_pool()[j]) by {
        let a = cfg.key_pool()[i];
        let b = cfg.key_pool()[j];
        assert(n.contains(a));
        assert(n.contains(b));
        assert(first_pos(n, a) < first_pos(n, b));
    }
}

/// For non-empty entries, first positions in the filtered list keep the
/// order of first positions in the unfiltered one.
proof fn lemma_first_pos_filtered(t: Seq<Seq<char>>)
    ensures
        forall|a: Seq<char>, b: Seq<char>|
            nonempty_only(t).contains(a) && nonempty_only(t).contains(b) && first_pos(
                nonempty_only(t),
                a,
            ) < first_pos(nonempty_only(t), b) ==> #[trigger] first_pos(t, a) < #[trigger] first_pos(
                t,
                b,
            ),
    decreases t.len(),
{
    if t.len() > 0 {
        let p = t.drop_last();
        lemma_first_pos_filtered(p);
        lemma_nonempty_only(p);
        lemma_nonempty_only(t);
        let np = nonempty_only(p);
        let nt = nonempty_only(t);
        assert forall|a: Seq<char>, b: Seq<char>|
            nt.contains(a) && nt.contains(b) && first_pos(nt, a) < first_pos(nt, b) implies #[trigger] first_pos(
            t,
            a,
        ) < #[trigger] first_pos(t, b) by {
            assert(t.contains(a) && t.contains(b));
            if t.last().len() > 0 {
                assert(nt.drop_last() =~= np);
            } else {
                assert(nt == np);
            }
            if np.contains(a) && np.contains(b) {
                assert(p.contains(a) && p.contains(b));
                lemma_first_pos(p, a);
                lemma_first_pos(p, b);
            } else if np.contains(a) {
                assert(p.contains(a));
                lemma_first_pos(p, a);
                if p.contains(b) {
                    assert(np.contains(b));
                }
            } else {
                if np.contains(b) {
                    lemma_first_pos(np, b);
                    assert(first_pos(nt, b) == first_pos(np, b));
                }
                lemma_first_pos(nt, a);
                lemma_first_pos(nt, b);
                if !np.contains(b) {
                    assert(first_pos(nt, a) == nt.len() - 1);
                    assert(first_pos(nt, b) == nt.len() - 1);
                }
            }
        }
    }
}

} // verus!
