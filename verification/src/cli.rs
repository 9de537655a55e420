//! The command line: the arguments of the `serve`, `health` and `config`
//! commands, and how they shape the configuration.

use vstd::prelude::*;

use crate::config::{
    clean_names, dedup, env_applied, merge_names, nonempty_only, set_nonempty, trim_each, value_of,
    AppConfig, EnvVars,
};
use crate::error::Result;
use crate::text::{concat, concat3, owned, trim_trailing, trim_trailing_char};

verus! {

/// The parsed command line: the command to run.
#[derive(Debug, Clone)]
pub struct Cli {
    pub command: Commands,
}

/// Available CLI commands.
#[derive(Debug, Clone)]
pub enum Commands {
    /// Start the MCP server.
    Serve(ServeArgs),
    /// Check the health of the Agnes API.
    Health(HealthArgs),
    /// Generate an example configuration file.
    Config(ConfigArgs),
}

/// Arguments shared by `serve` and `health`.
#[derive(Debug, Clone)]
pub struct ServeArgs {
    /// Path to the TOML configuration file.
    pub config: String,
    /// Agnes API base URL.
    pub base_url: Option<String>,
    /// Agnes API keys (repeatable); merged into the key list.
    pub api_key: Vec<String>,
    /// Transport mode: stdio, http, sse, hybrid.
    pub mode: Option<String>,
    /// Listen host (http/sse/hybrid).
    pub host: Option<String>,
    /// Listen port (http/sse/hybrid).
    pub port: Option<u16>,
    /// Agnes chat/text model identifier.
    pub model_text: Option<String>,
    /// Agnes image generation model identifier.
    pub model_image: Option<String>,
    /// Agnes video generation model identifier.
    pub model_video: Option<String>,
    /// Tools to disable (repeatable); merged into the configured list.
    pub disable_tool: Vec<String>,
}

/// Arguments for the `health` command.
#[derive(Debug, Clone)]
pub struct HealthArgs {
    pub serve: ServeArgs,
    /// Verbose output.
    pub verbose: bool,
}

/// Arguments for the `config` command.
#[derive(Debug, Clone)]
pub struct ConfigArgs {
    /// Output file path.
    pub output: String,
    /// Overwrite an existing file.
    pub force: bool,
}

/// A string field after an override by an argument that applies when given.
pub open spec fn arg_overridden(before: String, after: String, a: Option<String>) -> bool {
    match a {
        Some(v) => after@ == v@,
        None => after == before,
    }
}

/// `after` is `before` with the command-line arguments `args` applied: the
/// base URL without trailing `/`, the mode, host, port and models, and the
/// API keys and disabled tools merged into their lists (trimmed, blanks
/// dropped, deduped); nothing else changes.
pub open spec fn cli_applied(before: AppConfig, after: AppConfig, args: ServeArgs) -> bool {
    &&& match args.base_url {
        Some(b) => after.agnes.base_url@ == trim_trailing(b@, '/'),
        None => after.agnes.base_url == before.agnes.base_url,
    }
    &&& after.agnes.api_key == before.agnes.api_key
    &&& if nonempty_only(trim_each(args.api_key.deep_view())).len() == 0 {
        after.agnes.api_keys == before.agnes.api_keys
    } else {
        after.agnes.api_keys matches Some(l) && l.deep_view() == dedup(
            before.agnes.api_key_list() + nonempty_only(trim_each(args.api_key.deep_view())),
        )
    }
    &&& arg_overridden(before.server.transport_mode, after.server.transport_mode, args.mode)
    &&& arg_overridden(before.server.host, after.server.host, args.host)
    &&& after.server.port == match args.port {
        Some(p) => p,
        None => before.server.port,
    }
    &&& arg_overridden(before.agnes.model_text, after.agnes.model_text, args.model_text)
    &&& arg_overridden(before.agnes.model_image, after.agnes.model_image, args.model_image)
    &&& arg_overridden(before.agnes.model_video, after.agnes.model_video, args.model_video)
    &&& after.agnes.request_timeout_secs == before.agnes.request_timeout_secs
    &&& after.agnes.key_cooldown_secs == before.agnes.key_cooldown_secs
    &&& after.agnes.key_rate_limit_cooldown_secs == before.agnes.key_rate_limit_cooldown_secs
    &&& if nonempty_only(trim_each(args.disable_tool.deep_view())).len() == 0 {
        after.agnes.disabled_tools == before.agnes.disabled_tools
    } else {
        after.agnes.disabled_tools.deep_view() == dedup(
            before.agnes.disabled_tools.deep_view() + nonempty_only(
                trim_each(args.disable_tool.deep_view()),
            ),
        )
    }
    &&& after.server.name == before.server.name
    &&& after.logging == before.logging
}

fn override_arg(field: &mut String, a: &Option<String>)
    ensures
        arg_overridden(*old(field), *final(field), *a),
{
    match a {
        Some(v) => {
            *field = owned(v.as_str());
        },
        None => {},
    }
}

/// Apply CLI argument overrides onto the loaded configuration.
pub fn apply_cli_overrides(config: &mut AppConfig, args: &ServeArgs)
    ensures
        cli_applied(*old(config), *final(config), *args),
{
    match &args.base_url {
        Some(b) => {
            config.agnes.base_url = trim_trailing_char(b.as_str(), '/');
        },
        None => {},
    }
    let keys = clean_names(&args.api_key);
    if keys.len() > 0 {
        let merged = match &config.agnes.api_keys {
            Some(list) => merge_names(list, &keys),
            None => {
                let none: Vec<String> = Vec::new();
                assert(none.deep_view() =~= Seq::<Seq<char>>::empty());
                merge_names(&none, &keys)
            },
        };
        config.agnes.api_keys = Some(merged);
    }
    override_arg(&mut config.server.transport_mode, &args.mode);
    override_arg(&mut config.server.host, &args.host);
    match args.port {
        Some(p) => {
            config.server.port = p;
        },
        None => {},
    }
    override_arg(&mut config.agnes.model_text, &args.model_text);
    override_arg(&mut config.agnes.model_image, &args.model_image);
    override_arg(&mut config.agnes.model_video, &args.model_video);
    let more = clean_names(&args.disable_tool);
    if more.len() > 0 {
        config.agnes.disabled_tools = merge_names(&config.agnes.disabled_tools, &more);
    }
}

/// `last` is the configuration built from the file's configuration
/// (`from_file`, the defaults when there is no file), through `mid`, by
/// applying the environment `env` and then the arguments `args`.
pub open spec fn loaded_from(
    from_file: Option<AppConfig>,
    env: EnvVars,
    args: ServeArgs,
    base: AppConfig,
    mid: AppConfig,
    last: AppConfig,
) -> bool {
    &&& match from_file {
        Some(c) => base == c,
        None => base.is_default(),
    }
    &&& env_applied(base, mid, env)
    &&& cli_applied(mid, last, args)
}

/// The outcome of validating the loaded configuration `last`.
pub open spec fn validated(r: Result<AppConfig>, last: AppConfig) -> bool {
    &&& (r is Ok <==> last.is_valid())
    &&& (r matches Ok(c) ==> c == last)
    &&& (r matches Err(e) ==> (if last.agnes.key_pool().len() == 0 {
        e.is_config_with(crate::config::MISSING_KEY_MESSAGE@)
    } else {
        e.is_config_with(crate::config::BAD_BASE_URL_PREFIX@ + last.agnes.base_url@)
    }))
}

/// Load configuration: the file's configuration (`from_file`, `None` when
/// there is no file, in which case the defaults are used), then the
/// environment `env`, then the command-line `args`; the result is
/// validated.
pub fn load_config(from_file: Option<AppConfig>, env: &EnvVars, args: &ServeArgs) -> (r: Result<
    AppConfig,
>)
    ensures
        exists|base: AppConfig, mid: AppConfig, last: AppConfig|
            #[trigger] loaded_from(from_file, *env, *args, base, mid, last) && validated(r, last),
{
    let ghost ff = from_file;
    let mut config = match from_file {
        Some(c) => c,
        None => AppConfig::default(),
    };
    let ghost base = config;
    config.apply_env(env);
    let ghost mid = config;
    apply_cli_overrides(&mut config, args);
    let ghost last = config;
    assert(loaded_from(ff, *env, *args, base, mid, last));
    let r = match config.validate() {
        Ok(()) => Ok(config),
        Err(e) => Err(e),
    };
    assert(validated(r, last));
    r
}

/// The message of the error when the `config` command would overwrite a file.
pub open spec fn exists_message(output: Seq<char>) -> Seq<char> {
    "file '"@ + output + "' already exists; use --force to overwrite"@
}

/// Whether the `config` command may write to `args.output`, which exists
/// or not (`present`): only a missing file, or with `--force`.
pub fn config_command_check(args: &ConfigArgs, present: bool) -> (r: core::result::Result<(), String>)
    ensures
        r is Ok <==> (!present || args.force),
        r matches Err(m) ==> m@ == exists_message(args.output@),
{
    if present && !args.force {
        return Err(concat3("file '", args.output.as_str(), "' already exists; use --force to overwrite"));
    }
    Ok(())
}

/// The message of a written example configuration.
pub fn config_written_message(output: &str) -> (r: String)
    ensures
        r@ == "example configuration written to "@ + output@,
{
    concat("example configuration written to ", output)
}

/// Configuration precedence: a command-line argument beats the
/// environment, which beats the file (or the defaults). Shown for the
/// transport mode, the host and the chat model; an empty environment value
/// does not count as set.
pub proof fn law_config_precedence(
    from_file: Option<AppConfig>,
    env: EnvVars,
    args: ServeArgs,
    base: AppConfig,
    mid: AppConfig,
    last: AppConfig,
)
    requires
        loaded_from(from_file, env, args, base, mid, last),
    ensures
        last.server.transport_mode@ == match args.mode {
            Some(m) => m@,
            None => if set_nonempty(env.transport) {
                value_of(env.transport)
            } else {
                base.server.transport_mode@
            },
        },
        last.server.host@ == match args.host {
            Some(h) => h@,
            None => if set_nonempty(env.host) {
                value_of(env.host)
            } else {
                base.server.host@
            },
        },
        last.agnes.model_text@ == match args.model_text {
            Some(m) => m@,
            None => if set_nonempty(env.model_text) {
                value_of(env.model_text)
            } else {
                base.agnes.model_text@
            },
        },
{
}

} // verus!
