//! Verified core of an MCP server for the Agnes AI models.

pub mod cli;
pub mod config;
pub mod error;
pub mod server;
pub mod json;
pub mod text;
pub mod tools;
pub mod utils;

pub use crate::config::AppConfig;
pub use crate::error::{Error, Result};

use vstd::prelude::*;

verus! {

/// Server name.
pub const NAME: &'static str = "agnes-mcp";

/// Server version.
pub const VERSION: &'static str = "0.1.0";

/// The `User-Agent` header sent to the Agnes API: `AgnesMCP/{VERSION}`.
pub fn user_agent() -> (r: String)
    ensures
        r@ == "AgnesMCP/"@ + VERSION@,
{
    text::concat("AgnesMCP/", VERSION)
}

/// Whether a log level name is known (ASCII case-insensitively).
pub open spec fn known_level(level: Seq<char>) -> bool {
    let l = text::lower(level);
    l == "trace"@ || l == "debug"@ || l == "info"@ || l == "warn"@ || l == "error"@
}

/// The filter a log level name sets: the name as given when known, else
/// `info`.
pub fn log_filter(level: &str) -> (r: String)
    ensures
        r@ == if known_level(level@) {
            level@
        } else {
            "info"@
        },
{
    let l = text::to_lower(level);
    let s = l.as_str();
    if text::str_eq(s, "trace") || text::str_eq(s, "debug") || text::str_eq(s, "info")
        || text::str_eq(s, "warn") || text::str_eq(s, "error") {
        text::owned(level)
    } else {
        text::owned("info")
    }
}

} // verus!
