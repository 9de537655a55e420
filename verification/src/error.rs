//! Error types of the Agnes MCP server.

use vstd::prelude::*;

use crate::text::{concat, decimal, owned, push_decimal, push_str};

verus! {

/// Errors returned by the Agnes MCP server.
#[derive(Debug, Clone)]
pub enum Error {
    /// Configuration error (missing/invalid value).
    Config(String),
    /// Agnes API returned an error response.
    Api(String),
    /// Agnes API returned a non-2xx response with a known HTTP status code.
    ///
    /// The retry layer inspects the status (429 rate limit, 401/403 auth
    /// failure) to apply per-key cooldowns.
    ApiStatus {
        /// HTTP status code returned by the API.
        status: u16,
        /// Human-readable error message extracted from the response body.
        message: String,
    },
    /// HTTP / network transport error talking to the Agnes API.
    Http(String),
    /// JSON serialization or deserialization error.
    Json(String),
    /// Initialization error (logging, global state, etc.).
    Initialization {
        /// Subsystem that failed to initialize.
        context: String,
        /// Human-readable failure detail.
        message: String,
    },
    /// An MCP SDK error wrapping the underlying SDK message.
    Mcp {
        /// Where the MCP error originated.
        context: String,
        /// The underlying SDK error message.
        message: String,
    },
    /// Any other failure, carried as its message.
    Other(String),
}

/// Result type alias used throughout the crate.
pub type Result<T> = core::result::Result<T, Error>;

impl Error {
    /// The text this error displays.
    pub open spec fn text(&self) -> Seq<char> {
        match self {
            Error::Config(m) => "configuration error: "@ + m@,
            Error::Api(m) => "agnes api error: "@ + m@,
            Error::ApiStatus { status, message } => "agnes api error (HTTP "@ + decimal(
                *status as nat,
            ) + "): "@ + message@,
            Error::Http(m) => "http error: "@ + m@,
            Error::Json(m) => "json error: "@ + m@,
            Error::Initialization { context, message } => "initialization error ("@ + context@
                + "): "@ + message@,
            Error::Mcp { context, message } => "mcp error ("@ + context@ + "): "@ + message@,
            Error::Other(m) => m@,
        }
    }

    /// Whether this is a configuration error with message `m`.
    pub open spec fn is_config_with(&self, m: Seq<char>) -> bool {
        self matches Error::Config(x) && x@ == m
    }

    /// Whether this is an API error with message `m`.
    pub open spec fn is_api_with(&self, m: Seq<char>) -> bool {
        self matches Error::Api(x) && x@ == m
    }

    /// Create a configuration error.
    pub fn config(msg: String) -> (r: Self)
        ensures
            r.is_config_with(msg@),
    {
        Error::Config(msg)
    }

    /// Create an Agnes API error.
    pub fn api(msg: String) -> (r: Self)
        ensures
            r.is_api_with(msg@),
    {
        Error::Api(msg)
    }

    /// Create an Agnes API error with a known HTTP status code.
    ///
    /// The status lets the multi-key retry layer decide whether to cool the
    /// offending key down (401/403/429) or fail fast (other 4xx).
    pub fn api_status(status: u16, msg: String) -> (r: Self)
        ensures
            r matches Error::ApiStatus { status: s, message: m } && s == status && m@ == msg@,
    {
        Error::ApiStatus { status, message: msg }
    }

    /// Create an HTTP/network error.
    pub fn http(msg: String) -> (r: Self)
        ensures
            r matches Error::Http(m) && m@ == msg@,
    {
        Error::Http(msg)
    }

    /// Create a JSON error.
    pub fn json(msg: String) -> (r: Self)
        ensures
            r matches Error::Json(m) && m@ == msg@,
    {
        Error::Json(msg)
    }

    /// Create an initialization error.
    pub fn initialization(context: String, message: String) -> (r: Self)
        ensures
            r matches Error::Initialization { context: c, message: m } && c@ == context@ && m@
                == message@,
    {
        Error::Initialization { context, message }
    }

    /// Create an MCP error.
    pub fn mcp(context: String, message: String) -> (r: Self)
        ensures
            r matches Error::Mcp { context: c, message: m } && c@ == context@ && m@ == message@,
    {
        Error::Mcp { context, message }
    }

    /// Wrap any other failure message.
    pub fn other(message: String) -> (r: Self)
        ensures
            r matches Error::Other(m) && m@ == message@,
    {
        Error::Other(message)
    }

    /// The HTTP status carried by this error, if any.
    pub fn status(&self) -> (r: Option<u16>)
        ensures
            r == (match self {
                Error::ApiStatus { status, .. } => Some(*status),
                _ => None,
            }),
    {
        match self {
            Error::ApiStatus { status, .. } => Some(*status),
            _ => None,
        }
    }

    /// The text this error displays (what `to_string` gives).
    pub fn message(&self) -> (r: String)
        ensures
            r@ == self.text(),
    {
        match self {
            Error::Config(m) => concat("configuration error: ", m.as_str()),
            Error::Api(m) => concat("agnes api error: ", m.as_str()),
            Error::ApiStatus { status, message } => {
                let mut out = owned("agnes api error (HTTP ");
                push_decimal(&mut out, *status as u64);
                push_str(&mut out, "): ");
                push_str(&mut out, message.as_str());
                out
            },
            Error::Http(m) => concat("http error: ", m.as_str()),
            Error::Json(m) => concat("json error: ", m.as_str()),
            Error::Initialization { context, message } => {
                let mut out = owned("initialization error (");
                push_str(&mut out, context.as_str());
                push_str(&mut out, "): ");
                push_str(&mut out, message.as_str());
                out
            },
            Error::Mcp { context, message } => {
                let mut out = owned("mcp error (");
                push_str(&mut out, context.as_str());
                push_str(&mut out, "): ");
                push_str(&mut out, message.as_str());
                out
            },
            Error::Other(m) => owned(m.as_str()),
        }
    }
}

} // verus!
