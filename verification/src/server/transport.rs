//! Transport modes (stdio, HTTP, SSE, hybrid) and the configuration of the
//! Hyper-based transports.

use vstd::prelude::*;

use crate::text::{concat, lower, owned, push_decimal, push_str, str_eq, to_lower};

verus! {

/// Hyper server protocol configuration.
#[derive(Debug, Clone)]
pub struct HyperServerConfig {
    protocol_name: String,
    sse_support: bool,
}

impl HyperServerConfig {
    /// The protocol display name.
    pub closed spec fn name(&self) -> Seq<char> {
        self.protocol_name@
    }

    /// Whether SSE is served.
    pub closed spec fn serves_sse(&self) -> bool {
        self.sse_support
    }

    /// HTTP (Streamable HTTP) configuration.
    pub fn http() -> (r: Self)
        ensures
            r.name() == "HTTP"@,
            !r.serves_sse(),
    {
        HyperServerConfig { protocol_name: owned("HTTP"), sse_support: false }
    }

    /// SSE (Server-Sent Events) configuration.
    pub fn sse() -> (r: Self)
        ensures
            r.name() == "SSE"@,
            r.serves_sse(),
    {
        HyperServerConfig { protocol_name: owned("SSE"), sse_support: true }
    }

    /// Hybrid (HTTP + SSE) configuration.
    pub fn hybrid() -> (r: Self)
        ensures
            r.name() == "Hybrid"@,
            r.serves_sse(),
    {
        HyperServerConfig { protocol_name: owned("Hybrid"), sse_support: true }
    }

    /// Protocol display name.
    pub fn protocol_name(&self) -> (r: &str)
        ensures
            r@ == self.name(),
    {
        self.protocol_name.as_str()
    }

    /// Whether SSE is supported.
    pub fn sse_support(&self) -> (r: bool)
        ensures
            r == self.serves_sse(),
    {
        self.sse_support
    }

    /// The log line of a started server on `host:port`; servers that add SSE
    /// to another protocol say so.
    pub fn started_message(&self, host: &str, port: u16) -> (r: String)
        ensures
            r@ == "Agnes MCP "@ + self.name() + " server started on "@ + host@ + ":"@
                + crate::text::decimal(port as nat) + if self.serves_sse() && self.name() != "SSE"@ {
                " (HTTP + SSE)"@
            } else {
                Seq::<char>::empty()
            },
    {
        let mut out = owned("Agnes MCP ");
        push_str(&mut out, self.protocol_name.as_str());
        push_str(&mut out, " server started on ");
        push_str(&mut out, host);
        push_str(&mut out, ":");
        push_decimal(&mut out, port as u64);
        if self.sse_support && !str_eq(self.protocol_name.as_str(), "SSE") {
            push_str(&mut out, " (HTTP + SSE)");
        }
        out
    }
}

/// Transport mode.
#[derive(Debug, Clone, Copy, PartialEq, Eq, Structural)]
pub enum TransportMode {
    /// Standard input/output.
    Stdio,
    /// Streamable HTTP.
    Http,
    /// Server-Sent Events.
    Sse,
    /// HTTP + SSE.
    Hybrid,
}

/// The mode a name denotes, compared ASCII case-insensitively.
pub open spec fn mode_named(s: Seq<char>) -> Option<TransportMode> {
    let l = lower(s);
    if l == "stdio"@ {
        Some(TransportMode::Stdio)
    } else if l == "http"@ {
        Some(TransportMode::Http)
    } else if l == "sse"@ {
        Some(TransportMode::Sse)
    } else if l == "hybrid"@ {
        Some(TransportMode::Hybrid)
    } else {
        None
    }
}

/// The name of a mode.
pub open spec fn mode_name(m: TransportMode) -> Seq<char> {
    match m {
        TransportMode::Stdio => "stdio"@,
        TransportMode::Http => "http"@,
        TransportMode::Sse => "sse"@,
        TransportMode::Hybrid => "hybrid"@,
    }
}

impl TransportMode {
    /// Read a transport mode name (case-insensitive).
    pub fn parse(s: &str) -> (r: core::result::Result<TransportMode, String>)
        ensures
            match mode_named(s@) {
                Some(m) => r == Ok::<TransportMode, String>(m),
                None => r matches Err(e) && e@ == "unknown transport mode: "@ + s@,
            },
    {
        let l = to_lower(s);
        let l = l.as_str();
        if str_eq(l, "stdio") {
            Ok(TransportMode::Stdio)
        } else if str_eq(l, "http") {
            Ok(TransportMode::Http)
        } else if str_eq(l, "sse") {
            Ok(TransportMode::Sse)
        } else if str_eq(l, "hybrid") {
            Ok(TransportMode::Hybrid)
        } else {
            Err(concat("unknown transport mode: ", s))
        }
    }

    /// The name of this mode (what it displays as).
    pub fn as_str(&self) -> (r: &'static str)
        ensures
            r@ == mode_name(*self),
    {
        match self {
            TransportMode::Stdio => "stdio",
            TransportMode::Http => "http",
            TransportMode::Sse => "sse",
            TransportMode::Hybrid => "hybrid",
        }
    }

    /// Convert to a [`HyperServerConfig`], or `None` for stdio.
    pub fn to_hyper_config(&self) -> (r: Option<HyperServerConfig>)
        ensures
            match *self {
                TransportMode::Stdio => r is None,
                TransportMode::Http => r matches Some(c) && c.name() == "HTTP"@ && !c.serves_sse(),
                TransportMode::Sse => r matches Some(c) && c.name() == "SSE"@ && c.serves_sse(),
                TransportMode::Hybrid => r matches Some(c) && c.name() == "Hybrid"@ && c.serves_sse(),
            },
    {
        match self {
            TransportMode::Stdio => None,
            TransportMode::Http => Some(HyperServerConfig::http()),
            TransportMode::Sse => Some(HyperServerConfig::sse()),
            TransportMode::Hybrid => Some(HyperServerConfig::hybrid()),
        }
    }
}

impl core::str::FromStr for TransportMode {
    type Err = String;

    fn from_str(s: &str) -> (r: core::result::Result<Self, Self::Err>)
        ensures
            match mode_named(s@) {
                Some(m) => r == Ok::<TransportMode, String>(m),
                None => r matches Err(e) && e@ == "unknown transport mode: "@ + s@,
            },
    {
        TransportMode::parse(s)
    }
}

/// Every mode reads back from its name, and names are read
/// case-insensitively.
pub proof fn law_mode_name_round_trip(m: TransportMode, s: Seq<char>)
    ensures
        mode_named(mode_name(m)) == Some(m),
        mode_named(s) == mode_named(lower(s)),
{
    reveal_strlit("stdio");
    reveal_strlit("http");
    reveal_strlit("sse");
    reveal_strlit("hybrid");
    crate::text::lemma_lower_idempotent(s);
    let n = mode_name(m);
    assert(lower(n) =~= n);
}

} // verus!
