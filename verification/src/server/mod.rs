//! The Agnes MCP server: configuration, tool registry, and the choice of
//! transport.

pub mod transport;

use vstd::prelude::*;

use crate::config::AppConfig;
use crate::error::{Error, Result};
use crate::text::owned;
use crate::tools::agnes_client::AgnesClient;
use crate::tools::{create_default_registry, enabled_names, ToolRegistry};
use transport::{mode_named, HyperServerConfig, TransportMode};

verus! {

/// The Agnes MCP server.
pub struct AgnesServer {
    config: AppConfig,
    client: AgnesClient,
    tool_registry: ToolRegistry,
}

/// How the server serves: over stdio, or a Hyper-based transport.
pub enum ServePlan {
    Stdio,
    Hyper(HyperServerConfig),
}

impl AgnesServer {
    /// The configuration the server was made with.
    pub closed spec fn config_view(&self) -> AppConfig {
        self.config
    }

    /// The registered tool names.
    pub closed spec fn tool_names(&self) -> Seq<Seq<char>> {
        self.tool_registry.names()
    }

    /// The client the tools share.
    pub closed spec fn client_view(&self) -> AgnesClient {
        self.client
    }

    /// Create a new server from configuration: its client and tool
    /// registry. Fails when no API key is configured.
    pub fn new(config: AppConfig) -> (r: Result<Self>)
        ensures
            r is Ok <==> config.agnes.key_pool().len() > 0,
            r matches Ok(s) ==> s.config_view() == config && s.tool_names() == enabled_names(
                config.agnes.disabled_tools.deep_view(),
            ) && s.client_view().wf() && s.client_view().keys() == config.agnes.key_pool(),
            r matches Err(e) ==> e.is_config_with(crate::config::KEY_NOT_SET_MESSAGE@),
    {
        match create_default_registry(&config.agnes) {
            Ok((client, tool_registry)) => Ok(AgnesServer { config, client, tool_registry }),
            Err(e) => Err(e),
        }
    }

    /// Borrow the application configuration.
    pub fn config(&self) -> (r: &AppConfig)
        ensures
            *r == self.config_view(),
    {
        &self.config
    }

    /// Borrow the tool registry.
    pub fn tool_registry(&self) -> (r: &ToolRegistry)
        ensures
            r.names() == self.tool_names(),
    {
        &self.tool_registry
    }

    /// Borrow the shared client.
    pub fn client(&self) -> (r: &AgnesClient)
        ensures
            *r == self.client_view(),
    {
        &self.client
    }

    /// Take the shared client out, with the configuration and registry.
    pub fn into_parts(self) -> (r: (AppConfig, AgnesClient, ToolRegistry))
        ensures
            r.0 == self.config_view(),
            r.1 == self.client_view(),
            r.2.names() == self.tool_names(),
    {
        (self.config, self.client, self.tool_registry)
    }

    /// The metadata the server announces when a client initializes.
    pub fn server_info(&self) -> (r: ServerInfo)
        ensures
            is_server_info(r, self.config_view().server.name@),
    {
        server_details(self.config.server.name.as_str())
    }

    /// How the configured transport mode is served; an unknown mode is a
    /// configuration error.
    pub fn serve_plan(&self) -> (r: Result<ServePlan>)
        ensures
            is_plan_for(r, self.config_view().server.transport_mode@),
    {
        serve_plan(self.config.server.transport_mode.as_str())
    }
}

/// What the server announces of itself when a client initializes: its
/// name, version, title, description and usage instructions, and that it
/// serves tools.
#[derive(Debug, Clone)]
pub struct ServerInfo {
    pub name: String,
    pub version: String,
    pub title: String,
    pub description: String,
    pub instructions: String,
}

/// The server's title.
pub const SERVER_TITLE: &'static str = "Agnes AI MCP Server";

/// The server's description.
pub const SERVER_DESCRIPTION: &'static str =
    "MCP server for Agnes AI: image recognition, text-to-image, text-to-video, and more.";

/// How clients are told to use the server.
pub const SERVER_INSTRUCTIONS: &'static str =
    "Use this server to access Agnes AI free models: agnes_chat (text), agnes_image_recognition (vision), agnes_generate_image (text-to-image & image-to-image), agnes_generate_video (text-to-video & image-to-video & keyframes), agnes_video_status, agnes_enhance_prompt, and health_check.";

/// Whether `i` is what a server named `name` announces.
pub open spec fn is_server_info(i: ServerInfo, name: Seq<char>) -> bool {
    &&& i.name@ == name
    &&& i.version@ == crate::VERSION@
    &&& i.title@ == SERVER_TITLE@
    &&& i.description@ == SERVER_DESCRIPTION@
    &&& i.instructions@ == SERVER_INSTRUCTIONS@
}

/// What a server named `name` announces when a client initializes.
pub fn server_details(name: &str) -> (r: ServerInfo)
    ensures
        is_server_info(r, name@),
{
    ServerInfo {
        name: owned(name),
        version: owned(crate::VERSION),
        title: owned(SERVER_TITLE),
        description: owned(SERVER_DESCRIPTION),
        instructions: owned(SERVER_INSTRUCTIONS),
    }
}

/// Whether `r` is how a transport mode named `mode` is served.
pub open spec fn is_plan_for(r: Result<ServePlan>, mode: Seq<char>) -> bool {
    match mode_named(mode) {
        None => r matches Err(e) && e.is_config_with("unknown transport mode: "@ + mode),
        Some(TransportMode::Stdio) => r matches Ok(ServePlan::Stdio),
        Some(TransportMode::Http) => r matches Ok(ServePlan::Hyper(c)) && c.name() == "HTTP"@
            && !c.serves_sse(),
        Some(TransportMode::Sse) => r matches Ok(ServePlan::Hyper(c)) && c.name() == "SSE"@
            && c.serves_sse(),
        Some(TransportMode::Hybrid) => r matches Ok(ServePlan::Hyper(c)) && c.name() == "Hybrid"@
            && c.serves_sse(),
    }
}

/// How a transport mode is served: stdio, or a Hyper-based transport; an
/// unknown mode is a configuration error.
pub fn serve_plan(transport_mode: &str) -> (r: Result<ServePlan>)
    ensures
        is_plan_for(r, transport_mode@),
{
    let mode = match TransportMode::parse(transport_mode) {
        Ok(m) => m,
        Err(e) => return Err(Error::config(e)),
    };
    match mode.to_hyper_config() {
        None => Ok(ServePlan::Stdio),
        Some(c) => Ok(ServePlan::Hyper(c)),
    }
}

} // verus!
