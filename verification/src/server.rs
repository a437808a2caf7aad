//! The server that answers the host's handshake.

use crate::client::CanvasClient;
use crate::config::{CanvasConfig, ConfigView};
use crate::error::{plain_error, CanvasError, ErrorKind};
use crate::text::join;
use crate::transport::{is_header_text, share};
use std::sync::Arc;
use vstd::prelude::*;
use vstd::string::*;

verus! {

/// What a server offers to its host.
#[derive(Debug, Clone, Copy, PartialEq, Eq, Structural)]
pub struct ServerCapabilities {
    /// Whether the server sends log messages to the host.
    pub logging: bool,
    /// Whether the server offers prompts.
    pub prompts: bool,
    /// Whether the server offers resources.
    pub resources: bool,
    /// Whether the server offers tools.
    pub tools: bool,
}

/// The name and version of an implementation of the protocol.
#[derive(Debug, Clone, PartialEq, Eq)]
pub struct Implementation {
    pub name: String,
    pub version: String,
}

/// What a server says of itself in the handshake.
#[derive(Debug, Clone, PartialEq, Eq)]
pub struct ServerInfo {
    /// The version of the protocol that the server speaks.
    pub protocol_version: String,
    /// What the server offers.
    pub capabilities: ServerCapabilities,
    /// The name and version of the server.
    pub server_info: Implementation,
    /// What a reader should know of the server.
    pub instructions: Option<String>,
}

/// What a `ServerInfo` holds.
pub struct ServerInfoView {
    pub protocol_version: Seq<char>,
    pub capabilities: ServerCapabilities,
    pub name: Seq<char>,
    pub version: Seq<char>,
    pub instructions: Option<Seq<char>>,
}

impl View for ServerInfo {
    type V = ServerInfoView;

    open spec fn view(&self) -> ServerInfoView {
        ServerInfoView {
            protocol_version: self.protocol_version@,
            capabilities: self.capabilities,
            name: self.server_info.name@,
            version: self.server_info.version@,
            instructions: match self.instructions {
                Some(text) => Some(text@),
                None => None,
            },
        }
    }
}

/// Canvas MCP Server
///
/// Answers the handshake of the Model Context Protocol for one
/// configuration, and holds the client for the Canvas API.
#[derive(Clone)]
pub struct CanvasServer {
    /// Canvas API HTTP client
    pub client: Arc<CanvasClient>,
    /// Server configuration
    pub config: Arc<CanvasConfig>,
}

/// The institution as the instructions name it.
pub open spec fn institution_label(institution_name: Option<Seq<char>>) -> Seq<char> {
    match institution_name {
        Some(name) => name,
        None => "Not specified"@,
    }
}

/// The instructions of a server for the given institution and base URL.
pub open spec fn instructions_text(institution_name: Option<Seq<char>>, api_url: Seq<char>) -> Seq<
    char,
> {
    "Canvas LMS MCP Server\nInstitution: "@ + institution_label(institution_name)
        + "\nAPI URL: "@ + api_url
        + "\n\nThis server provides tools for interacting with Canvas LMS.\nCore tools will be implemented in Phase 3."@
}

/// What a server with the given institution and base URL says of itself:
/// the protocol version, tools as its one capability, its name and
/// version, and the instructions.
pub open spec fn server_info_for(
    institution_name: Option<Seq<char>>,
    api_url: Seq<char>,
) -> ServerInfoView {
    ServerInfoView {
        protocol_version: "2024-11-05"@,
        capabilities: ServerCapabilities {
            logging: false,
            prompts: false,
            resources: false,
            tools: true,
        },
        name: "rust-canvas-mcp"@,
        version: "0.1.0"@,
        instructions: Some(instructions_text(institution_name, api_url)),
    }
}

/// What a server says of itself depends on the institution's name and the
/// base URL of its configuration, and on nothing else: two handshakes under
/// configurations that agree in these two get the same answer.
pub proof fn lemma_info_repeats(first: ConfigView, second: ConfigView)
    requires
        first.institution_name == second.institution_name,
        first.api_url == second.api_url,
    ensures
        server_info_for(first.institution_name, first.api_url) == server_info_for(
            second.institution_name,
            second.api_url,
        ),
{
}

impl CanvasServer {
    /// Whether the client is bound to the configuration of the server, and
    /// sends the token of that configuration with each request.
    pub open spec fn wf(&self) -> bool {
        self.client@.config == self.config@ && self.client.wf()
    }

    /// Create a new Canvas MCP server.
    ///
    /// It fails exactly where no client can be made for `config`.
    pub fn new(config: CanvasConfig) -> (result: Result<Self, CanvasError>)
        ensures
            if is_header_text(config@.api_token) {
                match result {
                    Ok(server) => server.config@ == config@ && server.wf(),
                    Err(e) => e@.kind == ErrorKind::Config && e@.status is None
                        && "Failed to create HTTP client: "@.is_prefix_of(e@.message),
                }
            } else {
                result matches Err(e) && e@ == plain_error(
                    ErrorKind::Config,
                    "Invalid API token: failed to parse header value"@,
                )
            },
    {
        let config = Arc::new(config);
        match CanvasClient::new(share(&config)) {
            Ok(client) => Ok(CanvasServer { client: Arc::new(client), config }),
            Err(e) => Err(e),
        }
    }

    /// What this server says of itself in the handshake. The answer is made
    /// from the configuration alone.
    pub fn get_info(&self) -> (info: ServerInfo)
        ensures
            info@ == server_info_for(self.config@.institution_name, self.config@.api_url),
    {
        let institution = match &self.config.institution_name {
            Some(name) => name.as_str(),
            None => "Not specified",
        };
        let mut instructions = join("Canvas LMS MCP Server\nInstitution: ", institution);
        instructions.append("\nAPI URL: ");
        instructions.append(self.config.api_url.as_str());
        instructions.append(
            "\n\nThis server provides tools for interacting with Canvas LMS.\nCore tools will be implemented in Phase 3.",
        );
        ServerInfo {
            protocol_version: String::from_str("2024-11-05"),
            capabilities: ServerCapabilities {
                logging: false,
                prompts: false,
                resources: false,
                tools: true,
            },
            server_info: Implementation {
                name: String::from_str("rust-canvas-mcp"),
                version: String::from_str("0.1.0"),
            },
            instructions: Some(instructions),
        }
    }
}

} // verus!
