//! How a server is started and what its tools become.

use vstd::prelude::*;
use vstd::string::*;

use crate::json::Json;
use crate::mcp::naming::{self, compose};
use crate::mcp::tool::McpTool;
use crate::request::{ToolDefinition, ToolTag};
use crate::text;

verus! {

/// Why a server cannot be used.
#[derive(Debug, Clone, PartialEq, Eq)]
pub enum McpError {
    /// The server was not started.
    TransportCreation(String),
    /// The server failed.
    Service(String),
}

impl McpError {
    /// The error as text.
    pub fn text(&self) -> (r: String)
        ensures
            r@ == (match *self {
                McpError::TransportCreation(reason) => "MCP transport creation failed: "@ + reason@,
                McpError::Service(reason) => "MCP service error: "@ + reason@,
            }),
    {
        match self {
            McpError::TransportCreation(reason) => {
                let mut out = "MCP transport creation failed: ".to_owned();
                out.append(reason.as_str());
                out
            },
            McpError::Service(reason) => {
                let mut out = "MCP service error: ".to_owned();
                out.append(reason.as_str());
                out
            },
        }
    }
}

/// How to start a server.
pub struct McpConnectionBuilder {
    /// Name of the server in the names of its tools.
    pub server_label: String,
    /// Program to run.
    pub command: Option<String>,
    pub args: Vec<String>,
    /// Environment variables on top of those that are inherited.
    pub envs: Vec<(String, String)>,
}

/// A server to start: everything that its process needs.
pub struct ServerLaunch {
    pub server_label: String,
    pub command: String,
    pub args: Vec<String>,
    pub envs: Vec<(String, String)>,
}

/// What is known of a server that runs.
pub struct McpConnection {
    server_label: String,
    server_name: Option<String>,
}

/// A tool as a server describes it.
pub struct ServerTool {
    pub name: String,
    pub description: Option<String>,
    /// JSON Schema of the tool's input.
    pub input_schema: Json,
}

/// Whether a tool of a server is offered as it should be: under its composed name, with the
/// server's description and schema, tagged as a network tool and with `mcp`.
pub open spec fn offers(server_label: Seq<char>, tool: ServerTool, offered: McpTool) -> bool {
    let name = naming::composed(server_label, tool.name@);
    let definition = offered.definition;
    &&& offered.name_for_engine@ == name
    &&& offered.name_at_server@ == tool.name@
    &&& definition.name@ == name
    &&& definition.description@ == (match tool.description {
        Some(description) => description@,
        None => Seq::empty(),
    })
    &&& definition.input_schema == tool.input_schema
    &&& definition.tags@.len() == 2
    &&& definition.tags@[0] is Network
    &&& definition.tags@[1] matches ToolTag::Custom(tag) && tag@ == "mcp"@
    &&& definition.cache_control is None
}

impl McpConnection {
    /// The label of the server.
    pub closed spec fn label(&self) -> Seq<char> {
        self.server_label@
    }

    /// The name that the server gave itself.
    pub closed spec fn name(&self) -> Option<Seq<char>> {
        text::opt_text(self.server_name)
    }

    /// Begins to configure a server. Its label is part of the names of its tools.
    pub fn builder(server_label: &str) -> (r: McpConnectionBuilder)
        ensures
            r.server_label@ == server_label@,
            r.command is None,
            r.args@ == Seq::<String>::empty(),
            r.envs@ == Seq::<(String, String)>::empty(),
    {
        McpConnectionBuilder {
            server_label: server_label.to_owned(),
            command: None,
            args: Vec::new(),
            envs: Vec::new(),
        }
    }

    /// A server that has answered the handshake with a name, or without one.
    pub fn new(server_label: String, server_name: Option<String>) -> (r: Self)
        ensures
            r.label() == server_label@,
            r.name() == text::opt_text(server_name),
    {
        McpConnection { server_label, server_name }
    }

    /// The label that the server was given.
    pub fn server_label(&self) -> (r: &str)
        ensures
            r@ == self.label(),
    {
        self.server_label.as_str()
    }

    /// The name that the server gave itself, if it did.
    pub fn server_name(&self) -> (r: Option<String>)
        ensures
            text::opt_text(r) == self.name(),
    {
        match &self.server_name {
            Some(name) => Some(name.clone()),
            None => None,
        }
    }

    /// Offers each of a server's tools.
    pub fn list_tools(&self, tools: Vec<ServerTool>) -> (r: Vec<McpTool>)
        ensures
            r@.len() == tools@.len(),
            forall|i: int|
                0 <= i < tools@.len() ==> offers(self.label(), tools@[i], #[trigger] r@[i]),
    {
        let ghost all = tools@;
        let mut out: Vec<McpTool> = Vec::new();
        for tool in it: tools
            invariant
                it.seq() == all,
                all == tools@,
                out@.len() == it.index(),
                forall|i: int|
                    0 <= i < it.index() ==> offers(self.label(), all[i], #[trigger] out@[i]),
        {
            let name_for_engine = compose(self.server_label.as_str(), tool.name.as_str());
            let description = match tool.description {
                Some(description) => description,
                None => String::new(),
            };
            let mut tags: Vec<ToolTag> = Vec::new();
            tags.push(ToolTag::Network);
            tags.push(ToolTag::Custom("mcp".to_owned()));
            let definition = ToolDefinition::new(
                name_for_engine.as_str(),
                description.as_str(),
                tool.input_schema,
                tags,
            );
            out.push(McpTool { name_for_engine, name_at_server: tool.name, definition });
        }
        out
    }
}

impl McpConnectionBuilder {
    /// Sets the program to run.
    pub fn command(self, cmd: &str) -> (r: Self)
        ensures
            r.command matches Some(command) && command@ == cmd@,
            r == (McpConnectionBuilder { command: r.command, ..self }),
    {
        McpConnectionBuilder {
            server_label: self.server_label,
            command: Some(cmd.to_owned()),
            args: self.args,
            envs: self.envs,
        }
    }

    /// Sets the arguments, in place of earlier ones.
    pub fn args(self, args: Vec<String>) -> (r: Self)
        ensures
            r == (McpConnectionBuilder { args, ..self }),
    {
        McpConnectionBuilder {
            server_label: self.server_label,
            command: self.command,
            args,
            envs: self.envs,
        }
    }

    /// Adds an environment variable to earlier ones.
    pub fn env(self, key: &str, val: &str) -> (r: Self)
        ensures
            r == (McpConnectionBuilder { envs: r.envs, ..self }),
            r.envs@.len() == self.envs@.len() + 1,
            r.envs@.drop_last() == self.envs@,
            r.envs@.last().0@ == key@,
            r.envs@.last().1@ == val@,
    {
        let mut envs = self.envs;
        envs.push((key.to_owned(), val.to_owned()));
        assert(envs@.drop_last() =~= self.envs@);
        McpConnectionBuilder {
            server_label: self.server_label,
            command: self.command,
            args: self.args,
            envs,
        }
    }

    /// What to start; without a program there is nothing to start.
    pub fn launch(self) -> (r: Result<ServerLaunch, McpError>)
        ensures
            r is Ok <==> self.command is Some,
            r matches Ok(launch) ==> launch == (ServerLaunch {
                server_label: self.server_label,
                command: self.command->0,
                args: self.args,
                envs: self.envs,
            }),
            r matches Err(e) ==> e matches McpError::TransportCreation(reason) && reason@
                == "missing command"@,
    {
        match self.command {
            Some(command) => Ok(
                ServerLaunch {
                    server_label: self.server_label,
                    command,
                    args: self.args,
                    envs: self.envs,
                },
            ),
            None => Err(McpError::TransportCreation("missing command".to_owned())),
        }
    }
}

} // verus!
