//! Calls of a server's tool.

use vstd::prelude::*;
use vstd::string::*;

use crate::json::{Json, JsonModel};
use crate::mcp::content::{self, stringify_content, Content};
use crate::message::{ToolResultBlockModel, ToolResultContent, ToolResultModel};
use crate::request::ToolDefinition;

verus! {

/// A tool of a server.
pub struct McpTool {
    /// Name that the model calls it by.
    pub name_for_engine: String,
    /// Name that the server calls it by.
    pub name_at_server: String,
    pub definition: ToolDefinition,
}

/// What a server answered to a call.
pub struct CallOutcome {
    pub content: Vec<Content>,
    /// Whether the server says that the call failed.
    pub is_error: Option<bool>,
}

/// What to send to the server for a call.
pub struct CallRequest {
    pub name: String,
    /// The arguments by name, if there are any.
    pub arguments: Option<Json>,
}

impl McpTool {
    /// The request for a call: arguments that are not an object are left out.
    pub fn request(&self, args: Json) -> (r: CallRequest)
        ensures
            r.name@ == self.name_at_server@,
            r.arguments == (match args@ {
                JsonModel::Object(_) => Some(args),
                _ => None,
            }),
    {
        let name = self.name_at_server.clone();
        match args {
            Json::Object(_) => CallRequest { name, arguments: Some(args) },
            _ => CallRequest { name, arguments: None },
        }
    }

    /// The reply that the model sees. A call that did not get through is a failed reply too.
    pub fn reply(outcome: Result<CallOutcome, String>) -> (r: ToolResultContent)
        ensures
            r@ == (match outcome {
                Ok(answer) => ToolResultModel {
                    blocks: seq![
                        ToolResultBlockModel::Text { text: content::answer_text(answer.content@) },
                    ],
                    is_error: answer.is_error == Some(true),
                },
                Err(reason) => ToolResultModel {
                    blocks: seq![
                        ToolResultBlockModel::Text { text: "MCP transport error: "@ + reason@ },
                    ],
                    is_error: true,
                },
            }),
    {
        match outcome {
            Err(reason) => {
                let mut text = "MCP transport error: ".to_owned();
                text.append(reason.as_str());
                ToolResultContent::error(text.as_str())
            },
            Ok(answer) => {
                let text = stringify_content(&answer.content);
                let failed = match answer.is_error {
                    Some(is_error) => is_error,
                    None => false,
                };
                if failed {
                    ToolResultContent::error(text.as_str())
                } else {
                    ToolResultContent::text(text.as_str())
                }
            },
        }
    }
}

} // verus!
