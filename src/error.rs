use vstd::prelude::*;

use crate::text::join2;

verus! {

/// Every failure the server reports, by stage.
#[derive(Debug, Clone)]
pub enum McpError {
    ParseError(String),
    InvalidRequest(String),
    MethodNotFound(String),
    InvalidParams(String),
    InternalError(String),
    ResourceNotFound(String),
    ToolNotFound(String),
    PromptNotFound(String),
    DockerError(String),
    SecurityError(String),
    RateLimitExceeded,
    ResourceQuotaExceeded(String),
    OperationNotPermitted(String),
    OperationTimeout,
}

/// The error object of a response envelope.
#[derive(Debug, Clone)]
pub struct JsonRpcError {
    pub code: i32,
    pub message: String,
    /// Extra data as JSON text; none of the server's own errors carry any.
    pub data: Option<String>,
}

/// The stable code of each kind of error.
pub open spec fn error_code(e: McpError) -> int {
    match e {
        McpError::ParseError(_) => -32700,
        McpError::InvalidRequest(_) => -32600,
        McpError::MethodNotFound(_) => -32601,
        McpError::InvalidParams(_) => -32602,
        McpError::InternalError(_) => -32603,
        McpError::ResourceNotFound(_) => 1,
        McpError::ToolNotFound(_) => 2,
        McpError::PromptNotFound(_) => 3,
        McpError::DockerError(_) => 4,
        McpError::SecurityError(_) => 5,
        McpError::RateLimitExceeded => 6,
        McpError::ResourceQuotaExceeded(_) => 7,
        McpError::OperationNotPermitted(_) => 8,
        McpError::OperationTimeout => 9,
    }
}

/// The message of each kind of error: protocol-level errors carry their
/// detail as is, the server's own kinds prefix it with their title.
pub open spec fn error_message(e: McpError) -> Seq<char> {
    match e {
        McpError::ParseError(m) => m@,
        McpError::InvalidRequest(m) => m@,
        McpError::MethodNotFound(m) => m@,
        McpError::InvalidParams(m) => m@,
        McpError::InternalError(m) => m@,
        McpError::ResourceNotFound(m) => "Resource not found: "@ + m@,
        McpError::ToolNotFound(m) => "Tool not found: "@ + m@,
        McpError::PromptNotFound(m) => "Prompt not found: "@ + m@,
        McpError::DockerError(m) => "Docker error: "@ + m@,
        McpError::SecurityError(m) => "Security error: "@ + m@,
        McpError::RateLimitExceeded => "Rate limit exceeded"@,
        McpError::ResourceQuotaExceeded(m) => "Resource quota exceeded: "@ + m@,
        McpError::OperationNotPermitted(m) => "Operation not permitted: "@ + m@,
        McpError::OperationTimeout => "Operation timeout"@,
    }
}

impl McpError {
    /// The error object that reports this error to the caller.
    pub fn to_json_rpc_error(&self) -> (r: JsonRpcError)
        ensures
            r.code as int == error_code(*self),
            r.message@ == error_message(*self),
            r.data is None,
    {
        let (code, message) = match self {
            McpError::ParseError(m) => (-32700i32, m.clone()),
            McpError::InvalidRequest(m) => (-32600i32, m.clone()),
            McpError::MethodNotFound(m) => (-32601i32, m.clone()),
            McpError::InvalidParams(m) => (-32602i32, m.clone()),
            McpError::InternalError(m) => (-32603i32, m.clone()),
            McpError::ResourceNotFound(m) => (1i32, join2("Resource not found: ", m.as_str())),
            McpError::ToolNotFound(m) => (2i32, join2("Tool not found: ", m.as_str())),
            McpError::PromptNotFound(m) => (3i32, join2("Prompt not found: ", m.as_str())),
            McpError::DockerError(m) => (4i32, join2("Docker error: ", m.as_str())),
            McpError::SecurityError(m) => (5i32, join2("Security error: ", m.as_str())),
            McpError::RateLimitExceeded => (6i32, "Rate limit exceeded".to_string()),
            McpError::ResourceQuotaExceeded(m) => (
                7i32,
                join2("Resource quota exceeded: ", m.as_str()),
            ),
            McpError::OperationNotPermitted(m) => (
                8i32,
                join2("Operation not permitted: ", m.as_str()),
            ),
            McpError::OperationTimeout => (9i32, "Operation timeout".to_string()),
        };
        JsonRpcError { code, message, data: None }
    }
}

} // verus!
