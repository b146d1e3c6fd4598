use mcp_server::config::{
    DockerSettings, LoggingSettings, SecuritySettings, ServerConfig, ServerSettings, TransportType,
};
use mcp_server::error::McpError;
use mcp_server::protocol::{CallToolResult, Content, JsonRpcId, JsonRpcRequest, JsonValue, TextContent};
use mcp_server::session::{is_blank, BackendOutcome, LineFramer, Session, Step};
use mcp_server::server::McpServer;

fn server() -> McpServer {
    let mut s = McpServer::new(ServerConfig {
        server: ServerSettings {
            name: "s".to_string(),
            version: "1".to_string(),
            transport: TransportType::Stdio,
            request_timeout: 2_000,
        },
        docker: DockerSettings::default(),
        security: SecuritySettings::default(),
        logging: LoggingSettings::default(),
    });
    s.initialize().unwrap();
    s
}

fn request(id: i64, method: &str, params: Option<JsonValue>) -> JsonRpcRequest {
    JsonRpcRequest {
        jsonrpc: "2.0".to_string(),
        id: JsonRpcId::Number(id),
        method: method.to_string(),
        params,
    }
}

fn list_containers() -> Option<JsonValue> {
    Some(JsonValue::Object(vec![(
        "name".to_string(),
        JsonValue::Str("list-containers".to_string()),
    )]))
}

fn id_number(id: &JsonRpcId) -> i64 {
    match id {
        JsonRpcId::Number(n) => *n,
        _ => panic!("expected a numeric id"),
    }
}

fn tool_result(text: &str) -> CallToolResult {
    CallToolResult {
        content: vec![Content::Text(TextContent { kind: "text".to_string(), text: text.to_string() })],
        is_error: false,
    }
}

#[test]
fn malformed_line_gives_one_parse_error_and_session_goes_on() {
    let mut srv = server();
    let mut session = Session::new();
    match session.begin(&mut srv, Err("key must be a string at line 1 column 2".to_string()), 0) {
        Step::Emit(r) => {
            assert!(matches!(r.id, JsonRpcId::Null));
            let e = r.body.unwrap_err();
            assert_eq!(e.code, -32700);
            assert_eq!(e.message, "Parse error: key must be a string at line 1 column 2");
        }
        Step::Run { .. } => panic!("a parse error runs nothing"),
    }
    assert!(session.is_idle());
    match session.begin(&mut srv, Ok(request(2, "tools/list", None)), 0) {
        Step::Emit(r) => {
            assert_eq!(id_number(&r.id), 2);
            assert!(r.body.is_ok());
        }
        Step::Run { .. } => panic!("listing answers at once"),
    }
}

#[test]
fn deadline_gives_timeout_and_late_result_is_dropped() {
    let mut srv = server();
    let mut session = Session::new();
    let ticket = match session.begin(&mut srv, Ok(request(41, "tools/call", list_containers())), 0) {
        Step::Run { ticket, .. } => ticket,
        Step::Emit(_) => panic!("a tool call goes to the backend"),
    };
    assert!(!session.is_idle());
    let timeout = session.expire(ticket).expect("the call in flight times out");
    assert_eq!(id_number(&timeout.id), 41);
    assert_eq!(timeout.body.unwrap_err().code, 9);
    assert!(session.is_idle());
    assert!(session.finish(ticket, BackendOutcome::Tool(Ok(tool_result("late")))).is_none());
    assert!(session.expire(ticket).is_none());
}

#[test]
fn backend_outcome_answers_call_in_flight() {
    let mut srv = server();
    let mut session = Session::new();
    let ticket = match session.begin(&mut srv, Ok(request(5, "tools/call", list_containers())), 0) {
        Step::Run { ticket, .. } => ticket,
        Step::Emit(_) => panic!("a tool call goes to the backend"),
    };
    assert!(session.finish(ticket + 1, BackendOutcome::Tool(Ok(tool_result("x")))).is_none());
    let r = session.finish(ticket, BackendOutcome::Tool(Ok(tool_result("done")))).unwrap();
    assert_eq!(id_number(&r.id), 5);
    assert!(r.body.is_ok());
    let r2 = session.finish(ticket, BackendOutcome::Tool(Err(McpError::OperationTimeout)));
    assert!(r2.is_none());
}

#[test]
fn responses_follow_request_order() {
    let mut srv = server();
    let mut session = Session::new();
    let mut emitted = Vec::new();
    for id in 1..=4i64 {
        let req = if id % 2 == 0 {
            request(id, "tools/call", list_containers())
        } else {
            request(id, "tools/list", None)
        };
        match session.begin(&mut srv, Ok(req), 0) {
            Step::Emit(r) => emitted.push(id_number(&r.id)),
            Step::Run { ticket, .. } => {
                let r = session.finish(ticket, BackendOutcome::Tool(Ok(tool_result("ok")))).unwrap();
                emitted.push(id_number(&r.id));
            }
        }
    }
    assert_eq!(emitted, vec![1, 2, 3, 4]);
}

#[test]
fn framer_joins_pieces_into_lines() {
    let mut f = LineFramer::new();
    f.feed(b"{\"a\":");
    assert!(f.next_line().is_none());
    f.feed(b"1}\n\n  \n{\"b\"");
    assert_eq!(f.next_line().unwrap(), b"{\"a\":1}".to_vec());
    let empty = f.next_line().unwrap();
    assert!(empty.is_empty() && is_blank(std::str::from_utf8(&empty).unwrap()));
    let spaces = f.next_line().unwrap();
    assert!(is_blank(std::str::from_utf8(&spaces).unwrap()));
    assert!(f.next_line().is_none());
    assert_eq!(f.finish().unwrap(), b"{\"b\"".to_vec());
    assert!(f.finish().is_none());
    assert!(!is_blank(" x "));
    assert!(is_blank("\u{3000}\t\r"));
}
