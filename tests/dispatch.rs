use mcp_server::config::{
    DockerSettings, LoggingSettings, RateLimitSettings, SecuritySettings, ServerConfig,
    ServerSettings, TransportType,
};
use mcp_server::error::McpError;
use mcp_server::protocol::{JsonRpcId, JsonRpcRequest, JsonRpcResponse, JsonValue, ResultBody};
use mcp_server::server::{
    complete_read, complete_tool_call, BackendCall, Dispatch, McpServer, ResourceOp, ToolOp,
};

fn config(security: SecuritySettings) -> ServerConfig {
    ServerConfig {
        server: ServerSettings {
            name: "docker-mcp".to_string(),
            version: "0.1.0".to_string(),
            transport: TransportType::Stdio,
            request_timeout: 30_000,
        },
        docker: DockerSettings::default(),
        security,
        logging: LoggingSettings::default(),
    }
}

fn server() -> McpServer {
    let mut s = McpServer::new(config(SecuritySettings::default()));
    assert!(s.initialize().is_ok());
    s
}

fn object(entries: Vec<(&str, JsonValue)>) -> JsonValue {
    JsonValue::Object(entries.into_iter().map(|(k, v)| (k.to_string(), v)).collect())
}

fn text(s: &str) -> JsonValue {
    JsonValue::Str(s.to_string())
}

fn request(id: i64, method: &str, params: Option<JsonValue>) -> JsonRpcRequest {
    JsonRpcRequest {
        jsonrpc: "2.0".to_string(),
        id: JsonRpcId::Number(id),
        method: method.to_string(),
        params,
    }
}

fn respond(d: Dispatch) -> JsonRpcResponse {
    match d {
        Dispatch::Respond(r) => r,
        Dispatch::Invoke { .. } => panic!("expected a response"),
    }
}

fn error_code(d: Dispatch) -> i32 {
    match respond(d).body {
        Err(e) => e.code,
        Ok(_) => panic!("expected an error"),
    }
}

#[test]
fn initialize_names_the_server() {
    let mut s = server();
    let r = respond(s.process_request(request(1, "initialize", None), 0));
    assert!(matches!(r.id, JsonRpcId::Number(1)));
    match r.body {
        Ok(ResultBody::Initialize(i)) => {
            assert_eq!(i.server.name, "docker-mcp");
            assert_eq!(i.server.version, "0.1.0");
            assert!(i.capabilities.tools.unwrap().list_changed);
        }
        _ => panic!("expected an initialize result"),
    }
}

#[test]
fn second_initialize_is_refused() {
    let mut s = server();
    assert!(matches!(s.initialize(), Err(McpError::InternalError(_))));
}

#[test]
fn listing_returns_registered_capabilities() {
    let mut s = server();
    match respond(s.process_request(request(1, "tools/list", None), 0)).body {
        Ok(ResultBody::ListTools(l)) => {
            let names: Vec<&str> = l.tools.iter().map(|t| t.name.as_str()).collect();
            assert_eq!(
                names,
                vec![
                    "list-containers",
                    "container-start",
                    "container-stop",
                    "container-logs",
                    "list-images",
                    "compose-up",
                    "compose-down",
                    "validate-compose",
                    "diagnostic"
                ]
            );
        }
        _ => panic!("expected a tool list"),
    }
    match respond(s.process_request(request(2, "resources/list", None), 0)).body {
        Ok(ResultBody::ListResources(l)) => {
            assert_eq!(l.resources.len(), 2);
            assert_eq!(l.resource_templates.unwrap().len(), 3);
        }
        _ => panic!("expected a resource list"),
    }
    match respond(s.process_request(request(3, "prompts/list", None), 0)).body {
        Ok(ResultBody::ListPrompts(l)) => {
            assert_eq!(l.prompts.len(), 2);
            assert_eq!(l.prompts[0].name, "generate-dockerfile");
        }
        _ => panic!("expected a prompt list"),
    }
}

#[test]
fn listing_is_not_subject_to_policy() {
    let mut sec = SecuritySettings::default();
    sec.commands.allowed_commands = Some(vec![]);
    let mut s = McpServer::new(config(sec));
    s.initialize().unwrap();
    assert!(respond(s.process_request(request(1, "tools/list", None), 0)).body.is_ok());
    let params = object(vec![("name", text("list-images"))]);
    assert_eq!(error_code(s.process_request(request(2, "tools/call", Some(params)), 0)), 8);
}

#[test]
fn unknown_method_is_not_found() {
    let mut s = server();
    let r = respond(s.process_request(request(7, "nope/nothing", None), 0));
    assert!(matches!(r.id, JsonRpcId::Number(7)));
    let e = r.body.unwrap_err();
    assert_eq!(e.code, -32601);
    assert_eq!(e.message, "Method 'nope/nothing' not found");
}

#[test]
fn call_without_params_is_invalid() {
    let mut s = server();
    assert_eq!(error_code(s.process_request(request(1, "tools/call", None), 0)), -32602);
    assert_eq!(error_code(s.process_request(request(2, "resources/read", None), 0)), -32602);
    assert_eq!(error_code(s.process_request(request(3, "prompts/get", None), 0)), -32602);
    let bad = object(vec![("name", JsonValue::Number("3".to_string()))]);
    assert_eq!(error_code(s.process_request(request(4, "tools/call", Some(bad)), 0)), -32602);
}

#[test]
fn tool_call_goes_to_backend() {
    let mut s = server();
    let params = object(vec![
        ("name", text("container-start")),
        ("arguments", object(vec![("container_id", text("abc"))])),
    ]);
    match s.process_request(request(5, "tools/call", Some(params)), 0) {
        Dispatch::Invoke { id, call: BackendCall::Tool { op, arguments } } => {
            assert!(matches!(id, JsonRpcId::Number(5)));
            assert_eq!(op, ToolOp::ContainerStart);
            match arguments {
                JsonValue::Object(es) => assert_eq!(es[0].0, "container_id"),
                _ => panic!("arguments lost"),
            }
        }
        _ => panic!("expected a backend call"),
    }
}

#[test]
fn tool_call_errors() {
    let mut s = server();
    let unknown = object(vec![("name", text("no-such-tool"))]);
    let r = respond(s.process_request(request(1, "tools/call", Some(unknown)), 0));
    let e = r.body.unwrap_err();
    assert_eq!(e.code, 2);
    assert_eq!(e.message, "Tool not found: no-such-tool");
    let missing = object(vec![("name", text("container-stop"))]);
    let r = respond(s.process_request(request(2, "tools/call", Some(missing)), 0));
    let e = r.body.unwrap_err();
    assert_eq!(e.code, -32602);
    assert_eq!(e.message, "Required argument 'container_id' is missing");
}

#[test]
fn resource_reads_resolve_fixed_then_templated() {
    let mut s = server();
    let p = object(vec![("uri", text("docker://info"))]);
    match s.process_request(request(1, "resources/read", Some(p)), 0) {
        Dispatch::Invoke { call: BackendCall::Read { uri, mime_type, op }, .. } => {
            assert_eq!(uri, "docker://info");
            assert_eq!(mime_type.as_deref(), Some("application/json"));
            assert!(matches!(op, ResourceOp::Info));
        }
        _ => panic!("expected a read"),
    }
    let p = object(vec![("uri", text("docker://container/web-1"))]);
    match s.process_request(request(2, "resources/read", Some(p)), 0) {
        Dispatch::Invoke { call: BackendCall::Read { op: ResourceOp::Container(c), .. }, .. } => {
            assert_eq!(c, "web-1")
        }
        _ => panic!("expected a container read"),
    }
    let p = object(vec![("uri", text("docker://image/nginx:latest"))]);
    match s.process_request(request(3, "resources/read", Some(p)), 0) {
        Dispatch::Invoke { call: BackendCall::Read { op: ResourceOp::Image(c), .. }, .. } => {
            assert_eq!(c, "nginx:latest")
        }
        _ => panic!("expected an image read"),
    }
    let p = object(vec![("uri", text("file:///etc/passwd"))]);
    let e = respond(s.process_request(request(4, "resources/read", Some(p)), 0)).body.unwrap_err();
    assert_eq!(e.code, 1);
    assert_eq!(e.message, "Resource not found: file:///etc/passwd");
}

#[test]
fn dockerfile_prompt_text() {
    let mut s = server();
    let p = object(vec![
        ("name", text("generate-dockerfile")),
        ("arguments", object(vec![("app_type", text("rust")), ("production", text("no"))])),
    ]);
    match respond(s.process_request(request(1, "prompts/get", Some(p)), 0)).body {
        Ok(ResultBody::GetPrompt(g)) => {
            assert_eq!(g.description.unwrap(), "Optimized Dockerfile for development rust application");
            assert_eq!(g.messages.len(), 1);
            assert_eq!(g.messages[0].role, "user");
            assert_eq!(
                g.messages[0].content.text.as_deref().unwrap(),
                "Generate an optimized Dockerfile for a rust application, configured for development.\n\nThe Dockerfile should include:\n- Fast rebuilds and good developer experience\n- Volume mounting for code changes\n- Debugging tools included\n\nPlease include comments explaining key decisions."
            );
        }
        _ => panic!("expected a prompt"),
    }
}

#[test]
fn dockerfile_prompt_with_version_for_production() {
    let mut s = server();
    let p = object(vec![
        ("name", text("generate-dockerfile")),
        ("arguments", object(vec![("app_type", text("go")), ("version", text("1.22"))])),
    ]);
    match respond(s.process_request(request(1, "prompts/get", Some(p)), 0)).body {
        Ok(ResultBody::GetPrompt(g)) => {
            let t = g.messages[0].content.text.clone().unwrap();
            assert!(t.starts_with(
                "Generate an optimized Dockerfile for a go application, using version 1.22, optimized for production use."
            ));
            assert_eq!(g.description.unwrap(), "Optimized Dockerfile for production go application");
        }
        _ => panic!("expected a prompt"),
    }
}

#[test]
fn compose_prompt_text() {
    let mut s = server();
    let p = object(vec![
        ("name", text("generate-compose")),
        (
            "arguments",
            object(vec![
                ("scenario", text("webapp")),
                ("services", text("web,db")),
                ("with_volumes", text("no")),
            ]),
        ),
    ]);
    match respond(s.process_request(request(1, "prompts/get", Some(p)), 0)).body {
        Ok(ResultBody::GetPrompt(g)) => {
            assert_eq!(
                g.description.unwrap(),
                "Docker Compose configuration for webapp scenario with services: web,db"
            );
            let t = g.messages[0].content.text.clone().unwrap();
            assert!(t.starts_with(
                "Generate a Docker Compose configuration for a webapp scenario that includes the following services: web,db.\n\nThe configuration should include:"
            ));
        }
        _ => panic!("expected a prompt"),
    }
}

#[test]
fn prompt_errors() {
    let mut s = server();
    let p = object(vec![("name", text("generate-dockerfile"))]);
    let e = respond(s.process_request(request(1, "prompts/get", Some(p)), 0)).body.unwrap_err();
    assert_eq!(e.code, -32602);
    assert_eq!(e.message, "Required arguments are missing");
    let p = object(vec![
        ("name", text("generate-compose")),
        ("arguments", object(vec![("scenario", text("webapp"))])),
    ]);
    let e = respond(s.process_request(request(2, "prompts/get", Some(p)), 0)).body.unwrap_err();
    assert_eq!(e.message, "Required argument 'services' is missing");
    let p = object(vec![("name", text("nope"))]);
    let e = respond(s.process_request(request(3, "prompts/get", Some(p)), 0)).body.unwrap_err();
    assert_eq!(e.code, 3);
    assert_eq!(e.message, "Prompt not found: nope");
}

#[test]
fn rate_limited_request_keeps_its_id() {
    let mut sec = SecuritySettings::default();
    sec.rate_limiting = RateLimitSettings { enabled: true, requests_per_minute: 1, burst: 0 };
    let mut s = McpServer::new(config(sec));
    s.initialize().unwrap();
    assert!(respond(s.process_request(request(1, "tools/list", None), 0)).body.is_ok());
    let r = respond(s.process_request(request(2, "tools/list", None), 0));
    assert!(matches!(r.id, JsonRpcId::Number(2)));
    let e = r.body.unwrap_err();
    assert_eq!(e.code, 6);
    assert_eq!(e.message, "Rate limit exceeded");
}

#[test]
fn completions_build_responses() {
    let r = complete_read(
        JsonRpcId::Str("a".to_string()),
        "docker://version".to_string(),
        Some("application/json".to_string()),
        Ok("{}".to_string()),
    );
    match r.body {
        Ok(ResultBody::ReadResource(rr)) => {
            assert_eq!(rr.contents[0].uri, "docker://version");
            assert_eq!(rr.contents[0].text.as_deref(), Some("{}"));
        }
        _ => panic!("expected contents"),
    }
    let r = complete_tool_call(JsonRpcId::Null, Err(McpError::DockerError("down".to_string())));
    let e = r.body.unwrap_err();
    assert_eq!(e.code, 4);
    assert_eq!(e.message, "Docker error: down");
}

#[test]
fn error_taxonomy_codes() {
    let cases: Vec<(McpError, i32, &str)> = vec![
        (McpError::ParseError("x".to_string()), -32700, "x"),
        (McpError::InvalidRequest("x".to_string()), -32600, "x"),
        (McpError::MethodNotFound("x".to_string()), -32601, "x"),
        (McpError::InvalidParams("x".to_string()), -32602, "x"),
        (McpError::InternalError("x".to_string()), -32603, "x"),
        (McpError::ResourceNotFound("x".to_string()), 1, "Resource not found: x"),
        (McpError::ToolNotFound("x".to_string()), 2, "Tool not found: x"),
        (McpError::PromptNotFound("x".to_string()), 3, "Prompt not found: x"),
        (McpError::DockerError("x".to_string()), 4, "Docker error: x"),
        (McpError::SecurityError("x".to_string()), 5, "Security error: x"),
        (McpError::RateLimitExceeded, 6, "Rate limit exceeded"),
        (McpError::ResourceQuotaExceeded("x".to_string()), 7, "Resource quota exceeded: x"),
        (McpError::OperationNotPermitted("x".to_string()), 8, "Operation not permitted: x"),
        (McpError::OperationTimeout, 9, "Operation timeout"),
    ];
    for (e, code, message) in cases {
        let j = e.to_json_rpc_error();
        assert_eq!(j.code, code);
        assert_eq!(j.message, message);
        assert!(j.data.is_none());
    }
}

#[test]
fn registered_descriptors_and_templates() {
    let mut s = server();
    match respond(s.process_request(request(1, "tools/list", None), 0)).body {
        Ok(ResultBody::ListTools(l)) => {
            let req: Vec<(String, Vec<String>)> =
                l.tools.iter().map(|t| (t.name.clone(), t.required_args.clone())).collect();
            assert_eq!(req[0].1, Vec::<String>::new());
            assert_eq!(req[1].1, vec!["container_id".to_string()]);
            assert_eq!(req[5].1, vec!["project_directory".to_string()]);
            assert_eq!(req[7].1, vec!["compose_content".to_string()]);
            assert_eq!(req[8].1, Vec::<String>::new());
        }
        _ => panic!("expected a tool list"),
    }
    match respond(s.process_request(request(2, "resources/list", None), 0)).body {
        Ok(ResultBody::ListResources(l)) => {
            assert_eq!(l.resources[0].uri, "docker://info");
            let t = l.resource_templates.unwrap();
            assert_eq!(t[0].uri_template, "docker://container/{container_id}");
            assert_eq!(t[1].name, "Image Details");
            assert_eq!(t[2].uri_template, "docker://compose/{project_directory}");
            assert_eq!(t[2].mime_type.as_deref(), Some("application/json"));
        }
        _ => panic!("expected a resource list"),
    }
    match respond(s.process_request(request(3, "prompts/list", None), 0)).body {
        Ok(ResultBody::ListPrompts(l)) => {
            let compose = &l.prompts[1];
            assert_eq!(compose.name, "generate-compose");
            let flags: Vec<(&str, bool)> =
                compose.arguments.iter().map(|a| (a.name.as_str(), a.required)).collect();
            assert_eq!(flags, vec![("scenario", true), ("services", true), ("with_volumes", false)]);
        }
        _ => panic!("expected a prompt list"),
    }
}

#[test]
fn missing_params_message() {
    let mut s = server();
    let e = respond(s.process_request(request(1, "tools/call", None), 0)).body.unwrap_err();
    assert_eq!(e.message, "Missing params");
    assert!(e.data.is_none());
}
