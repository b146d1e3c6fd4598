use vstd::prelude::*;

use crate::config::{DockerSettings, LoggingSettings, ServerConfig, ServerSettings, TransportType};
use crate::error::{error_code, McpError};
use crate::prompts::{
    arg_of, compose_description, compose_text, dockerfile_description, dockerfile_text,
    find_arg, generate_compose_prompt, generate_dockerfile_prompt, is_single_user_text,
};
use crate::protocol::{
    args_view, prompt_args_view, call_tool_params, error_response, member, prompt_args_ok, str_member, CallToolRequest,
    CallToolResult, GetPromptRequest, InitializeResult, JsonRpcId, JsonRpcRequest,
    JsonRpcResponse, JsonValue, ListChanged, ListPromptsResult, ListResourcesResult,
    ListToolsResult, Prompt, PromptArgument, ReadResourceRequest, ReadResourceResult, Resource,
    ResourceContent, ResourceTemplate, ResultBody, ServerCapabilities, ServerInfo, Tool,
};
use crate::registry::{has_key, Registry};
use crate::security::{
    resource_refusal, tool_refusal, after, compose_scheme, container_scheme, image_scheme, refilled, resource_permitted,
    tool_permitted, RateLimiter, SecurityValidator, TOKEN,
};
use crate::text::{is_prefix, join2, starts_with, str_eq};

verus! {

/// The backend operation behind each tool.
#[derive(Debug, Clone, Copy, PartialEq, Eq, Structural)]
pub enum ToolOp {
    ListContainers,
    ContainerStart,
    ContainerStop,
    ContainerLogs,
    ListImages,
    ComposeUp,
    ComposeDown,
    ValidateCompose,
    Diagnostic,
}

/// The operation bound to each tool name.
pub open spec fn tool_op_of(name: Seq<char>) -> Option<ToolOp> {
    if name == "list-containers"@ {
        Some(ToolOp::ListContainers)
    } else if name == "container-start"@ {
        Some(ToolOp::ContainerStart)
    } else if name == "container-stop"@ {
        Some(ToolOp::ContainerStop)
    } else if name == "container-logs"@ {
        Some(ToolOp::ContainerLogs)
    } else if name == "list-images"@ {
        Some(ToolOp::ListImages)
    } else if name == "compose-up"@ {
        Some(ToolOp::ComposeUp)
    } else if name == "compose-down"@ {
        Some(ToolOp::ComposeDown)
    } else if name == "validate-compose"@ {
        Some(ToolOp::ValidateCompose)
    } else if name == "diagnostic"@ {
        Some(ToolOp::Diagnostic)
    } else {
        None
    }
}

pub fn tool_op(name: &str) -> (r: Option<ToolOp>)
    ensures
        r == tool_op_of(name@),
{
    if str_eq(name, "list-containers") {
        Some(ToolOp::ListContainers)
    } else if str_eq(name, "container-start") {
        Some(ToolOp::ContainerStart)
    } else if str_eq(name, "container-stop") {
        Some(ToolOp::ContainerStop)
    } else if str_eq(name, "container-logs") {
        Some(ToolOp::ContainerLogs)
    } else if str_eq(name, "list-images") {
        Some(ToolOp::ListImages)
    } else if str_eq(name, "compose-up") {
        Some(ToolOp::ComposeUp)
    } else if str_eq(name, "compose-down") {
        Some(ToolOp::ComposeDown)
    } else if str_eq(name, "validate-compose") {
        Some(ToolOp::ValidateCompose)
    } else if str_eq(name, "diagnostic") {
        Some(ToolOp::Diagnostic)
    } else {
        None
    }
}

/// A backend read of a resource.
#[derive(Debug)]
pub enum ResourceOp {
    Info,
    Version,
    Container(String),
    Image(String),
    Compose(String),
}

/// What a resource read is about, as values.
pub enum ResourceTarget {
    Info,
    Version,
    Container(Seq<char>),
    Image(Seq<char>),
    Compose(Seq<char>),
}

pub open spec fn target_of(op: ResourceOp) -> ResourceTarget {
    match op {
        ResourceOp::Info => ResourceTarget::Info,
        ResourceOp::Version => ResourceTarget::Version,
        ResourceOp::Container(s) => ResourceTarget::Container(s@),
        ResourceOp::Image(s) => ResourceTarget::Image(s@),
        ResourceOp::Compose(s) => ResourceTarget::Compose(s@),
    }
}

/// Work that only the backend can do.
#[derive(Debug)]
pub enum BackendCall {
    Tool { op: ToolOp, arguments: JsonValue },
    Read { uri: String, mime_type: Option<String>, op: ResourceOp },
}

/// What the dispatcher decided for one request: the response itself, or a
/// backend call whose outcome completes it.
#[derive(Debug)]
pub enum Dispatch {
    Respond(JsonRpcResponse),
    Invoke { id: JsonRpcId, call: BackendCall },
}

pub open spec fn dispatch_id(d: Dispatch) -> JsonRpcId {
    match d {
        Dispatch::Respond(r) => r.id,
        Dispatch::Invoke { id, .. } => id,
    }
}

/// The decision in short: an error with its code, an answer, or a backend call.
pub enum Verdict {
    Fail(int),
    Answer,
    Run(ToolOp),
    Read(ResourceTarget),
}

pub open spec fn verdict_of(d: Dispatch) -> Verdict {
    match d {
        Dispatch::Respond(r) => match r.body {
            Ok(_) => Verdict::Answer,
            Err(e) => Verdict::Fail(e.code as int),
        },
        Dispatch::Invoke { call, .. } => match call {
            BackendCall::Tool { op, .. } => Verdict::Run(op),
            BackendCall::Read { op, .. } => Verdict::Read(target_of(op)),
        },
    }
}

/// Descriptors that agree in every field.
pub open spec fn same_tool(a: Tool, b: Tool) -> bool {
    &&& a.name == b.name
    &&& a.description == b.description
    &&& a.input_schema == b.input_schema
    &&& a.required_args@ == b.required_args@
}

pub open spec fn same_prompt(a: Prompt, b: Prompt) -> bool {
    &&& a.name == b.name
    &&& a.description == b.description
    &&& a.arguments@ == b.arguments@
}

fn copy_opt(o: &Option<String>) -> (r: Option<String>)
    ensures
        r == *o,
{
    match o {
        Some(s) => Some(s.clone()),
        None => None,
    }
}

fn copy_strings(v: &Vec<String>) -> (r: Vec<String>)
    ensures
        r@ == v@,
{
    let mut out: Vec<String> = Vec::new();
    let mut i: usize = 0;
    while i < v.len()
        invariant
            i <= v@.len(),
            out@ == v@.subrange(0, i as int),
        decreases v@.len() - i,
    {
        out.push(v[i].clone());
        i = i + 1;
    }
    assert(v@.subrange(0, v@.len() as int) == v@);
    out
}

impl Tool {
    pub fn duplicate(&self) -> (r: Tool)
        ensures
            same_tool(r, *self),
    {
        Tool {
            name: self.name.clone(),
            description: copy_opt(&self.description),
            input_schema: self.input_schema.clone(),
            required_args: copy_strings(&self.required_args),
        }
    }
}

impl PromptArgument {
    pub fn duplicate(&self) -> (r: PromptArgument)
        ensures
            r == *self,
    {
        PromptArgument {
            name: self.name.clone(),
            description: copy_opt(&self.description),
            required: self.required,
        }
    }
}

impl Prompt {
    pub fn duplicate(&self) -> (r: Prompt)
        ensures
            same_prompt(r, *self),
    {
        let mut arguments: Vec<PromptArgument> = Vec::new();
        let mut i: usize = 0;
        while i < self.arguments.len()
            invariant
                i <= self.arguments@.len(),
                arguments@ == self.arguments@.subrange(0, i as int),
            decreases self.arguments@.len() - i,
        {
            arguments.push(self.arguments[i].duplicate());
            i = i + 1;
        }
        assert(self.arguments@.subrange(0, self.arguments@.len() as int) == self.arguments@);
        Prompt { name: self.name.clone(), description: copy_opt(&self.description), arguments }
    }
}

impl Resource {
    pub fn duplicate(&self) -> (r: Resource)
        ensures
            r == *self,
    {
        Resource {
            uri: self.uri.clone(),
            name: self.name.clone(),
            description: copy_opt(&self.description),
            mime_type: copy_opt(&self.mime_type),
            text: copy_opt(&self.text),
            blob: copy_opt(&self.blob),
        }
    }
}

fn some_text(s: &str) -> (r: Option<String>)
    ensures
        r is Some && r.unwrap()@ == s@,
{
    Some(s.to_string())
}

fn one_text(item: &str) -> (r: Vec<String>)
    ensures
        strings_view(r@) == seq![item@],
{
    let mut out: Vec<String> = Vec::new();
    out.push(item.to_string());
    assert(strings_view(out@) =~= seq![item@]);
    out
}

fn tool(name: &str, description: &str, schema: &str, required: Vec<String>) -> (r: Tool)
    ensures
        r.name@ == name@,
        r.required_args == required,
{
    Tool {
        name: name.to_string(),
        description: some_text(description),
        input_schema: schema.to_string(),
        required_args: required,
    }
}

fn prompt_arg(name: &str, description: &str, required: bool) -> (r: PromptArgument)
    ensures
        r.name@ == name@,
        r.required == required,
{
    PromptArgument { name: name.to_string(), description: some_text(description), required }
}

/// The tool names registered at startup, in order.
pub open spec fn standard_tools() -> Seq<Seq<char>> {
    seq![
        "list-containers"@,
        "container-start"@,
        "container-stop"@,
        "container-logs"@,
        "list-images"@,
        "compose-up"@,
        "compose-down"@,
        "validate-compose"@,
        "diagnostic"@,
    ]
}

pub open spec fn standard_resources() -> Seq<Seq<char>> {
    seq!["docker://info"@, "docker://version"@]
}

pub open spec fn standard_prompts() -> Seq<Seq<char>> {
    seq!["generate-dockerfile"@, "generate-compose"@]
}

/// The views of a list of strings.
pub open spec fn strings_view(v: Seq<String>) -> Seq<Seq<char>> {
    v.map_values(|x: String| x@)
}

/// The arguments of a prompt as names with their required flag.
pub open spec fn params_view(v: Seq<PromptArgument>) -> Seq<(Seq<char>, bool)> {
    v.map_values(|a: PromptArgument| (a.name@, a.required))
}

/// The required arguments of the `i`-th standard tool.
pub open spec fn standard_required(i: int) -> Seq<Seq<char>> {
    if i == 1 || i == 2 || i == 3 {
        seq!["container_id"@]
    } else if i == 5 || i == 6 {
        seq!["project_directory"@]
    } else if i == 7 {
        seq!["compose_content"@]
    } else {
        Seq::empty()
    }
}

/// The arguments of the `i`-th standard prompt.
pub open spec fn standard_prompt_params(i: int) -> Seq<(Seq<char>, bool)> {
    if i == 0 {
        seq![("app_type"@, true), ("version"@, false), ("production"@, false)]
    } else {
        seq![("scenario"@, true), ("services"@, true), ("with_volumes"@, false)]
    }
}

/// The standard tools with their schemas, in order.
fn standard_tool_list() -> (r: Vec<Tool>)
    ensures
        r@.len() == standard_tools().len(),
        forall|i: int|
            0 <= i < r@.len() ==> (#[trigger] r@[i]).name@ == standard_tools()[i] && strings_view(
                r@[i].required_args@,
            ) == standard_required(i),
{
    let mut list: Vec<Tool> = Vec::new();
    list.push(
        tool(
            "list-containers",
            "List running Docker containers",
            r#"{"type":"object","properties":{"all":{"type":"boolean","description":"Show all containers (default shows just running)"},"limit":{"type":"integer","description":"Number of containers to show"},"filter":{"type":"string","description":"Filter output based on conditions provided"}}}"#,
            Vec::new(),
        ),
    );
    list.push(
        tool(
            "container-start",
            "Start one or more stopped containers",
            r#"{"type":"object","required":["container_id"],"properties":{"container_id":{"type":"string","description":"Container ID or name to start"}}}"#,
            one_text("container_id"),
        ),
    );
    list.push(
        tool(
            "container-stop",
            "Stop one or more running containers",
            r#"{"type":"object","required":["container_id"],"properties":{"container_id":{"type":"string","description":"Container ID or name to stop"},"timeout":{"type":"integer","description":"Seconds to wait for stop before killing it (default 10)"}}}"#,
            one_text("container_id"),
        ),
    );
    list.push(
        tool(
            "container-logs",
            "Fetch the logs of a container",
            r#"{"type":"object","required":["container_id"],"properties":{"container_id":{"type":"string","description":"Container ID or name to get logs from"},"tail":{"type":"string","description":"Number of lines to show from the end of the logs (default 'all')"},"since":{"type":"string","description":"Show logs since timestamp (e.g., '2013-01-02T13:23:37Z') or relative (e.g., '42m' for 42 minutes)"}}}"#,
            one_text("container_id"),
        ),
    );
    list.push(
        tool(
            "list-images",
            "List Docker images",
            r#"{"type":"object","properties":{"all":{"type":"boolean","description":"Show all images (default hides intermediate images)"},"filter":{"type":"string","description":"Filter output based on conditions provided"}}}"#,
            Vec::new(),
        ),
    );
    list.push(
        tool(
            "compose-up",
            "Create and start containers defined in a Docker Compose file",
            r#"{"type":"object","required":["project_directory"],"properties":{"project_directory":{"type":"string","description":"Directory containing docker-compose.yml file"},"detach":{"type":"boolean","description":"Detached mode: Run containers in the background"},"services":{"type":"array","items":{"type":"string"},"description":"Specific services to start (default: all services)"}}}"#,
            one_text("project_directory"),
        ),
    );
    list.push(
        tool(
            "compose-down",
            "Stop and remove containers, networks, images, and volumes defined in a Docker Compose file",
            r#"{"type":"object","required":["project_directory"],"properties":{"project_directory":{"type":"string","description":"Directory containing docker-compose.yml file"},"volumes":{"type":"boolean","description":"Remove named volumes declared in the volumes section of the Compose file"},"remove_images":{"type":"string","enum":["all","local"],"description":"Remove images, 'all': remove all images, 'local': remove only images without a tag"}}}"#,
            one_text("project_directory"),
        ),
    );
    list.push(
        tool(
            "validate-compose",
            "Validate a Docker Compose file",
            r#"{"type":"object","required":["compose_content"],"properties":{"compose_content":{"type":"string","description":"Content of the docker-compose.yml file to validate"}}}"#,
            one_text("compose_content"),
        ),
    );
    list.push(
        tool(
            "diagnostic",
            "Run diagnostic checks on the Docker MCP server",
            r#"{"type":"object","properties":{"check_docker":{"type":"boolean","description":"Check Docker connectivity"},"check_compose":{"type":"boolean","description":"Check Docker Compose availability"},"list_env_vars":{"type":"boolean","description":"List relevant environment variables"}}}"#,
            Vec::new(),
        ),
    );
    assert forall|i: int|
        0 <= i < list@.len() implies (#[trigger] list@[i]).name@ == standard_tools()[i] && strings_view(
            list@[i].required_args@,
        ) == standard_required(i) by {
        assert(i == 0 || i == 1 || i == 2 || i == 3 || i == 4 || i == 5 || i == 6 || i == 7 || i == 8);
    }
    list
}

/// The standard names of each kind are distinct.
pub proof fn lemma_standard_names_distinct()
    ensures
        forall|i: int, j: int|
            0 <= i < standard_tools().len() && 0 <= j < standard_tools().len() && i != j
                ==> standard_tools()[i] != standard_tools()[j],
        standard_resources()[0] != standard_resources()[1],
        standard_prompts()[0] != standard_prompts()[1],
{
    reveal_strlit("list-containers");
    reveal_strlit("container-start");
    reveal_strlit("container-stop");
    reveal_strlit("container-logs");
    reveal_strlit("list-images");
    reveal_strlit("compose-up");
    reveal_strlit("compose-down");
    reveal_strlit("validate-compose");
    reveal_strlit("diagnostic");
    reveal_strlit("docker://info");
    reveal_strlit("docker://version");
    reveal_strlit("generate-dockerfile");
    reveal_strlit("generate-compose");
    let n = standard_tools();
    assert(n[0] == "list-containers"@);
    assert(n[1] == "container-start"@);
    assert(n[2] == "container-stop"@);
    assert(n[3] == "container-logs"@);
    assert(n[4] == "list-images"@);
    assert(n[5] == "compose-up"@);
    assert(n[6] == "compose-down"@);
    assert(n[7] == "validate-compose"@);
    assert(n[8] == "diagnostic"@);
    assert(n[0][0] != n[1][0]);
    assert(n[0].len() != n[2].len());
    assert(n[0].len() != n[3].len());
    assert(n[0].len() != n[4].len());
    assert(n[0].len() != n[5].len());
    assert(n[0].len() != n[6].len());
    assert(n[0].len() != n[7].len());
    assert(n[0].len() != n[8].len());
    assert(n[1].len() != n[2].len());
    assert(n[1].len() != n[3].len());
    assert(n[1].len() != n[4].len());
    assert(n[1].len() != n[5].len());
    assert(n[1].len() != n[6].len());
    assert(n[1].len() != n[7].len());
    assert(n[1].len() != n[8].len());
    assert(n[2][10] != n[3][10]);
    assert(n[2].len() != n[4].len());
    assert(n[2].len() != n[5].len());
    assert(n[2].len() != n[6].len());
    assert(n[2].len() != n[7].len());
    assert(n[2].len() != n[8].len());
    assert(n[3].len() != n[4].len());
    assert(n[3].len() != n[5].len());
    assert(n[3].len() != n[6].len());
    assert(n[3].len() != n[7].len());
    assert(n[3].len() != n[8].len());
    assert(n[4].len() != n[5].len());
    assert(n[4].len() != n[6].len());
    assert(n[4].len() != n[7].len());
    assert(n[4].len() != n[8].len());
    assert(n[5].len() != n[6].len());
    assert(n[5].len() != n[7].len());
    assert(n[5][0] != n[8][0]);
    assert(n[6].len() != n[7].len());
    assert(n[6].len() != n[8].len());
    assert(n[7].len() != n[8].len());
    assert forall|i: int, j: int| 0 <= i < 9 && 0 <= j < 9 && i != j implies n[i] != n[j] by {
        assert(i == 0 || i == 1 || i == 2 || i == 3 || i == 4 || i == 5 || i == 6 || i == 7 || i == 8);
        assert(j == 0 || j == 1 || j == 2 || j == 3 || j == 4 || j == 5 || j == 6 || j == 7 || j == 8);
    }
    assert("docker://info"@.len() != "docker://version"@.len());
    assert("generate-dockerfile"@.len() != "generate-compose"@.len());
}

/// An address template as values: its pattern, name and media type.
pub open spec fn template_view(t: ResourceTemplate) -> (Seq<char>, Seq<char>, Option<Seq<char>>) {
    (
        t.uri_template@,
        t.name@,
        match t.mime_type {
            Some(m) => Some(m@),
            None => None,
        },
    )
}

/// The address templates offered for reading containers, images and compose projects.
pub open spec fn standard_templates() -> Seq<(Seq<char>, Seq<char>, Option<Seq<char>>)> {
    seq![
        ("docker://container/{container_id}"@, "Container Details"@, Some("application/json"@)),
        ("docker://image/{image_id}"@, "Image Details"@, Some("application/json"@)),
        ("docker://compose/{project_directory}"@, "Compose Project Status"@, Some("application/json"@)),
    ]
}

/// The protocol core: admits, authorizes, resolves and answers requests.
pub struct McpServer {
    server: ServerSettings,
    docker: DockerSettings,
    logging: LoggingSettings,
    tools: Registry<Tool>,
    resources: Registry<Resource>,
    prompts: Registry<Prompt>,
    security_validator: SecurityValidator,
    rate_limiter: RateLimiter,
}

impl McpServer {
    pub closed spec fn server_settings(&self) -> ServerSettings {
        self.server
    }

    pub closed spec fn tools(&self) -> Registry<Tool> {
        self.tools
    }

    pub closed spec fn resources(&self) -> Registry<Resource> {
        self.resources
    }

    pub closed spec fn prompts(&self) -> Registry<Prompt> {
        self.prompts
    }

    pub closed spec fn validator(&self) -> SecurityValidator {
        self.security_validator
    }

    pub closed spec fn limiter(&self) -> RateLimiter {
        self.rate_limiter
    }

    pub open spec fn wf(&self) -> bool {
        &&& self.tools().wf()
        &&& self.resources().wf()
        &&& self.prompts().wf()
        &&& self.limiter().wf()
    }

    /// Everything but the rate limiter's account is as in `other`.
    pub open spec fn same_but_limiter(&self, other: McpServer) -> bool {
        &&& self.server_settings() == other.server_settings()
        &&& self.docker() == other.docker()
        &&& self.logging() == other.logging()
        &&& self.tools() == other.tools()
        &&& self.resources() == other.resources()
        &&& self.prompts() == other.prompts()
        &&& self.validator() == other.validator()
        &&& self.limiter().settings() == other.limiter().settings()
    }

    /// A server with empty registries, a full rate bucket, and the security
    /// settings in force.
    pub fn new(config: ServerConfig) -> (r: McpServer)
        ensures
            r.wf(),
            r.server_settings() == config.server,
            r.docker() == config.docker,
            r.logging() == config.logging,
            r.tools().entries().len() == 0,
            r.resources().entries().len() == 0,
            r.prompts().entries().len() == 0,
            r.validator().settings() == config.security,
            r.limiter().settings() == config.security.rate_limiting,
            r.limiter().credit() == crate::security::full_credit(config.security.rate_limiting),
    {
        let rate_limiter = RateLimiter::new(&config.security.rate_limiting);
        let ServerConfig { server, docker, security, logging } = config;
        McpServer {
            server,
            docker,
            logging,
            tools: Registry::new(),
            resources: Registry::new(),
            prompts: Registry::new(),
            security_validator: SecurityValidator::new(security),
            rate_limiter,
        }
    }

    pub fn get_transport_type(&self) -> (r: TransportType)
        ensures
            r == self.server_settings().transport,
    {
        self.server.transport
    }

    /// The deadline of one request, in milliseconds.
    pub fn get_request_timeout(&self) -> (r: u64)
        ensures
            r == self.server_settings().request_timeout,
    {
        self.server.request_timeout
    }

    pub closed spec fn docker(&self) -> DockerSettings {
        self.docker
    }

    pub closed spec fn logging(&self) -> LoggingSettings {
        self.logging
    }

    pub fn docker_settings(&self) -> (r: &DockerSettings)
        ensures
            *r == self.docker(),
    {
        &self.docker
    }

    pub fn logging_settings(&self) -> (r: &LoggingSettings)
        ensures
            *r == self.logging(),
    {
        &self.logging
    }

    /// The registries hold exactly the standard descriptors: each keyed by its
    /// own name or address, tools with their required arguments, prompts with
    /// their arguments and which of them are required.
    pub open spec fn standard_registered(&self) -> bool {
        let ts = self.tools().entries();
        let rs = self.resources().entries();
        let ps = self.prompts().entries();
        &&& self.tools().keys() == standard_tools()
        &&& self.resources().keys() == standard_resources()
        &&& self.prompts().keys() == standard_prompts()
        &&& forall|i: int|
            0 <= i < ts.len() ==> (#[trigger] ts[i]).1.name@ == ts[i].0@ && strings_view(
                ts[i].1.required_args@,
            ) == standard_required(i)
        &&& forall|i: int| 0 <= i < rs.len() ==> (#[trigger] rs[i]).1.uri@ == rs[i].0@
        &&& forall|i: int|
            0 <= i < ps.len() ==> (#[trigger] ps[i]).1.name@ == ps[i].0@ && params_view(
                ps[i].1.arguments@,
            ) == standard_prompt_params(i)
    }

    /// The registries are all empty.
    pub open spec fn unregistered(&self) -> bool {
        &&& self.tools().entries().len() == 0
        &&& self.resources().entries().len() == 0
        &&& self.prompts().entries().len() == 0
    }

    /// Register the standard tools, resources and prompts. On a server whose
    /// registries are empty this succeeds; a name registered twice is refused.
    pub fn initialize(&mut self) -> (r: Result<(), McpError>)
        requires
            old(self).wf(),
        ensures
            final(self).wf(),
            final(self).server_settings() == old(self).server_settings(),
            final(self).docker() == old(self).docker(),
            final(self).logging() == old(self).logging(),
            final(self).validator() == old(self).validator(),
            final(self).limiter() == old(self).limiter(),
            old(self).unregistered() ==> r is Ok,
            r is Ok && old(self).unregistered() ==> final(self).standard_registered(),
    {
        let ghost empty = old(self).unregistered();
        proof {
            lemma_standard_names_distinct();
        }
        let list = standard_tool_list();
        let mut i: usize = 0;
        while i < list.len()
            invariant
                list@.len() == standard_tools().len(),
                forall|k: int|
                    0 <= k < list@.len() ==> (#[trigger] list@[k]).name@ == standard_tools()[k]
                        && strings_view(list@[k].required_args@) == standard_required(k),
                forall|k: int, j: int|
                    0 <= k < standard_tools().len() && 0 <= j < standard_tools().len() && k != j
                        ==> standard_tools()[k] != standard_tools()[j],
                i <= list@.len(),
                empty == old(self).unregistered(),
                self.wf(),
                self.server_settings() == old(self).server_settings(),
                self.docker() == old(self).docker(),
                self.logging() == old(self).logging(),
                self.validator() == old(self).validator(),
                self.limiter() == old(self).limiter(),
                self.resources() == old(self).resources(),
                self.prompts() == old(self).prompts(),
                empty ==> self.tools().entries().len() == i,
                empty ==> forall|k: int|
                    0 <= k < i ==> (#[trigger] self.tools().entries()[k]).0@ == standard_tools()[k]
                        && same_tool(self.tools().entries()[k].1, list@[k]),
            decreases list@.len() - i,
        {
            let t = list[i].duplicate();
            proof {
                if empty {
                    assert forall|k: int|
                        0 <= k < self.tools().entries().len() implies #[trigger] self.tools().entries()[k].0@
                        != t.name@ by {
                        assert(self.tools().entries()[k].0@ == standard_tools()[k]);
                    }
                }
            }
            let key = t.name.clone();
            self.tools.register(key, t)?;
            i = i + 1;
        }
        self.resources.register(
            "docker://info".to_string(),
            Resource {
                uri: "docker://info".to_string(),
                name: "Docker Info".to_string(),
                description: some_text("Information about the Docker host system"),
                mime_type: some_text("application/json"),
                text: None,
                blob: None,
            },
        )?;
        self.resources.register(
            "docker://version".to_string(),
            Resource {
                uri: "docker://version".to_string(),
                name: "Docker Version".to_string(),
                description: some_text("Docker version information"),
                mime_type: some_text("application/json"),
                text: None,
                blob: None,
            },
        )?;
        let mut dockerfile_args: Vec<PromptArgument> = Vec::new();
        dockerfile_args.push(
            prompt_arg("app_type", "Type of application (e.g., nodejs, python, go, rust)", true),
        );
        dockerfile_args.push(prompt_arg("version", "Version of the application runtime", false));
        dockerfile_args.push(
            prompt_arg("production", "Whether this is for production use (yes/no)", false),
        );
        assert(params_view(dockerfile_args@) =~= standard_prompt_params(0));
        self.prompts.register(
            "generate-dockerfile".to_string(),
            Prompt {
                name: "generate-dockerfile".to_string(),
                description: some_text(
                    "Generate an optimized Dockerfile for a specific application type",
                ),
                arguments: dockerfile_args,
            },
        )?;
        let mut compose_args: Vec<PromptArgument> = Vec::new();
        compose_args.push(
            prompt_arg("scenario", "Type of scenario (e.g., webapp, database, microservices)", true),
        );
        compose_args.push(prompt_arg("services", "Comma-separated list of services to include", true));
        compose_args.push(
            prompt_arg("with_volumes", "Whether to include persistent volumes (yes/no)", false),
        );
        assert(params_view(compose_args@) =~= standard_prompt_params(1));
        self.prompts.register(
            "generate-compose".to_string(),
            Prompt {
                name: "generate-compose".to_string(),
                description: some_text(
                    "Generate a Docker Compose configuration for a specific scenario",
                ),
                arguments: compose_args,
            },
        )?;
        proof {
            if empty {
                assert(self.tools().keys() =~= standard_tools());
                assert(self.resources().keys() =~= standard_resources());
                assert(self.prompts().keys() =~= standard_prompts());
            }
        }
        Ok(())
    }

    /// The request is refused by the rate limiter at `now`.
    pub open spec fn rate_limited(&self, now: nat) -> bool {
        !self.limiter().admits_at(now)
    }

    /// The verdict on `tools/call` of tool `name` with `args`: policy first,
    /// then the registry, then the required arguments.
    pub open spec fn call_tool_verdict(&self, name: Seq<char>, args: JsonValue) -> Verdict {
        if !tool_permitted(self.validator().settings(), name, args) {
            Verdict::Fail(8)
        } else if !has_key(self.tools().entries(), name) {
            Verdict::Fail(2)
        } else if tool_lacks_args(self.tools().entries(), name, args) {
            Verdict::Fail(-32602)
        } else {
            match tool_op_of(name) {
                Some(op) => Verdict::Run(op),
                None => Verdict::Fail(2),
            }
        }
    }

    /// The verdict on `resources/read` of `uri`: policy first, then the fixed
    /// resources, then the address templates.
    pub open spec fn read_verdict(&self, uri: Seq<char>) -> Verdict {
        if !resource_permitted(self.validator().settings(), uri) {
            Verdict::Fail(8)
        } else if has_key(self.resources().entries(), uri) {
            match static_target(uri) {
                Some(t) => Verdict::Read(t),
                None => Verdict::Fail(1),
            }
        } else if is_prefix(container_scheme(), uri) {
            Verdict::Read(ResourceTarget::Container(after(uri, container_scheme().len())))
        } else if is_prefix(image_scheme(), uri) {
            Verdict::Read(ResourceTarget::Image(after(uri, image_scheme().len())))
        } else if is_prefix(compose_scheme(), uri) {
            Verdict::Read(ResourceTarget::Compose(after(uri, compose_scheme().len())))
        } else {
            Verdict::Fail(1)
        }
    }

    /// The verdict on `prompts/get` of prompt `name` with `args`.
    pub open spec fn prompt_verdict(
        &self,
        name: Seq<char>,
        args: Option<Seq<(String, String)>>,
    ) -> Verdict {
        if !has_key(self.prompts().entries(), name) {
            Verdict::Fail(3)
        } else if prompt_lacks_args(self.prompts().entries(), name, args) {
            Verdict::Fail(-32602)
        } else if name == "generate-dockerfile"@ {
            if arg_in(args, "app_type"@) is None {
                Verdict::Fail(-32602)
            } else {
                Verdict::Answer
            }
        } else if name == "generate-compose"@ {
            if arg_in(args, "scenario"@) is None || arg_in(args, "services"@) is None {
                Verdict::Fail(-32602)
            } else {
                Verdict::Answer
            }
        } else {
            Verdict::Fail(3)
        }
    }

    /// The full outcome of `tools/call` of `name` with `args`: the validator's
    /// refusal as it stands, an unknown tool or a missing argument by name, or
    /// the tool's operation on exactly these arguments.
    pub open spec fn call_tool_detail(&self, name: Seq<char>, args: JsonValue, d: Dispatch) -> bool {
        let es = self.tools().entries();
        if !tool_permitted(self.validator().settings(), name, args) {
            exists|e: McpError|
                #[trigger] tool_refusal(self.validator().settings(), name, args, e) && fails_as(d, e)
        } else if !has_key(es, name) {
            fails_with(d, 2, "Tool not found: "@ + name)
        } else if tool_lacks_args(es, name, args) {
            exists|a: Seq<char>|
                #[trigger] tool_missing_named(es, name, args, a) && fails_with(
                    d,
                    -32602,
                    missing_message(a),
                )
        } else {
            match tool_op_of(name) {
                Some(op) => d matches Dispatch::Invoke {
                    call: BackendCall::Tool { op: o, arguments },
                    ..
                } && o == op && arguments == args,
                None => fails_with(d, 2, "Tool not found: "@ + name),
            }
        }
    }

    /// The full outcome of `resources/read` of `uri`: the validator's refusal
    /// as it stands, a read of the address with its media type, or an unknown
    /// resource by address.
    pub open spec fn read_detail(&self, uri: Seq<char>, d: Dispatch) -> bool {
        let es = self.resources().entries();
        if !resource_permitted(self.validator().settings(), uri) {
            exists|e: McpError|
                #[trigger] resource_refusal(self.validator().settings(), uri, e) && fails_as(d, e)
        } else if has_key(es, uri) {
            match static_target(uri) {
                Some(_) => reads(d, uri) && exists|i: int|
                    0 <= i < es.len() && (#[trigger] es[i]).0@ == uri && read_mime(d)
                        == es[i].1.mime_type,
                None => fails_with(d, 1, "Resource not found: "@ + uri),
            }
        } else if is_prefix(container_scheme(), uri) || is_prefix(image_scheme(), uri) || is_prefix(
            compose_scheme(),
            uri,
        ) {
            reads(d, uri) && read_mime(d) is Some && read_mime(d).unwrap()@ == "application/json"@
        } else {
            fails_with(d, 1, "Resource not found: "@ + uri)
        }
    }

    /// The full outcome of `prompts/get` of `name` with `args`.
    pub open spec fn prompt_detail(
        &self,
        name: Seq<char>,
        args: Option<Seq<(String, String)>>,
        r: JsonRpcResponse,
    ) -> bool {
        let d = Dispatch::Respond(r);
        let es = self.prompts().entries();
        if !has_key(es, name) {
            fails_with(d, 3, "Prompt not found: "@ + name)
        } else if prompt_lacks_args(es, name, args) {
            match args {
                None => fails_with(d, -32602, "Required arguments are missing"@),
                Some(_) => exists|a: Seq<char>|
                    #[trigger] prompt_missing_named(es, name, args, a) && fails_with(
                        d,
                        -32602,
                        missing_message(a),
                    ),
            }
        } else if name == "generate-dockerfile"@ {
            if arg_in(args, "app_type"@) is None {
                fails_with(d, -32602, "Missing required argument 'app_type'"@)
            } else {
                dockerfile_answer(args, r)
            }
        } else if name == "generate-compose"@ {
            if arg_in(args, "scenario"@) is None {
                fails_with(d, -32602, "Missing required argument 'scenario'"@)
            } else if arg_in(args, "services"@) is None {
                fails_with(d, -32602, "Missing required argument 'services'"@)
            } else {
                compose_answer(args, r)
            }
        } else {
            fails_with(d, 3, "Prompt not found: "@ + name)
        }
    }

    /// The full outcome of an admitted request, by method: the handler's answer
    /// for listings and `initialize`, the handler's outcome for calls, reads and
    /// prompts, and an unknown method reported by name.
    pub open spec fn request_detail(&self, request: JsonRpcRequest, d: Dispatch) -> bool {
        let m = request.method@;
        if m == "initialize"@ {
            d matches Dispatch::Respond(resp) && self.initialize_answer(resp)
        } else if m == "tools/list"@ {
            d matches Dispatch::Respond(resp) && self.tools_listing(resp)
        } else if m == "resources/list"@ {
            d matches Dispatch::Respond(resp) && self.resources_listing(resp)
        } else if m == "prompts/list"@ {
            d matches Dispatch::Respond(resp) && self.prompts_listing(resp)
        } else if m == "tools/call"@ {
            match request.params {
                None => fails_with(d, -32602, "Missing params"@),
                Some(p) => match call_tool_params(p) {
                    None => verdict_of(d) == Verdict::Fail(-32602),
                    Some(np) => self.call_tool_detail(np.0, np.1, d),
                },
            }
        } else if m == "resources/read"@ {
            match request.params {
                None => fails_with(d, -32602, "Missing params"@),
                Some(p) => match str_member(p, "uri"@) {
                    None => verdict_of(d) == Verdict::Fail(-32602),
                    Some(u) => self.read_detail(u, d),
                },
            }
        } else if m == "prompts/get"@ {
            match request.params {
                None => fails_with(d, -32602, "Missing params"@),
                Some(p) => if str_member(p, "name"@) is Some && prompt_args_ok(p) {
                    d matches Dispatch::Respond(resp) && self.prompt_detail(
                        str_member(p, "name"@).unwrap(),
                        prompt_args_view(p),
                        resp,
                    )
                } else {
                    verdict_of(d) == Verdict::Fail(-32602)
                },
            }
        } else {
            fails_with(d, -32601, "Method '"@ + m + "' not found"@)
        }
    }

    /// The verdict on an admitted request.
    pub open spec fn request_verdict(&self, request: JsonRpcRequest) -> Verdict {
        let m = request.method@;
        if m == "initialize"@ || m == "tools/list"@ || m == "resources/list"@ || m
            == "prompts/list"@ {
            Verdict::Answer
        } else if m == "tools/call"@ {
            match request.params {
                None => Verdict::Fail(-32602),
                Some(p) => match call_tool_params(p) {
                    None => Verdict::Fail(-32602),
                    Some(np) => self.call_tool_verdict(np.0, np.1),
                },
            }
        } else if m == "resources/read"@ {
            match request.params {
                None => Verdict::Fail(-32602),
                Some(p) => match str_member(p, "uri"@) {
                    None => Verdict::Fail(-32602),
                    Some(u) => self.read_verdict(u),
                },
            }
        } else if m == "prompts/get"@ {
            match request.params {
                None => Verdict::Fail(-32602),
                Some(p) => if str_member(p, "name"@) is Some && prompt_args_ok(p) {
                    self.prompt_verdict(str_member(p, "name"@).unwrap(), prompt_args_view(p))
                } else {
                    Verdict::Fail(-32602)
                },
            }
        } else {
            Verdict::Fail(-32601)
        }
    }

    /// The answer to `initialize`: the server's name and version, and every
    /// kind of capability with change notification.
    pub open spec fn initialize_answer(&self, r: JsonRpcResponse) -> bool {
        r.body matches Ok(ResultBody::Initialize(i)) && i.server.name == self.server_settings().name
            && i.server.version == self.server_settings().version && i.capabilities
            == (ServerCapabilities {
            resources: Some(ListChanged { list_changed: true }),
            tools: Some(ListChanged { list_changed: true }),
            prompts: Some(ListChanged { list_changed: true }),
        })
    }

    /// The tool listing: every registered tool, in order of registration.
    pub open spec fn tools_listing(&self, r: JsonRpcResponse) -> bool {
        r.body matches Ok(ResultBody::ListTools(l)) && l.tools@.len() == self.tools().entries().len()
            && forall|i: int|
            0 <= i < l.tools@.len() ==> same_tool(#[trigger] l.tools@[i], self.tools().entries()[i].1)
    }

    /// The resource listing: every registered resource, in order of
    /// registration, and the three address templates.
    pub open spec fn resources_listing(&self, r: JsonRpcResponse) -> bool {
        r.body matches Ok(ResultBody::ListResources(l)) && l.resources@.len()
            == self.resources().entries().len() && (forall|i: int|
            0 <= i < l.resources@.len() ==> #[trigger] l.resources@[i]
                == self.resources().entries()[i].1) && l.resource_templates is Some
            && l.resource_templates.unwrap()@.map_values(|t: ResourceTemplate| template_view(t))
            == standard_templates()
    }

    /// The prompt listing: every registered prompt, in order of registration.
    pub open spec fn prompts_listing(&self, r: JsonRpcResponse) -> bool {
        r.body matches Ok(ResultBody::ListPrompts(l)) && l.prompts@.len()
            == self.prompts().entries().len() && forall|i: int|
            0 <= i < l.prompts@.len() ==> same_prompt(
                #[trigger] l.prompts@[i],
                self.prompts().entries()[i].1,
            )
    }

    /// The answer to `initialize`: who the server is and what it offers.
    pub fn handle_initialize(&self, id: JsonRpcId) -> (r: JsonRpcResponse)
        ensures
            r.id == id,
            self.initialize_answer(r),
    {
        let server = ServerInfo { name: self.server.name.clone(), version: self.server.version.clone() };
        let on = ListChanged { list_changed: true };
        let capabilities = ServerCapabilities { resources: Some(on), tools: Some(on), prompts: Some(on) };
        JsonRpcResponse {
            id,
            body: Ok(ResultBody::Initialize(InitializeResult { server, capabilities })),
        }
    }

    /// Every registered tool, in order of registration.
    pub fn handle_list_tools(&self, id: JsonRpcId) -> (r: JsonRpcResponse)
        ensures
            r.id == id,
            self.tools_listing(r),
    {
        let mut tools: Vec<Tool> = Vec::new();
        let mut i: usize = 0;
        while i < self.tools.len()
            invariant
                i <= self.tools().entries().len(),
                tools@.len() == i,
                forall|j: int|
                    0 <= j < i ==> same_tool(#[trigger] tools@[j], self.tools().entries()[j].1),
            decreases self.tools().entries().len() - i,
        {
            tools.push(self.tools.entry(i).1.duplicate());
            i = i + 1;
        }
        JsonRpcResponse { id, body: Ok(ResultBody::ListTools(ListToolsResult { tools })) }
    }

    /// Every registered resource, and the address templates.
    pub fn handle_list_resources(&self, id: JsonRpcId) -> (r: JsonRpcResponse)
        ensures
            r.id == id,
            self.resources_listing(r),
    {
        let mut resources: Vec<Resource> = Vec::new();
        let mut i: usize = 0;
        while i < self.resources.len()
            invariant
                i <= self.resources().entries().len(),
                resources@.len() == i,
                forall|j: int|
                    0 <= j < i ==> #[trigger] resources@[j] == self.resources().entries()[j].1,
            decreases self.resources().entries().len() - i,
        {
            resources.push(self.resources.entry(i).1.duplicate());
            i = i + 1;
        }
        let mut templates: Vec<ResourceTemplate> = Vec::new();
        templates.push(
            ResourceTemplate {
                uri_template: "docker://container/{container_id}".to_string(),
                name: "Container Details".to_string(),
                description: some_text("Information about a specific container"),
                mime_type: some_text("application/json"),
            },
        );
        templates.push(
            ResourceTemplate {
                uri_template: "docker://image/{image_id}".to_string(),
                name: "Image Details".to_string(),
                description: some_text("Information about a specific image"),
                mime_type: some_text("application/json"),
            },
        );
        templates.push(
            ResourceTemplate {
                uri_template: "docker://compose/{project_directory}".to_string(),
                name: "Compose Project Status".to_string(),
                description: some_text("Status of a Docker Compose project"),
                mime_type: some_text("application/json"),
            },
        );
        assert(templates@.map_values(|t: ResourceTemplate| template_view(t)) =~= standard_templates());
        JsonRpcResponse {
            id,
            body: Ok(
                ResultBody::ListResources(
                    ListResourcesResult { resources, resource_templates: Some(templates) },
                ),
            ),
        }
    }

    /// Every registered prompt, in order of registration.
    pub fn handle_list_prompts(&self, id: JsonRpcId) -> (r: JsonRpcResponse)
        ensures
            r.id == id,
            self.prompts_listing(r),
    {
        let mut prompts: Vec<Prompt> = Vec::new();
        let mut i: usize = 0;
        while i < self.prompts.len()
            invariant
                i <= self.prompts().entries().len(),
                prompts@.len() == i,
                forall|j: int|
                    0 <= j < i ==> same_prompt(#[trigger] prompts@[j], self.prompts().entries()[j].1),
            decreases self.prompts().entries().len() - i,
        {
            prompts.push(self.prompts.entry(i).1.duplicate());
            i = i + 1;
        }
        JsonRpcResponse { id, body: Ok(ResultBody::ListPrompts(ListPromptsResult { prompts })) }
    }

    /// Resolve a tool call: check the policy, find the tool, check its
    /// required arguments, and hand its operation to the backend.
    #[verifier::loop_isolation(false)]
    pub fn handle_call_tool(&self, id: JsonRpcId, request: CallToolRequest) -> (r: Dispatch)
        requires
            self.wf(),
        ensures
            dispatch_id(r) == id,
            verdict_of(r) == self.call_tool_verdict(request.name@, request.arguments),
            self.call_tool_detail(request.name@, request.arguments, r),
    {
        match self.security_validator.validate_tool(&request) {
            Err(e) => {
                let ghost refusal = e;
                let d = Dispatch::Respond(error_response(id, e));
                assert(tool_refusal(self.validator().settings(), request.name@, request.arguments, refusal)
                    && fails_as(d, refusal));
                return d;
            },
            Ok(()) => {},
        }
        let t = match self.tools.lookup(request.name.as_str()) {
            Some(t) => t,
            None => {
                return Dispatch::Respond(error_response(id, McpError::ToolNotFound(request.name)));
            },
        };
        let ghost es = self.tools().entries();
        let ghost i0 = choose|i: int| 0 <= i < es.len() && es[i].0@ == request.name@ && es[i].1 == *t;
        let mut k: usize = 0;
        while k < t.required_args.len()
            invariant
                k <= t.required_args@.len(),
                0 <= i0 < es.len(),
                es[i0].0@ == request.name@,
                es[i0].1 == *t,
                forall|j: int| 0 <= j < k ==> member(request.arguments, (#[trigger] t.required_args@[j])@) is Some,
            decreases t.required_args@.len() - k,
        {
            if request.arguments.get(t.required_args[k].as_str()).is_none() {
                assert(tool_args_missing(es[i0].1.required_args@, request.arguments));
                let ghost a = t.required_args@[k as int]@;
                assert(tool_missing_named(es, request.name@, request.arguments, a)) by {
                    assert(es[i0].1.required_args@[k as int]@ == a);
                }
                let d = Dispatch::Respond(error_response(id, missing_arg(t.required_args[k].as_str())));
                assert(fails_with(d, -32602, missing_message(a)));
                return d;
            }
            k = k + 1;
        }
        assert forall|i: int| 0 <= i < es.len() && (#[trigger] es[i]).0@ == request.name@ implies !tool_args_missing(
            es[i].1.required_args@,
            request.arguments,
        ) by {
            assert(i == i0);
        }
        match tool_op(request.name.as_str()) {
            Some(op) => Dispatch::Invoke {
                id,
                call: BackendCall::Tool { op, arguments: request.arguments },
            },
            None => Dispatch::Respond(error_response(id, McpError::ToolNotFound(request.name))),
        }
    }

    /// Resolve a resource read: check the policy, then the fixed resources,
    /// then the address templates, and hand the read to the backend.
    pub fn handle_read_resource(&self, id: JsonRpcId, request: ReadResourceRequest) -> (r: Dispatch)
        requires
            self.wf(),
        ensures
            dispatch_id(r) == id,
            verdict_of(r) == self.read_verdict(request.uri@),
            r matches Dispatch::Invoke { call: BackendCall::Read { uri, .. }, .. } ==> uri == request.uri,
            self.read_detail(request.uri@, r),
    {
        match self.security_validator.validate_resource(&request) {
            Err(e) => {
                let ghost refusal = e;
                let d = Dispatch::Respond(error_response(id, e));
                assert(resource_refusal(self.validator().settings(), request.uri@, refusal) && fails_as(
                    d,
                    refusal,
                ));
                return d;
            },
            Ok(()) => {},
        }
        let uri = request.uri.as_str();
        match self.resources.lookup(uri) {
            Some(res) => {
                let op = if str_eq(uri, "docker://info") {
                    ResourceOp::Info
                } else if str_eq(uri, "docker://version") {
                    ResourceOp::Version
                } else {
                    return Dispatch::Respond(
                        error_response(id, McpError::ResourceNotFound(request.uri.clone())),
                    );
                };
                let ghost es = self.resources().entries();
                let ghost i0 = choose|i: int|
                    0 <= i < es.len() && es[i].0@ == request.uri@ && es[i].1 == *res;
                let mime_type = copy_opt(&res.mime_type);
                let d = Dispatch::Invoke { id, call: BackendCall::Read { uri: request.uri, mime_type, op } };
                assert(es[i0].0@ == request.uri@ && read_mime(d) == es[i0].1.mime_type);
                d
            },
            None => {
                let op = if starts_with(uri, "docker://container/") {
                    ResourceOp::Container(crate::security::strip_scheme(uri, "docker://container/"))
                } else if starts_with(uri, "docker://image/") {
                    ResourceOp::Image(crate::security::strip_scheme(uri, "docker://image/"))
                } else if starts_with(uri, "docker://compose/") {
                    ResourceOp::Compose(crate::security::strip_scheme(uri, "docker://compose/"))
                } else {
                    return Dispatch::Respond(
                        error_response(id, McpError::ResourceNotFound(request.uri.clone())),
                    );
                };
                Dispatch::Invoke {
                    id,
                    call: BackendCall::Read {
                        uri: request.uri,
                        mime_type: some_text("application/json"),
                        op,
                    },
                }
            },
        }
    }

    /// Resolve a prompt: find it, check its required arguments, and fill in
    /// its template.
    #[verifier::loop_isolation(false)]
    pub fn handle_get_prompt(&self, id: JsonRpcId, request: GetPromptRequest) -> (r: JsonRpcResponse)
        requires
            self.wf(),
        ensures
            r.id == id,
            verdict_of(Dispatch::Respond(r)) == self.prompt_verdict(
                request.name@,
                args_view(request.arguments),
            ),
            self.prompt_detail(request.name@, args_view(request.arguments), r),
    {
        proof {
            reveal_strlit("generate-dockerfile");
            reveal_strlit("generate-compose");
            assert("generate-dockerfile"@.len() != "generate-compose"@.len());
        }
        let ghost args = args_view(request.arguments);
        let p = match self.prompts.lookup(request.name.as_str()) {
            Some(p) => p,
            None => {
                return error_response(id, McpError::PromptNotFound(request.name));
            },
        };
        let ghost es = self.prompts().entries();
        let ghost i0 = choose|i: int| 0 <= i < es.len() && es[i].0@ == request.name@ && es[i].1 == *p;
        let mut k: usize = 0;
        while k < p.arguments.len()
            invariant
                k <= p.arguments@.len(),
                0 <= i0 < es.len(),
                es[i0].0@ == request.name@,
                es[i0].1 == *p,
                args == args_view(request.arguments),
                forall|j: int|
                    0 <= j < k ==> !(#[trigger] p.arguments@[j]).required || arg_in(
                        args,
                        p.arguments@[j].name@,
                    ) is Some,
            decreases p.arguments@.len() - k,
        {
            let a = &p.arguments[k];
            if a.required {
                match &request.arguments {
                    Some(given) => {
                        if find_arg(given, a.name.as_str()).is_none() {
                            assert(prompt_args_missing(es[i0].1.arguments@, args));
                            assert(prompt_missing_named(es, request.name@, args, a.name@)) by {
                                assert(es[i0].1.arguments@[k as int] == *a);
                            }
                            return error_response(id, missing_arg(a.name.as_str()));
                        }
                    },
                    None => {
                        assert(prompt_args_missing(es[i0].1.arguments@, args));
                        return error_response(
                            id,
                            McpError::InvalidParams("Required arguments are missing".to_string()),
                        );
                    },
                }
            }
            k = k + 1;
        }
        assert forall|i: int| 0 <= i < es.len() && (#[trigger] es[i]).0@ == request.name@ implies !prompt_args_missing(
            es[i].1.arguments@,
            args,
        ) by {
            assert(i == i0);
        }
        let generated = if str_eq(request.name.as_str(), "generate-dockerfile") {
            generate_dockerfile_prompt(&request.arguments)
        } else if str_eq(request.name.as_str(), "generate-compose") {
            generate_compose_prompt(&request.arguments)
        } else {
            Err(McpError::PromptNotFound(request.name))
        };
        match generated {
            Ok(g) => JsonRpcResponse { id, body: Ok(ResultBody::GetPrompt(g)) },
            Err(e) => error_response(id, e),
        }
    }

    /// Dispatch one request arriving at time `now` (milliseconds): admit it
    /// through the rate limiter, then route it by method. Listing and
    /// handshake methods pass no policy check; only the rate limiter can stop them.
    pub fn process_request(&mut self, request: JsonRpcRequest, now: u64) -> (r: Dispatch)
        requires
            old(self).wf(),
        ensures
            final(self).wf(),
            final(self).same_but_limiter(*old(self)),
            final(self).limiter().credit() == old(self).limiter().credit_after(now as nat),
            final(self).limiter().last_refill() == old(self).limiter().last_after(now as nat),
            dispatch_id(r) == request.id,
            old(self).rate_limited(now as nat) ==> verdict_of(r) == Verdict::Fail(6),
            !old(self).rate_limited(now as nat) ==> verdict_of(r) == old(self).request_verdict(
                request,
            ),
            old(self).rate_limited(now as nat) ==> fails_with(r, 6, "Rate limit exceeded"@),
            !old(self).rate_limited(now as nat) ==> old(self).request_detail(request, r),
    {
        match self.rate_limiter.check(now) {
            Err(e) => {
                return Dispatch::Respond(error_response(request.id, e));
            },
            Ok(()) => {},
        }
        proof {
            reveal_strlit("initialize");
            reveal_strlit("tools/list");
            assert("initialize"@[0] != "tools/list"@[0]);
        }
        let JsonRpcRequest { jsonrpc: _, id, method, params } = request;
        let m = method.as_str();
        if str_eq(m, "initialize") {
            Dispatch::Respond(self.handle_initialize(id))
        } else if str_eq(m, "tools/list") {
            Dispatch::Respond(self.handle_list_tools(id))
        } else if str_eq(m, "resources/list") {
            Dispatch::Respond(self.handle_list_resources(id))
        } else if str_eq(m, "prompts/list") {
            Dispatch::Respond(self.handle_list_prompts(id))
        } else if str_eq(m, "tools/call") {
            match params {
                None => Dispatch::Respond(error_response(id, missing_params())),
                Some(p) => match CallToolRequest::from_json(p) {
                    Ok(call) => self.handle_call_tool(id, call),
                    Err(e) => Dispatch::Respond(error_response(id, e)),
                },
            }
        } else if str_eq(m, "resources/read") {
            match params {
                None => Dispatch::Respond(error_response(id, missing_params())),
                Some(p) => match ReadResourceRequest::from_json(&p) {
                    Ok(read) => self.handle_read_resource(id, read),
                    Err(e) => Dispatch::Respond(error_response(id, e)),
                },
            }
        } else if str_eq(m, "prompts/get") {
            match params {
                None => Dispatch::Respond(error_response(id, missing_params())),
                Some(p) => match GetPromptRequest::from_json(&p) {
                    Ok(get) => Dispatch::Respond(self.handle_get_prompt(id, get)),
                    Err(e) => Dispatch::Respond(error_response(id, e)),
                },
            }
        } else {
            let mut message = join2("Method '", m);
            message.append("' not found");
            Dispatch::Respond(error_response(id, McpError::MethodNotFound(message)))
        }
    }
}

/// The argument `key` of an optional list of arguments.
pub open spec fn arg_in(args: Option<Seq<(String, String)>>, key: Seq<char>) -> Option<Seq<char>> {
    match args {
        Some(a) => arg_of(a, key),
        None => None,
    }
}

/// Some required argument of a tool is not a member of `args`.
pub open spec fn tool_args_missing(required: Seq<String>, args: JsonValue) -> bool {
    exists|i: int| 0 <= i < required.len() && member(args, (#[trigger] required[i])@) is None
}

/// The tool registered as `name` lacks a required argument in `args`.
pub open spec fn tool_lacks_args(es: Seq<(String, Tool)>, name: Seq<char>, args: JsonValue) -> bool {
    exists|i: int|
        0 <= i < es.len() && (#[trigger] es[i]).0@ == name && tool_args_missing(
            es[i].1.required_args@,
            args,
        )
}

/// Some required argument of a prompt is not given.
pub open spec fn prompt_args_missing(
    params: Seq<PromptArgument>,
    args: Option<Seq<(String, String)>>,
) -> bool {
    exists|j: int|
        0 <= j < params.len() && (#[trigger] params[j]).required && arg_in(args, params[j].name@)
            is None
}

/// The prompt registered as `name` lacks a required argument.
pub open spec fn prompt_lacks_args(
    es: Seq<(String, Prompt)>,
    name: Seq<char>,
    args: Option<Seq<(String, String)>>,
) -> bool {
    exists|i: int|
        0 <= i < es.len() && (#[trigger] es[i]).0@ == name && prompt_args_missing(
            es[i].1.arguments@,
            args,
        )
}

/// The backend read behind each fixed resource.
pub open spec fn static_target(uri: Seq<char>) -> Option<ResourceTarget> {
    if uri == "docker://info"@ {
        Some(ResourceTarget::Info)
    } else if uri == "docker://version"@ {
        Some(ResourceTarget::Version)
    } else {
        None
    }
}

/// The dispatch is an error response with this code and message, and no data.
pub open spec fn fails_with(d: Dispatch, code: int, message: Seq<char>) -> bool {
    d matches Dispatch::Respond(resp) && resp.body is Err && resp.body->Err_0.code as int == code
        && resp.body->Err_0.message@ == message && resp.body->Err_0.data is None
}

/// The dispatch reports `e`.
pub open spec fn fails_as(d: Dispatch, e: McpError) -> bool {
    fails_with(d, error_code(e), crate::error::error_message(e))
}

pub open spec fn missing_message(a: Seq<char>) -> Seq<char> {
    "Required argument '"@ + a + "' is missing"@
}

/// `a` is a required argument of the tool registered as `name` that `args` lacks.
pub open spec fn tool_missing_named(
    es: Seq<(String, Tool)>,
    name: Seq<char>,
    args: JsonValue,
    a: Seq<char>,
) -> bool {
    exists|i: int, j: int|
        0 <= i < es.len() && es[i].0@ == name && 0 <= j < es[i].1.required_args@.len() && member(
            args,
            (#[trigger] es[i].1.required_args@[j])@,
        ) is None && a == es[i].1.required_args@[j]@
}

/// `a` is a required argument of the prompt registered as `name` that is not given.
pub open spec fn prompt_missing_named(
    es: Seq<(String, Prompt)>,
    name: Seq<char>,
    args: Option<Seq<(String, String)>>,
    a: Seq<char>,
) -> bool {
    exists|i: int, j: int|
        0 <= i < es.len() && es[i].0@ == name && 0 <= j < es[i].1.arguments@.len()
            && (#[trigger] es[i].1.arguments@[j]).required && arg_in(args, es[i].1.arguments@[j].name@)
            is None && a == es[i].1.arguments@[j].name@
}

/// The dispatch reads the resource at `uri`.
pub open spec fn reads(d: Dispatch, uri: Seq<char>) -> bool {
    d matches Dispatch::Invoke { call: BackendCall::Read { uri: u, .. }, .. } && u@ == uri
}

/// The media type a resource read reports.
pub open spec fn read_mime(d: Dispatch) -> Option<String> {
    match d {
        Dispatch::Invoke { call: BackendCall::Read { mime_type, .. }, .. } => mime_type,
        _ => None,
    }
}

/// The Dockerfile prompt filled in from `args`.
pub open spec fn dockerfile_answer(args: Option<Seq<(String, String)>>, r: JsonRpcResponse) -> bool {
    let app = arg_in(args, "app_type"@).unwrap();
    let version = match arg_in(args, "version"@) {
        Some(v) => v,
        None => "latest"@,
    };
    let production = match arg_in(args, "production"@) {
        Some(v) => v == "yes"@,
        None => true,
    };
    r.body matches Ok(ResultBody::GetPrompt(g)) && is_single_user_text(
        g,
        dockerfile_text(app, version, production),
        dockerfile_description(app, production),
    )
}

/// The Compose prompt filled in from `args`.
pub open spec fn compose_answer(args: Option<Seq<(String, String)>>, r: JsonRpcResponse) -> bool {
    let scenario = arg_in(args, "scenario"@).unwrap();
    let services = arg_in(args, "services"@).unwrap();
    let volumes = match arg_in(args, "with_volumes"@) {
        Some(v) => v == "yes"@,
        None => true,
    };
    r.body matches Ok(ResultBody::GetPrompt(g)) && is_single_user_text(
        g,
        compose_text(scenario, services, volumes),
        compose_description(scenario, services),
    )
}

fn missing_arg(name: &str) -> (r: McpError)
    ensures
        r matches McpError::InvalidParams(m) && m@ == missing_message(name@),
{
    let mut m = join2("Required argument '", name);
    m.append("' is missing");
    McpError::InvalidParams(m)
}

fn missing_params() -> (r: McpError)
    ensures
        r matches McpError::InvalidParams(m) && m@ == "Missing params"@,
{
    McpError::InvalidParams("Missing params".to_string())
}

/// The response for a tool call once the backend has answered.
pub fn complete_tool_call(id: JsonRpcId, outcome: Result<CallToolResult, McpError>) -> (r: JsonRpcResponse)
    ensures
        r.id == id,
        outcome is Ok ==> r.body == Ok::<ResultBody, crate::error::JsonRpcError>(
            ResultBody::CallTool(outcome->Ok_0),
        ),
        outcome is Err ==> r.body is Err && r.body->Err_0.code as int == error_code(outcome->Err_0)
            && r.body->Err_0.message@ == crate::error::error_message(outcome->Err_0),
{
    match outcome {
        Ok(result) => JsonRpcResponse { id, body: Ok(ResultBody::CallTool(result)) },
        Err(e) => error_response(id, e),
    }
}

/// The response for a resource read once the backend has answered with the
/// resource's text.
pub fn complete_read(
    id: JsonRpcId,
    uri: String,
    mime_type: Option<String>,
    outcome: Result<String, McpError>,
) -> (r: JsonRpcResponse)
    ensures
        r.id == id,
        outcome is Ok ==> (r.body matches Ok(ResultBody::ReadResource(rr)) && rr.contents@.len() == 1
            && rr.contents@[0] == (ResourceContent {
            uri,
            mime_type,
            text: Some(outcome->Ok_0),
            blob: None,
        })),
        outcome is Err ==> r.body is Err && r.body->Err_0.code as int == error_code(outcome->Err_0)
            && r.body->Err_0.message@ == crate::error::error_message(outcome->Err_0),
{
    match outcome {
        Ok(text) => {
            let mut contents: Vec<ResourceContent> = Vec::new();
            contents.push(ResourceContent { uri, mime_type, text: Some(text), blob: None });
            JsonRpcResponse { id, body: Ok(ResultBody::ReadResource(ReadResourceResult { contents })) }
        },
        Err(e) => error_response(id, e),
    }
}

} // verus!
