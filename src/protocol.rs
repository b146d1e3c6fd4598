use vstd::prelude::*;

use crate::error::{JsonRpcError, McpError};
use crate::text::str_eq;

verus! {

/// A structured value as it arrives on the wire. Numbers keep their text so
/// that no precision is lost and none is assumed.
#[derive(Debug)]
pub enum JsonValue {
    Null,
    Bool(bool),
    Number(String),
    Str(String),
    Array(Vec<JsonValue>),
    Object(Vec<(String, JsonValue)>),
}

/// The value of the first entry named `key`.
pub open spec fn entry_of(es: Seq<(String, JsonValue)>, key: Seq<char>) -> Option<JsonValue>
    decreases es.len(),
{
    if es.len() == 0 {
        None
    } else if es[0].0@ == key {
        Some(es[0].1)
    } else {
        entry_of(es.drop_first(), key)
    }
}

/// The member `key` of an object; nothing for any other value.
pub open spec fn member(v: JsonValue, key: Seq<char>) -> Option<JsonValue> {
    match v {
        JsonValue::Object(es) => entry_of(es@, key),
        _ => None,
    }
}

/// The member `key` of an object when it is a string.
pub open spec fn str_member(v: JsonValue, key: Seq<char>) -> Option<Seq<char>> {
    match member(v, key) {
        Some(JsonValue::Str(s)) => Some(s@),
        _ => None,
    }
}

/// The entry named `key` among `es`.
pub fn find_entry<'a>(es: &'a Vec<(String, JsonValue)>, key: &str) -> (r: Option<&'a JsonValue>)
    ensures
        r is Some <==> entry_of(es@, key@) is Some,
        r is Some ==> *r.unwrap() == entry_of(es@, key@).unwrap(),
{
    let mut i: usize = 0;
    assert(es@.subrange(0, es@.len() as int) == es@);
    while i < es.len()
        invariant
            i <= es@.len(),
            entry_of(es@, key@) == entry_of(es@.subrange(i as int, es@.len() as int), key@),
        decreases es@.len() - i,
    {
        let ghost rest = es@.subrange(i as int, es@.len() as int);
        assert(rest.drop_first() == es@.subrange(i + 1, es@.len() as int));
        if str_eq(es[i].0.as_str(), key) {
            return Some(&es[i].1);
        }
        i = i + 1;
    }
    None
}

impl JsonValue {
    /// The member `key` of an object.
    pub fn get(&self, key: &str) -> (r: Option<&JsonValue>)
        ensures
            r is Some <==> member(*self, key@) is Some,
            r is Some ==> *r.unwrap() == member(*self, key@).unwrap(),
    {
        match self {
            JsonValue::Object(es) => find_entry(es, key),
            _ => None,
        }
    }

    /// The member `key` of an object when it is a string.
    pub fn get_str(&self, key: &str) -> (r: Option<&String>)
        ensures
            r is Some <==> str_member(*self, key@) is Some,
            r is Some ==> r.unwrap()@ == str_member(*self, key@).unwrap(),
    {
        match self.get(key) {
            Some(JsonValue::Str(s)) => Some(s),
            _ => None,
        }
    }
}

/// Where the first entry named `key` stands among `es`.
pub fn entry_index(es: &Vec<(String, JsonValue)>, key: &str) -> (r: Option<usize>)
    ensures
        r is None <==> entry_of(es@, key@) is None,
        r is Some ==> r.unwrap() < es@.len() && entry_of(es@, key@) == Some(es@[r.unwrap() as int].1),
{
    let mut i: usize = 0;
    assert(es@.subrange(0, es@.len() as int) == es@);
    while i < es.len()
        invariant
            i <= es@.len(),
            entry_of(es@, key@) == entry_of(es@.subrange(i as int, es@.len() as int), key@),
        decreases es@.len() - i,
    {
        let ghost rest = es@.subrange(i as int, es@.len() as int);
        assert(rest.drop_first() == es@.subrange(i + 1, es@.len() as int));
        if str_eq(es[i].0.as_str(), key) {
            return Some(i);
        }
        i = i + 1;
    }
    None
}

/// The identifier of a request; `Null` marks a notification.
#[derive(Debug, Clone)]
pub enum JsonRpcId {
    Null,
    Str(String),
    Number(i64),
}

/// A call issued by a client.
#[derive(Debug)]
pub struct JsonRpcRequest {
    pub jsonrpc: String,
    pub id: JsonRpcId,
    pub method: String,
    pub params: Option<JsonValue>,
}

/// An executable action offered to callers.
#[derive(Debug, Clone)]
pub struct Tool {
    pub name: String,
    pub description: Option<String>,
    /// The JSON schema of the arguments, as JSON text.
    pub input_schema: String,
    /// Arguments that every call must supply.
    pub required_args: Vec<String>,
}

/// A readable resource at a fixed address.
#[derive(Debug, Clone)]
pub struct Resource {
    pub uri: String,
    pub name: String,
    pub description: Option<String>,
    pub mime_type: Option<String>,
    pub text: Option<String>,
    pub blob: Option<String>,
}

/// A family of readable resources whose address carries a variable.
#[derive(Debug, Clone)]
pub struct ResourceTemplate {
    pub uri_template: String,
    pub name: String,
    pub description: Option<String>,
    pub mime_type: Option<String>,
}

#[derive(Debug, Clone)]
pub struct PromptArgument {
    pub name: String,
    pub description: Option<String>,
    pub required: bool,
}

/// A prompt template.
#[derive(Debug, Clone)]
pub struct Prompt {
    pub name: String,
    pub description: Option<String>,
    pub arguments: Vec<PromptArgument>,
}

/// The parameters of `tools/call`.
#[derive(Debug)]
pub struct CallToolRequest {
    pub name: String,
    pub arguments: JsonValue,
}

/// The parameters of `resources/read`.
#[derive(Debug, Clone)]
pub struct ReadResourceRequest {
    pub uri: String,
}

/// The parameters of `prompts/get`.
#[derive(Debug, Clone)]
pub struct GetPromptRequest {
    pub name: String,
    pub arguments: Option<Vec<(String, String)>>,
}

#[derive(Debug, Clone)]
pub struct TextContent {
    pub kind: String,
    pub text: String,
}

#[derive(Debug, Clone)]
pub enum Content {
    Text(TextContent),
}

/// What an action returns.
#[derive(Debug, Clone)]
pub struct CallToolResult {
    pub content: Vec<Content>,
    pub is_error: bool,
}

#[derive(Debug, Clone)]
pub struct ResourceContent {
    pub uri: String,
    pub mime_type: Option<String>,
    pub text: Option<String>,
    pub blob: Option<String>,
}

#[derive(Debug, Clone)]
pub struct ReadResourceResult {
    pub contents: Vec<ResourceContent>,
}

#[derive(Debug, Clone)]
pub struct PromptContent {
    pub kind: String,
    pub text: Option<String>,
    pub resource: Option<ResourceContent>,
}

#[derive(Debug, Clone)]
pub struct PromptMessage {
    pub role: String,
    pub content: PromptContent,
}

#[derive(Debug, Clone)]
pub struct GetPromptResult {
    pub description: Option<String>,
    pub messages: Vec<PromptMessage>,
}

#[derive(Debug, Clone)]
pub struct ServerInfo {
    pub name: String,
    pub version: String,
}

#[derive(Debug, Clone, Copy)]
pub struct ListChanged {
    pub list_changed: bool,
}

#[derive(Debug, Clone, Copy)]
pub struct ServerCapabilities {
    pub resources: Option<ListChanged>,
    pub tools: Option<ListChanged>,
    pub prompts: Option<ListChanged>,
}

#[derive(Debug, Clone)]
pub struct InitializeResult {
    pub server: ServerInfo,
    pub capabilities: ServerCapabilities,
}

#[derive(Debug, Clone)]
pub struct ListToolsResult {
    pub tools: Vec<Tool>,
}

#[derive(Debug, Clone)]
pub struct ListResourcesResult {
    pub resources: Vec<Resource>,
    pub resource_templates: Option<Vec<ResourceTemplate>>,
}

#[derive(Debug, Clone)]
pub struct ListPromptsResult {
    pub prompts: Vec<Prompt>,
}

/// The result member of a successful response.
#[derive(Debug, Clone)]
pub enum ResultBody {
    Initialize(InitializeResult),
    ListTools(ListToolsResult),
    ListResources(ListResourcesResult),
    ListPrompts(ListPromptsResult),
    CallTool(CallToolResult),
    ReadResource(ReadResourceResult),
    GetPrompt(GetPromptResult),
}

/// The answer to one request: a result or an error, never both.
#[derive(Debug)]
pub struct JsonRpcResponse {
    pub id: JsonRpcId,
    pub body: Result<ResultBody, JsonRpcError>,
}

/// The response that reports `error` for the request `id`.
pub fn error_response(id: JsonRpcId, error: McpError) -> (r: JsonRpcResponse)
    ensures
        r.id == id,
        r.body is Err,
        r.body->Err_0.code as int == crate::error::error_code(error),
        r.body->Err_0.message@ == crate::error::error_message(error),
        r.body->Err_0.data is None,
{
    JsonRpcResponse { id, body: Err(error.to_json_rpc_error()) }
}

/// The parameters of `tools/call` that a value holds: a string `name`, and
/// `arguments`, which stand as `Null` when absent.
pub open spec fn call_tool_params(v: JsonValue) -> Option<(Seq<char>, JsonValue)> {
    match str_member(v, "name"@) {
        Some(n) => Some(
            (
                n,
                match member(v, "arguments"@) {
                    Some(a) => a,
                    None => JsonValue::Null,
                },
            ),
        ),
        None => None,
    }
}

/// Every member of the object is a string.
pub open spec fn all_str_values(es: Seq<(String, JsonValue)>) -> bool {
    forall|i: int| 0 <= i < es.len() ==> (#[trigger] es[i]).1 is Str
}

/// `a` lists the string members `es`, in order.
pub open spec fn str_pairs_of(a: Seq<(String, String)>, es: Seq<(String, JsonValue)>) -> bool {
    &&& a.len() == es.len()
    &&& forall|i: int|
        0 <= i < es.len() ==> (#[trigger] a[i]).0 == es[i].0 && es[i].1 == JsonValue::Str(a[i].1)
}

/// The string members of an object as pairs; only meaningful where all members are strings.
pub open spec fn pairs_view(es: Seq<(String, JsonValue)>) -> Seq<(String, String)> {
    es.map_values(
        |e: (String, JsonValue)|
            (
                e.0,
                match e.1 {
                    JsonValue::Str(s) => s,
                    _ => arbitrary(),
                },
            ),
    )
}

/// The `arguments` of `prompts/get` as pairs: absent unless an object was given.
pub open spec fn prompt_args_view(v: JsonValue) -> Option<Seq<(String, String)>> {
    match member(v, "arguments"@) {
        Some(JsonValue::Object(es)) => Some(pairs_view(es@)),
        _ => None,
    }
}

pub open spec fn args_view(a: Option<Vec<(String, String)>>) -> Option<Seq<(String, String)>> {
    match a {
        Some(v) => Some(v@),
        None => None,
    }
}

/// The `arguments` of `prompts/get` are absent, null, or an object of strings.
pub open spec fn prompt_args_ok(v: JsonValue) -> bool {
    match member(v, "arguments"@) {
        None => true,
        Some(JsonValue::Null) => true,
        Some(JsonValue::Object(es)) => all_str_values(es@),
        _ => false,
    }
}

fn invalid_params(m: &str) -> (r: McpError)
    ensures
        r is InvalidParams,
{
    McpError::InvalidParams(m.to_string())
}

impl CallToolRequest {
    /// Read the parameters of `tools/call`.
    pub fn from_json(v: JsonValue) -> (r: Result<CallToolRequest, McpError>)
        ensures
            r is Ok <==> call_tool_params(v) is Some,
            r is Ok ==> r->Ok_0.name@ == call_tool_params(v).unwrap().0
                && r->Ok_0.arguments == call_tool_params(v).unwrap().1,
            r is Err ==> r->Err_0 is InvalidParams,
    {
        let name = match v.get_str("name") {
            Some(n) => n.clone(),
            None => {
                return Err(invalid_params("missing or invalid field `name`"));
            },
        };
        let ghost v0 = v;
        match v {
            JsonValue::Object(mut es) => {
                let arguments = match entry_index(&es, "arguments") {
                    Some(i) => es.remove(i).1,
                    None => JsonValue::Null,
                };
                Ok(CallToolRequest { name, arguments })
            },
            _ => Err(invalid_params("expected an object")),
        }
    }
}

impl ReadResourceRequest {
    /// Read the parameters of `resources/read`.
    pub fn from_json(v: &JsonValue) -> (r: Result<ReadResourceRequest, McpError>)
        ensures
            r is Ok <==> str_member(*v, "uri"@) is Some,
            r is Ok ==> r->Ok_0.uri@ == str_member(*v, "uri"@).unwrap(),
            r is Err ==> r->Err_0 is InvalidParams,
    {
        match v.get_str("uri") {
            Some(u) => Ok(ReadResourceRequest { uri: u.clone() }),
            None => Err(invalid_params("missing or invalid field `uri`")),
        }
    }
}

/// The string members of an object, in order.
pub fn str_pairs(es: &Vec<(String, JsonValue)>) -> (r: Option<Vec<(String, String)>>)
    ensures
        r is Some <==> all_str_values(es@),
        r is Some ==> str_pairs_of(r.unwrap()@, es@),
        r is Some ==> r.unwrap()@ == pairs_view(es@),
{
    let mut out: Vec<(String, String)> = Vec::new();
    let mut i: usize = 0;
    while i < es.len()
        invariant
            i <= es@.len(),
            out@.len() == i,
            forall|j: int| 0 <= j < i ==> (#[trigger] es@[j]).1 is Str,
            forall|j: int|
                0 <= j < i ==> (#[trigger] out@[j]).0 == es@[j].0 && es@[j].1 == JsonValue::Str(
                    out@[j].1,
                ),
        decreases es@.len() - i,
    {
        match &es[i].1 {
            JsonValue::Str(s) => {
                out.push((es[i].0.clone(), s.clone()));
            },
            _ => {
                return None;
            },
        }
        i = i + 1;
    }
    assert(out@ =~= pairs_view(es@));
    Some(out)
}

impl GetPromptRequest {
    /// Read the parameters of `prompts/get`.
    pub fn from_json(v: &JsonValue) -> (r: Result<GetPromptRequest, McpError>)
        ensures
            r is Ok <==> str_member(*v, "name"@) is Some && prompt_args_ok(*v),
            r is Ok ==> r->Ok_0.name@ == str_member(*v, "name"@).unwrap(),
            r is Ok ==> args_view(r->Ok_0.arguments) == prompt_args_view(*v),
            r is Ok ==> match member(*v, "arguments"@) {
                Some(JsonValue::Object(es)) => r->Ok_0.arguments is Some && str_pairs_of(
                    r->Ok_0.arguments.unwrap()@,
                    es@,
                ),
                _ => r->Ok_0.arguments is None,
            },
            r is Err ==> r->Err_0 is InvalidParams,
    {
        let name = match v.get_str("name") {
            Some(n) => n.clone(),
            None => {
                return Err(invalid_params("missing or invalid field `name`"));
            },
        };
        let arguments = match v.get("arguments") {
            None => None,
            Some(JsonValue::Null) => None,
            Some(JsonValue::Object(es)) => match str_pairs(es) {
                Some(a) => Some(a),
                None => {
                    return Err(invalid_params("`arguments` must map names to strings"));
                },
            },
            Some(_) => {
                return Err(invalid_params("`arguments` must be an object"));
            },
        };
        Ok(GetPromptRequest { name, arguments })
    }
}

} // verus!
