//! The message model: requests, responses, errors and the MCP payloads.
use vstd::prelude::*;
use vstd::string::StringExecFns;
use crate::json::{JsonValue, find_key, member};

verus! {

/// Version of the MCP dialect this server speaks.
pub const MCP_VERSION: &'static str = "2024-11-05";

/// The payload is not valid structured data.
pub const PARSE_ERROR: i64 = -32700;
/// The envelope lacks a required field.
pub const INVALID_REQUEST: i64 = -32600;
/// No method of that name.
pub const METHOD_NOT_FOUND: i64 = -32601;
/// Parameters of a known method are missing or malformed.
pub const INVALID_PARAMS: i64 = -32602;
/// A fault while producing a result.
pub const INTERNAL_ERROR: i64 = -32603;

/// Correlates a response with its request.
#[derive(Debug, PartialEq)]
pub enum RequestId {
    Str(String),
    Num(i64),
}

/// A call: the method to run and its parameters, checked only when dispatched.
#[derive(Debug)]
pub struct JsonRpcRequest {
    pub id: Option<RequestId>,
    pub method: String,
    pub params: Option<JsonValue>,
}

/// A protocol-level failure.
#[derive(Debug)]
pub struct JsonRpcError {
    pub code: i64,
    pub message: String,
}

impl JsonRpcError {
    pub fn method_not_found(method: &String) -> (r: JsonRpcError)
        ensures
            r.code == METHOD_NOT_FOUND,
            r.message@ == "Method not found: "@ + method@,
    {
        let mut message = "Method not found: ".to_string();
        message.append(method.as_str());
        JsonRpcError { code: METHOD_NOT_FOUND, message }
    }

    pub fn invalid_params(message: &str) -> (r: JsonRpcError)
        ensures
            r.code == INVALID_PARAMS,
            r.message@ == message@,
    {
        JsonRpcError { code: INVALID_PARAMS, message: message.to_string() }
    }

    pub fn invalid_request(message: &str) -> (r: JsonRpcError)
        ensures
            r.code == INVALID_REQUEST,
            r.message@ == message@,
    {
        JsonRpcError { code: INVALID_REQUEST, message: message.to_string() }
    }
}

/// The reply to one request: its id, and a result or an error.
#[derive(Debug)]
pub struct JsonRpcResponse {
    pub id: Option<RequestId>,
    pub outcome: Result<McpResult, JsonRpcError>,
}

impl JsonRpcResponse {
    /// The reply to a payload that is not valid structured data.
    pub fn parse_error() -> (r: JsonRpcResponse)
        ensures
            r.id is None,
            r.outcome is Err,
            r.outcome->Err_0.code == PARSE_ERROR,
    {
        JsonRpcResponse {
            id: None,
            outcome: Err(JsonRpcError { code: PARSE_ERROR, message: "Parse error".to_string() }),
        }
    }
}

/// The id a request value carries: `Some(None)` where it has none or a null one,
/// `None` where the id is of a kind that cannot correlate.
pub open spec fn id_member(v: JsonValue) -> Option<Option<RequestId>> {
    match member(v, "id"@) {
        None => Some(None),
        Some(JsonValue::Null) => Some(None),
        Some(JsonValue::Str(s)) => Some(Some(RequestId::Str(s))),
        Some(JsonValue::Int(n)) => Some(Some(RequestId::Num(n))),
        _ => None,
    }
}

/// The request's method name, where it is a non-empty string.
pub open spec fn method_member(v: JsonValue) -> Option<Seq<char>> {
    match member(v, "method"@) {
        Some(JsonValue::Str(s)) => if s@.len() > 0 {
            Some(s@)
        } else {
            None
        },
        _ => None,
    }
}

/// The request's parameters; a null counts as none.
pub open spec fn params_member(v: JsonValue) -> Option<JsonValue> {
    match member(v, "params"@) {
        Some(JsonValue::Null) => None,
        p => p,
    }
}

fn read_id(entries: &Vec<(String, JsonValue)>) -> (r: Option<Option<RequestId>>)
    ensures
        r == id_member(JsonValue::Object(*entries)),
{
    let key = "id".to_string();
    match find_key(entries, &key) {
        None => Some(None),
        Some(i) => match &entries[i].1 {
            JsonValue::Null => Some(None),
            JsonValue::Str(s) => Some(Some(RequestId::Str(s.clone()))),
            JsonValue::Int(n) => Some(Some(RequestId::Num(*n))),
            _ => None,
        },
    }
}

impl JsonRpcRequest {
    /// Reads the envelope of a request. A value that is not an object, or whose
    /// id is neither a string, an integer nor null, is refused with no id; one
    /// without a non-empty method name is refused with its id.
    pub fn from_json(v: JsonValue) -> (r: Result<JsonRpcRequest, JsonRpcResponse>)
        ensures
            !(v is Object) || id_member(v) is None ==> r is Err && r->Err_0.id is None
                && r->Err_0.outcome is Err && r->Err_0.outcome->Err_0.code == INVALID_REQUEST,
            v is Object && id_member(v) is Some && method_member(v) is None ==> r is Err
                && r->Err_0.id == id_member(v)->0 && r->Err_0.outcome is Err
                && r->Err_0.outcome->Err_0.code == INVALID_REQUEST,
            v is Object && id_member(v) is Some && method_member(v) is Some ==> r is Ok
                && r->Ok_0.id == id_member(v)->0 && r->Ok_0.method@ == method_member(v)->0
                && r->Ok_0.params == params_member(v),
    {
        match v {
            JsonValue::Object(mut entries) => {
                let id = match read_id(&entries) {
                    Some(id) => id,
                    None => {
                        return Err(
                            JsonRpcResponse {
                                id: None,
                                outcome: Err(JsonRpcError::invalid_request("Invalid request id")),
                            },
                        );
                    },
                };
                let method_key = "method".to_string();
                let method = match find_key(&entries, &method_key) {
                    Some(i) => match &entries[i].1 {
                        JsonValue::Str(s) => if !s.as_str().is_empty() {
                            Some(s.clone())
                        } else {
                            None
                        },
                        _ => None,
                    },
                    None => None,
                };
                let method = match method {
                    Some(m) => m,
                    None => {
                        return Err(
                            JsonRpcResponse {
                                id,
                                outcome: Err(JsonRpcError::invalid_request("Missing method")),
                            },
                        );
                    },
                };
                let params_key = "params".to_string();
                let params = match find_key(&entries, &params_key) {
                    Some(i) => {
                        let (_, p) = entries.remove(i);
                        match p {
                            JsonValue::Null => None,
                            p => Some(p),
                        }
                    },
                    None => None,
                };
                Ok(JsonRpcRequest { id, method, params })
            },
            _ => Err(
                JsonRpcResponse {
                    id: None,
                    outcome: Err(JsonRpcError::invalid_request("Request must be an object")),
                },
            ),
        }
    }
}

/// Name and version of a party to the session.
#[derive(Debug)]
pub struct Implementation {
    pub name: String,
    pub version: String,
}

impl Implementation {
    pub fn copy(&self) -> (r: Implementation)
        ensures
            r == *self,
    {
        Implementation { name: self.name.clone(), version: self.version.clone() }
    }
}

/// Whether the server announces changes to a list.
#[derive(Debug, Clone, Copy, PartialEq, Eq, Structural)]
pub struct ListCapability {
    pub list_changed: Option<bool>,
}

/// What the server offers; fixed for the server's lifetime.
#[derive(Debug, Clone, Copy, PartialEq, Eq, Structural)]
pub struct ServerCapabilities {
    pub tools: Option<ListCapability>,
    pub resources: Option<ListCapability>,
    pub prompts: Option<ListCapability>,
}

/// The parameters of `initialize`.
#[derive(Debug)]
pub struct InitializeParams {
    pub client_info: Implementation,
}

/// `v` holds a string member `key`, with the characters `s`.
pub open spec fn str_member(v: JsonValue, key: Seq<char>, s: Seq<char>) -> bool {
    member(v, key) is Some && member(v, key)->0 is Str && member(v, key)->0->Str_0@ == s
}

/// `v` holds a string member `key`.
pub open spec fn has_str_member(v: JsonValue, key: Seq<char>) -> bool {
    member(v, key) is Some && member(v, key)->0 is Str
}

/// `v` is well-formed `initialize` parameters.
pub open spec fn initialize_params_ok(v: JsonValue) -> bool {
    member(v, "clientInfo"@) is Some && has_str_member(member(v, "clientInfo"@)->0, "name"@)
        && has_str_member(member(v, "clientInfo"@)->0, "version"@)
}

/// The string member `key` of an object's members, if it has one.
fn str_field(entries: &Vec<(String, JsonValue)>, key: &str) -> (r: Option<String>)
    ensures
        has_str_member(JsonValue::Object(*entries), key@) <==> r is Some,
        r is Some ==> str_member(JsonValue::Object(*entries), key@, r->0@),
{
    let k = key.to_string();
    match find_key(entries, &k) {
        Some(i) => match &entries[i].1 {
            JsonValue::Str(s) => Some(s.clone()),
            _ => None,
        },
        None => None,
    }
}

impl InitializeParams {
    pub fn from_json(v: &JsonValue) -> (r: Option<InitializeParams>)
        ensures
            r is Some <==> initialize_params_ok(*v),
            r is Some ==> str_member(member(*v, "clientInfo"@)->0, "name"@, r->0.client_info.name@)
                && str_member(
                member(*v, "clientInfo"@)->0,
                "version"@,
                r->0.client_info.version@,
            ),
    {
        match v {
            JsonValue::Object(entries) => {
                let k = "clientInfo".to_string();
                match find_key(entries, &k) {
                    Some(i) => match &entries[i].1 {
                        JsonValue::Object(info) => {
                            let name = str_field(info, "name");
                            let version = str_field(info, "version");
                            match (name, version) {
                                (Some(name), Some(version)) => Some(
                                    InitializeParams {
                                        client_info: Implementation { name, version },
                                    },
                                ),
                                _ => None,
                            }
                        },
                        _ => None,
                    },
                    None => None,
                }
            },
            _ => None,
        }
    }
}

/// The parameters of `tools/call`: the tool's name; its arguments stay in the
/// request's parameters.
#[derive(Debug)]
pub struct CallToolParams {
    pub name: String,
}

impl CallToolParams {
    pub fn from_json(v: &JsonValue) -> (r: Option<CallToolParams>)
        ensures
            r is Some <==> has_str_member(*v, "name"@),
            r is Some ==> str_member(*v, "name"@, r->0.name@),
    {
        match v {
            JsonValue::Object(entries) => match str_field(entries, "name") {
                Some(name) => Some(CallToolParams { name }),
                None => None,
            },
            _ => None,
        }
    }
}

/// Describes the parameters a tool accepts.
#[derive(Debug)]
pub struct ToolInputSchema {
    pub schema_type: String,
    /// Each property's name and the JSON type it takes.
    pub properties: Vec<(String, String)>,
    pub required: Option<Vec<String>>,
}

/// A tool as clients discover it.
#[derive(Debug)]
pub struct Tool {
    pub name: String,
    pub description: Option<String>,
    pub input_schema: ToolInputSchema,
}

/// One block of a tool's output.
#[derive(Debug)]
pub enum Content {
    Text(String),
}

/// What a tool call produced; `is_error` marks a failure of the tool itself.
#[derive(Debug)]
pub struct CallToolResult {
    pub content: Vec<Content>,
    pub is_error: bool,
}

/// `r` is a single text block holding `s`.
pub open spec fn single_text(r: CallToolResult, s: Seq<char>) -> bool {
    r.content@.len() == 1 && r.content@[0] is Text && r.content@[0]->Text_0@ == s
}

impl CallToolResult {
    pub fn text(s: String) -> (r: CallToolResult)
        ensures
            single_text(r, s@),
            !r.is_error,
    {
        CallToolResult { content: vec![Content::Text(s)], is_error: false }
    }

    pub fn error(s: String) -> (r: CallToolResult)
        ensures
            single_text(r, s@),
            r.is_error,
    {
        CallToolResult { content: vec![Content::Text(s)], is_error: true }
    }
}

/// What the server returns to `initialize`.
#[derive(Debug)]
pub struct InitializeResult {
    pub protocol_version: String,
    pub capabilities: ServerCapabilities,
    pub server_info: Implementation,
}

/// What the server returns to `tools/list`.
#[derive(Debug)]
pub struct ListToolsResult {
    pub tools: Vec<Tool>,
    pub next_cursor: Option<String>,
}

/// A resource a client may read.
#[derive(Debug)]
pub struct Resource {
    pub uri: String,
    pub name: String,
}

/// What the server returns to `resources/list`.
#[derive(Debug)]
pub struct ListResourcesResult {
    pub resources: Vec<Resource>,
    pub next_cursor: Option<String>,
}

/// The result of a method that succeeded at the protocol level.
#[derive(Debug)]
pub enum McpResult {
    Empty,
    Initialize(InitializeResult),
    ToolsList(ListToolsResult),
    ToolCall(CallToolResult),
    ResourcesList(ListResourcesResult),
}

} // verus!
