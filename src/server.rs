//! The protocol engine: session state and dispatch of methods by name.
use vstd::prelude::*;
use crate::json::{JsonValue, find_key, member};
use crate::node::{ChainTip, NodeClient, NodeError};
use crate::protocol::{
    CallToolParams, CallToolResult, Implementation, InitializeParams, InitializeResult,
    JsonRpcError, JsonRpcRequest, JsonRpcResponse, ListCapability, ListResourcesResult,
    ListToolsResult, McpResult, RequestId, ServerCapabilities, has_str_member,
    initialize_params_ok, single_text, INVALID_PARAMS, MCP_VERSION, METHOD_NOT_FOUND,
};
use crate::tools::{ToolKind, ToolRegistry, ToolStep, lookup, lists};
use crate::tools::get_network::reports;
use crate::tools::get_tip::{execute as finish_tip, tip_text};

verus! {

/// The server's name, as it introduces itself.
pub const SERVER_NAME: &'static str = "cardano-mcp-server";
/// The server's version, as it introduces itself.
pub const SERVER_VERSION: &'static str = "0.1.0";

/// What the engine asks of its caller after a request: send a reply, or query
/// the node's chain tip and hand the answer to `McpServer::finish_tool_call`.
#[derive(Debug)]
pub enum Dispatch {
    Reply(JsonRpcResponse),
    QueryTip(Option<RequestId>),
}

/// `r` is a successful reply to the request with id `id`.
pub open spec fn ok_reply(r: Dispatch, id: Option<RequestId>) -> bool {
    r is Reply && r->Reply_0.id == id && r->Reply_0.outcome is Ok
}

/// `r` is a protocol-level error with code `code`, for the request with id `id`.
pub open spec fn error_reply(r: Dispatch, id: Option<RequestId>, code: i64) -> bool {
    r is Reply && r->Reply_0.id == id && r->Reply_0.outcome is Err
        && r->Reply_0.outcome->Err_0.code == code
}

/// The result carried by a successful reply.
pub open spec fn result_of(r: Dispatch) -> McpResult {
    r->Reply_0.outcome->Ok_0
}

/// `r` is a successful reply carrying a tool result of one text block `text`.
pub open spec fn tool_reply(r: Dispatch, id: Option<RequestId>, is_error: bool, text: Seq<char>) -> bool {
    ok_reply(r, id) && result_of(r) is ToolCall && result_of(r)->ToolCall_0.is_error == is_error
        && single_text(result_of(r)->ToolCall_0, text)
}

/// Whether the session is initialized after a request with `method`.
pub open spec fn session_after(initialized: bool, method: Seq<char>) -> bool {
    initialized || method == "initialized"@
}

/// The `initialized` notification leaves the session initialized from either
/// state, a repeat of it changes nothing, and no method leaves an initialized
/// session uninitialized.
pub proof fn lemma_initialized_idempotent(initialized: bool, method: Seq<char>)
    ensures
        session_after(initialized, "initialized"@),
        session_after(session_after(initialized, "initialized"@), "initialized"@) == session_after(
            initialized,
            "initialized"@,
        ),
        session_after(true, method),
        !initialized && method != "initialized"@ ==> !session_after(initialized, method),
{
}

/// The methods the engine serves.
pub open spec fn known_method(m: Seq<char>) -> bool {
    m == "initialize"@ || m == "initialized"@ || m == "ping"@ || m == "tools/list"@
        || m == "tools/call"@ || m == "resources/list"@
}

/// The name a `tools/call` request asks for.
pub open spec fn called_name(params: Option<JsonValue>) -> Seq<char> {
    member(params->0, "name"@)->0->Str_0@
}

/// The `tools/call` parameters are present and name a tool.
pub open spec fn call_params_ok(params: Option<JsonValue>) -> bool {
    params is Some && has_str_member(params->0, "name"@)
}

fn is_method(m: &String, name: &str) -> (r: bool)
    ensures
        r == (m@ == name@),
{
    let n = name.to_string();
    *m == n
}

/// The engine: fixed descriptors, the tools, the backend, and the session flag.
#[derive(Debug)]
pub struct McpServer {
    server_info: Implementation,
    capabilities: ServerCapabilities,
    tool_registry: ToolRegistry,
    node_client: NodeClient,
    initialized: bool,
}

impl McpServer {
    pub closed spec fn info(&self) -> Implementation {
        self.server_info
    }

    pub closed spec fn caps(&self) -> ServerCapabilities {
        self.capabilities
    }

    pub closed spec fn registry(&self) -> Seq<ToolKind> {
        self.tool_registry.kinds()
    }

    pub closed spec fn node(&self) -> NodeClient {
        self.node_client
    }

    pub closed spec fn initialized_spec(&self) -> bool {
        self.initialized
    }

    /// A server that offers the registry's tools, queries through the client,
    /// and starts uninitialized.
    pub fn new(tool_registry: ToolRegistry, node_client: NodeClient) -> (r: McpServer)
        ensures
            r.info().name@ == SERVER_NAME@,
            r.info().version@ == SERVER_VERSION@,
            r.caps() == (ServerCapabilities {
                tools: Some(ListCapability { list_changed: Some(false) }),
                resources: None,
                prompts: None,
            }),
            r.registry() == tool_registry.kinds(),
            r.node() == node_client,
            !r.initialized_spec(),
    {
        McpServer {
            server_info: Implementation {
                name: SERVER_NAME.to_string(),
                version: SERVER_VERSION.to_string(),
            },
            capabilities: ServerCapabilities {
                tools: Some(ListCapability { list_changed: Some(false) }),
                resources: None,
                prompts: None,
            },
            tool_registry,
            node_client,
            initialized: false,
        }
    }

    pub fn is_initialized(&self) -> (r: bool)
        ensures
            r == self.initialized_spec(),
    {
        self.initialized
    }

    /// Dispatches one request by its method. Every reply, and every tip query
    /// asked for, carries the request's id. Only `initialized` changes the
    /// session, and only from uninitialized to initialized.
    pub fn handle_request(&mut self, request: JsonRpcRequest) -> (r: Dispatch)
        ensures
            final(self).initialized_spec() == session_after(old(self).initialized_spec(), request.method@),
            final(self).info() == old(self).info(),
            final(self).caps() == old(self).caps(),
            final(self).registry() == old(self).registry(),
            final(self).node() == old(self).node(),
            r is Reply ==> r->Reply_0.id == request.id,
            r is QueryTip ==> r->QueryTip_0 == request.id,
            request.method@ == "initialize"@ ==> (if request.params is Some && initialize_params_ok(request.params->0) {
                ok_reply(r, request.id) && result_of(r) is Initialize
                    && result_of(r)->Initialize_0.protocol_version@ == MCP_VERSION@
                    && result_of(r)->Initialize_0.capabilities == old(self).caps()
                    && result_of(r)->Initialize_0.server_info == old(self).info()
            } else {
                error_reply(r, request.id, INVALID_PARAMS)
            }),
            request.method@ == "initialized"@ || request.method@ == "ping"@ ==> ok_reply(r, request.id)
                && result_of(r) is Empty,
            request.method@ == "tools/list"@ ==> ok_reply(r, request.id) && result_of(r) is ToolsList
                && lists(result_of(r)->ToolsList_0.tools@, old(self).registry())
                && result_of(r)->ToolsList_0.next_cursor is None,
            request.method@ == "tools/call"@ && !call_params_ok(request.params) ==> error_reply(
                r,
                request.id,
                INVALID_PARAMS,
            ),
            request.method@ == "tools/call"@ && call_params_ok(request.params) ==> ({
                let name = called_name(request.params);
                match lookup(old(self).registry(), name) {
                    None => tool_reply(r, request.id, true, "Tool not found: "@ + name),
                    Some(ToolKind::GetTip) => if old(self).node().socket_spec() is None {
                        tool_reply(r, request.id, true, "Node error: Node socket not configured"@)
                    } else {
                        r is QueryTip
                    },
                    Some(ToolKind::GetNetwork) => ok_reply(r, request.id) && result_of(r) is ToolCall
                        && reports(result_of(r)->ToolCall_0, old(self).node()),
                }
            }),
            request.method@ == "resources/list"@ ==> ok_reply(r, request.id) && result_of(r) is ResourcesList
                && result_of(r)->ResourcesList_0.resources@.len() == 0
                && result_of(r)->ResourcesList_0.next_cursor is None,
            !known_method(request.method@) ==> error_reply(r, request.id, METHOD_NOT_FOUND)
                && r->Reply_0.outcome->Err_0.message@ == "Method not found: "@ + request.method@,
    {
        proof {
            reveal_strlit("initialize");
            reveal_strlit("initialized");
            reveal_strlit("ping");
            reveal_strlit("tools/list");
            reveal_strlit("tools/call");
            reveal_strlit("resources/list");
            assert("initialize"@[0] != "tools/list"@[0]);
            assert("tools/list"@[6] != "tools/call"@[6]);
            assert("initialize"@.len() != "initialized"@.len());
            assert("initialize"@.len() != "ping"@.len());
            assert("initialize"@.len() != "resources/list"@.len());
            assert("initialized"@.len() != "ping"@.len());
        }
        let JsonRpcRequest { id, method, params } = request;
        if is_method(&method, "initialize") {
            Dispatch::Reply(JsonRpcResponse { id, outcome: self.handle_initialize(&params) })
        } else if is_method(&method, "initialized") {
            self.initialized = true;
            Dispatch::Reply(JsonRpcResponse { id, outcome: Ok(McpResult::Empty) })
        } else if is_method(&method, "ping") {
            Dispatch::Reply(JsonRpcResponse { id, outcome: Ok(McpResult::Empty) })
        } else if is_method(&method, "tools/list") {
            Dispatch::Reply(JsonRpcResponse { id, outcome: Ok(self.handle_tools_list()) })
        } else if is_method(&method, "tools/call") {
            match self.handle_tools_call(&params) {
                Ok(Some(result)) => Dispatch::Reply(
                    JsonRpcResponse { id, outcome: Ok(McpResult::ToolCall(result)) },
                ),
                Ok(None) => Dispatch::QueryTip(id),
                Err(e) => Dispatch::Reply(JsonRpcResponse { id, outcome: Err(e) }),
            }
        } else if is_method(&method, "resources/list") {
            Dispatch::Reply(JsonRpcResponse { id, outcome: Ok(self.handle_resources_list()) })
        } else {
            Dispatch::Reply(
                JsonRpcResponse { id, outcome: Err(JsonRpcError::method_not_found(&method)) },
            )
        }
    }

    fn handle_initialize(&self, params: &Option<JsonValue>) -> (r: Result<McpResult, JsonRpcError>)
        ensures
            params is Some && initialize_params_ok(params->0) ==> r is Ok && r->Ok_0 is Initialize
                && r->Ok_0->Initialize_0.protocol_version@ == MCP_VERSION@
                && r->Ok_0->Initialize_0.capabilities == self.caps()
                && r->Ok_0->Initialize_0.server_info == self.info(),
            !(params is Some && initialize_params_ok(params->0)) ==> r is Err && r->Err_0.code
                == INVALID_PARAMS,
    {
        let p = match params {
            Some(p) => p,
            None => {
                return Err(JsonRpcError::invalid_params("Missing initialize params"));
            },
        };
        match InitializeParams::from_json(p) {
            None => Err(JsonRpcError::invalid_params("Invalid initialize params")),
            Some(_) => Ok(
                McpResult::Initialize(
                    InitializeResult {
                        protocol_version: MCP_VERSION.to_string(),
                        capabilities: self.capabilities,
                        server_info: self.server_info.copy(),
                    },
                ),
            ),
        }
    }

    fn handle_tools_list(&self) -> (r: McpResult)
        ensures
            r is ToolsList && lists(r->ToolsList_0.tools@, self.registry())
                && r->ToolsList_0.next_cursor is None,
    {
        McpResult::ToolsList(
            ListToolsResult { tools: self.tool_registry.list_tools(), next_cursor: None },
        )
    }

    fn handle_resources_list(&self) -> (r: McpResult)
        ensures
            r is ResourcesList && r->ResourcesList_0.resources@.len() == 0
                && r->ResourcesList_0.next_cursor is None,
    {
        McpResult::ResourcesList(ListResourcesResult { resources: Vec::new(), next_cursor: None })
    }

    /// A tool call whose tool failed is still a successful call, with a result
    /// marked as an error; `Ok(None)` means the call waits for the node's tip.
    fn handle_tools_call(&self, params: &Option<JsonValue>) -> (r: Result<
        Option<CallToolResult>,
        JsonRpcError,
    >)
        ensures
            !call_params_ok(*params) ==> r is Err && r->Err_0.code == INVALID_PARAMS,
            call_params_ok(*params) ==> ({
                let name = called_name(*params);
                match lookup(self.registry(), name) {
                    None => r is Ok && r->Ok_0 is Some && r->Ok_0->0.is_error && single_text(
                        r->Ok_0->0,
                        "Tool not found: "@ + name,
                    ),
                    Some(ToolKind::GetTip) => if self.node().socket_spec() is None {
                        r is Ok && r->Ok_0 is Some && r->Ok_0->0.is_error && single_text(
                            r->Ok_0->0,
                            "Node error: Node socket not configured"@,
                        )
                    } else {
                        r == Ok::<Option<CallToolResult>, JsonRpcError>(None)
                    },
                    Some(ToolKind::GetNetwork) => r is Ok && r->Ok_0 is Some && reports(
                        r->Ok_0->0,
                        self.node(),
                    ),
                }
            }),
    {
        proof {
            reveal_strlit("Node error: ");
            reveal_strlit("Node socket not configured");
            reveal_strlit("Node error: Node socket not configured");
            assert("Node error: "@ + "Node socket not configured"@
                =~= "Node error: Node socket not configured"@);
        }
        let p = match params {
            Some(p) => p,
            None => {
                return Err(JsonRpcError::invalid_params("Missing tool call params"));
            },
        };
        let call = match CallToolParams::from_json(p) {
            Some(c) => c,
            None => {
                return Err(JsonRpcError::invalid_params("Invalid tool call params"));
            },
        };
        let none = JsonValue::Null;
        let key = "arguments".to_string();
        let arguments: &JsonValue = match p {
            JsonValue::Object(entries) => match find_key(entries, &key) {
                Some(i) => &entries[i].1,
                None => &none,
            },
            _ => &none,
        };
        match self.tool_registry.call_tool(&call.name, arguments, &self.node_client) {
            ToolStep::Finished(Ok(result)) => Ok(Some(result)),
            ToolStep::Finished(Err(e)) => Ok(Some(CallToolResult::error(e.message()))),
            ToolStep::QueryTip => Ok(None),
        }
    }

    /// Completes a tip query that `handle_request` asked for, with the node's
    /// answer: the tip as text, or the node's failure as a tool-level error.
    pub fn finish_tool_call(&self, id: Option<RequestId>, tip: Result<ChainTip, NodeError>) -> (r:
        JsonRpcResponse)
        ensures
            r.id == id,
            r.outcome is Ok && r.outcome->Ok_0 is ToolCall,
            tip is Ok ==> !r.outcome->Ok_0->ToolCall_0.is_error && single_text(
                r.outcome->Ok_0->ToolCall_0,
                tip_text(tip->Ok_0),
            ),
            tip is Err ==> r.outcome->Ok_0->ToolCall_0.is_error && single_text(
                r.outcome->Ok_0->ToolCall_0,
                "Node error: "@ + tip->Err_0.message_spec(),
            ),
    {
        let result = match finish_tip(tip) {
            Ok(result) => result,
            Err(e) => CallToolResult::error(e.message()),
        };
        JsonRpcResponse { id, outcome: Ok(McpResult::ToolCall(result)) }
    }
}

} // verus!
