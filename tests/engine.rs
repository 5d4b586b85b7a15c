use cardano_mcp_server::json::JsonValue;
use cardano_mcp_server::node::{ChainPoint, ChainTip, NodeClient, NodeError};
use cardano_mcp_server::protocol::{
    JsonRpcRequest, JsonRpcResponse, McpResult, RequestId, INVALID_PARAMS, INVALID_REQUEST,
    METHOD_NOT_FOUND, PARSE_ERROR,
};
use cardano_mcp_server::server::{Dispatch, McpServer};
use cardano_mcp_server::tools::ToolRegistry;

fn s(x: &str) -> JsonValue {
    JsonValue::Str(x.to_string())
}

fn obj(members: Vec<(&str, JsonValue)>) -> JsonValue {
    JsonValue::Object(members.into_iter().map(|(k, v)| (k.to_string(), v)).collect())
}

fn get<'a>(v: &'a JsonValue, key: &str) -> Option<&'a JsonValue> {
    match v {
        JsonValue::Object(m) => m.iter().find(|(k, _)| k == key).map(|(_, v)| v),
        _ => None,
    }
}

fn server(socket: Option<&str>, magic: u64) -> McpServer {
    McpServer::new(ToolRegistry::new(), NodeClient::new(socket.map(|p| p.to_string()), magic))
}

fn request(v: JsonValue) -> JsonRpcRequest {
    JsonRpcRequest::from_json(v).expect("well-formed request")
}

fn reply(d: Dispatch) -> JsonRpcResponse {
    match d {
        Dispatch::Reply(r) => r,
        Dispatch::QueryTip(_) => panic!("expected a reply"),
    }
}

fn roundtrip(srv: &mut McpServer, v: JsonValue) -> JsonValue {
    reply(srv.handle_request(request(v))).to_json()
}

fn tool_text(resp: &JsonValue) -> (String, bool) {
    let result = get(resp, "result").expect("result");
    let content = match get(result, "content") {
        Some(JsonValue::Array(a)) => a,
        _ => panic!("content"),
    };
    assert_eq!(content.len(), 1);
    assert_eq!(get(&content[0], "type"), Some(&s("text")));
    let text = match get(&content[0], "text") {
        Some(JsonValue::Str(t)) => t.clone(),
        _ => panic!("text"),
    };
    let is_error = match get(result, "is_error") {
        Some(JsonValue::Bool(b)) => *b,
        _ => panic!("is_error"),
    };
    (text, is_error)
}

#[test]
fn ping_replies_with_empty_result() {
    let mut srv = server(None, 764824073);
    let resp = roundtrip(&mut srv, obj(vec![("id", JsonValue::Int(1)), ("method", s("ping"))]));
    assert_eq!(get(&resp, "id"), Some(&JsonValue::Int(1)));
    assert_eq!(get(&resp, "result"), Some(&JsonValue::Object(vec![])));
    assert_eq!(get(&resp, "error"), None);
    assert_eq!(get(&resp, "jsonrpc"), Some(&s("2.0")));
}

#[test]
fn unknown_tool_is_a_tool_level_error() {
    let mut srv = server(None, 764824073);
    let resp = roundtrip(
        &mut srv,
        obj(vec![
            ("id", s("a")),
            ("method", s("tools/call")),
            ("params", obj(vec![("name", s("does-not-exist")), ("arguments", obj(vec![]))])),
        ]),
    );
    assert_eq!(get(&resp, "id"), Some(&s("a")));
    assert_eq!(get(&resp, "error"), None);
    let (text, is_error) = tool_text(&resp);
    assert!(is_error);
    assert_eq!(text, "Tool not found: does-not-exist");
}

#[test]
fn unknown_method_is_method_not_found() {
    let mut srv = server(None, 764824073);
    let resp = roundtrip(&mut srv, obj(vec![("id", JsonValue::Int(2)), ("method", s("unknown/method"))]));
    assert_eq!(get(&resp, "id"), Some(&JsonValue::Int(2)));
    let err = get(&resp, "error").expect("error");
    assert_eq!(get(err, "code"), Some(&JsonValue::Int(-32601)));
    assert_eq!(get(err, "message"), Some(&s("Method not found: unknown/method")));
    assert_eq!(get(&resp, "result"), None);
    assert_eq!(METHOD_NOT_FOUND, -32601);
}

#[test]
fn initialize_without_params_is_invalid_params() {
    let mut srv = server(None, 764824073);
    let resp = roundtrip(&mut srv, obj(vec![("id", JsonValue::Int(3)), ("method", s("initialize"))]));
    let err = get(&resp, "error").expect("error");
    assert_eq!(get(err, "code"), Some(&JsonValue::Int(-32602)));
    assert_eq!(INVALID_PARAMS, -32602);
    assert_eq!(get(&resp, "id"), Some(&JsonValue::Int(3)));
}

#[test]
fn initialize_with_malformed_params_is_invalid_params() {
    let mut srv = server(None, 764824073);
    let params = obj(vec![("clientInfo", obj(vec![("name", s("c"))]))]);
    let resp = roundtrip(
        &mut srv,
        obj(vec![("id", JsonValue::Int(4)), ("method", s("initialize")), ("params", params)]),
    );
    let err = get(&resp, "error").expect("error");
    assert_eq!(get(err, "code"), Some(&JsonValue::Int(-32602)));
}

#[test]
fn initialize_returns_server_identity() {
    let mut srv = server(None, 764824073);
    let params = obj(vec![
        ("protocolVersion", s("2024-11-05")),
        ("clientInfo", obj(vec![("name", s("client")), ("version", s("1.0"))])),
    ]);
    let resp = roundtrip(
        &mut srv,
        obj(vec![("id", JsonValue::Int(5)), ("method", s("initialize")), ("params", params)]),
    );
    let result = get(&resp, "result").expect("result");
    assert_eq!(get(result, "protocolVersion"), Some(&s("2024-11-05")));
    let info = get(result, "serverInfo").expect("serverInfo");
    assert_eq!(get(info, "name"), Some(&s("cardano-mcp-server")));
    assert_eq!(get(info, "version"), Some(&s("0.1.0")));
    let caps = get(result, "capabilities").expect("capabilities");
    assert_eq!(caps, &obj(vec![("tools", obj(vec![("listChanged", JsonValue::Bool(false))]))]));
    assert!(!srv.is_initialized());
}

#[test]
fn initialized_is_idempotent() {
    let mut srv = server(None, 764824073);
    assert!(!srv.is_initialized());
    for _ in 0..2 {
        let resp = roundtrip(&mut srv, obj(vec![("method", s("initialized"))]));
        assert_eq!(get(&resp, "result"), Some(&JsonValue::Object(vec![])));
        assert_eq!(get(&resp, "id"), Some(&JsonValue::Null));
        assert!(srv.is_initialized());
    }
    roundtrip(&mut srv, obj(vec![("id", JsonValue::Int(9)), ("method", s("ping"))]));
    assert!(srv.is_initialized());
}

#[test]
fn tools_list_is_stable() {
    let mut srv = server(None, 764824073);
    let list = || obj(vec![("id", JsonValue::Int(6)), ("method", s("tools/list"))]);
    let first = roundtrip(&mut srv, list());
    let second = roundtrip(&mut srv, list());
    assert_eq!(first, second);
    let result = get(&first, "result").expect("result");
    assert_eq!(get(result, "nextCursor"), None);
    let tools = match get(result, "tools") {
        Some(JsonValue::Array(a)) => a,
        _ => panic!("tools"),
    };
    assert_eq!(tools.len(), 1);
    assert_eq!(get(&tools[0], "name"), Some(&s("get_tip")));
    let schema = get(&tools[0], "inputSchema").expect("schema");
    assert_eq!(schema, &obj(vec![("type", s("object")), ("properties", obj(vec![]))]));
}

#[test]
fn list_tools_matches_registry() {
    let reg = ToolRegistry::new();
    let a = reg.list_tools();
    let b = ToolRegistry::default().list_tools();
    assert_eq!(a.len(), 1);
    assert_eq!(a[0].name, "get_tip");
    assert_eq!(b[0].name, a[0].name);
    assert_eq!(b[0].description, a[0].description);
}

#[test]
fn tip_query_without_socket_is_tool_error() {
    let mut srv = server(None, 764824073);
    let resp = roundtrip(
        &mut srv,
        obj(vec![
            ("id", JsonValue::Int(10)),
            ("method", s("tools/call")),
            ("params", obj(vec![("name", s("get_tip"))])),
        ]),
    );
    assert_eq!(get(&resp, "error"), None);
    let (text, is_error) = tool_text(&resp);
    assert!(is_error);
    assert_eq!(text, "Node error: Node socket not configured");
}

#[test]
fn tip_query_with_socket_waits_for_node() {
    let mut srv = server(Some("/tmp/node.socket"), 1);
    let req = request(obj(vec![
        ("id", s("t")),
        ("method", s("tools/call")),
        ("params", obj(vec![("name", s("get_tip")), ("arguments", obj(vec![]))])),
    ]));
    let id = match srv.handle_request(req) {
        Dispatch::QueryTip(id) => id,
        Dispatch::Reply(_) => panic!("expected a tip query"),
    };
    assert_eq!(id, Some(RequestId::Str("t".to_string())));
    let tip = ChainTip::from_point(ChainPoint::Specific(5, vec![0xab, 0x01]), 7);
    let resp = srv.finish_tool_call(id, Ok(tip)).to_json();
    assert_eq!(get(&resp, "id"), Some(&s("t")));
    let (text, is_error) = tool_text(&resp);
    assert!(!is_error);
    assert_eq!(text, "{\n  \"block_number\": 7,\n  \"hash\": \"ab01\",\n  \"slot\": 5\n}");
}

#[test]
fn tip_query_failure_is_tool_error() {
    let srv = server(Some("/tmp/node.socket"), 1);
    let resp = srv
        .finish_tool_call(
            Some(RequestId::Num(11)),
            Err(NodeError::ConnectionFailed("refused".to_string())),
        )
        .to_json();
    assert_eq!(get(&resp, "id"), Some(&JsonValue::Int(11)));
    let (text, is_error) = tool_text(&resp);
    assert!(is_error);
    assert_eq!(text, "Node error: Failed to connect to node: refused");
}

#[test]
fn node_error_messages() {
    assert_eq!(NodeError::SocketNotConfigured.message(), "Node socket not configured");
    assert_eq!(NodeError::QueryFailed("x".to_string()).message(), "Query failed: x");
    assert_eq!(NodeError::ProtocolError("y".to_string()).message(), "Protocol error: y");
}

#[test]
fn chain_tip_from_origin_and_specific() {
    let origin = ChainTip::from_point(ChainPoint::Origin, 0);
    assert_eq!(origin.slot, 0);
    assert_eq!(origin.hash, "origin");
    assert_eq!(origin.block_number, Some(0));
    let tip = ChainTip::from_point(ChainPoint::Specific(42, vec![0x00, 0xff, 0x10]), 3);
    assert_eq!(tip.slot, 42);
    assert_eq!(tip.hash, "00ff10");
    assert_eq!(tip.block_number, Some(3));
}

#[test]
fn network_names() {
    assert_eq!(NodeClient::new(None, 764824073).network_name(), "mainnet");
    assert_eq!(NodeClient::new(None, 1).network_name(), "preprod");
    assert_eq!(NodeClient::new(None, 2).network_name(), "preview");
    assert_eq!(NodeClient::new(None, 42).network_name(), "other");
    assert_eq!(NodeClient::new(None, 42).network_magic(), 42);
    assert!(!NodeClient::new(None, 42).is_configured());
    assert!(NodeClient::new(Some("/s".to_string()), 42).is_configured());
}

#[test]
fn network_tool_reports_network() {
    let node = NodeClient::new(None, 1);
    let r = cardano_mcp_server::tools::get_network::execute(&JsonValue::Null, &node).expect("ok");
    assert!(!r.is_error);
    match &r.content[0] {
        cardano_mcp_server::protocol::Content::Text(t) => {
            assert_eq!(t, "{\n  \"magic\": 1,\n  \"network\": \"preprod\"\n}")
        }
    }
    let def = cardano_mcp_server::tools::get_network::definition();
    assert_eq!(def.name, "get_network");
}

#[test]
fn ids_are_echoed() {
    let mut srv = server(None, 764824073);
    let resp = roundtrip(&mut srv, obj(vec![("id", s("abc")), ("method", s("ping"))]));
    assert_eq!(get(&resp, "id"), Some(&s("abc")));
    let resp = roundtrip(&mut srv, obj(vec![("method", s("ping"))]));
    assert_eq!(get(&resp, "id"), Some(&JsonValue::Null));
    let resp = roundtrip(&mut srv, obj(vec![("id", JsonValue::Int(-5)), ("method", s("nope"))]));
    assert_eq!(get(&resp, "id"), Some(&JsonValue::Int(-5)));
}

#[test]
fn interleaved_requests_keep_their_ids() {
    let mut srv = server(None, 764824073);
    let r7 = request(obj(vec![("id", JsonValue::Int(7)), ("method", s("ping"))]));
    let r8 = request(obj(vec![("id", JsonValue::Int(8)), ("method", s("tools/list"))]));
    let d8 = reply(srv.handle_request(r8));
    let d7 = reply(srv.handle_request(r7));
    assert_eq!(d7.id, Some(RequestId::Num(7)));
    assert_eq!(d8.id, Some(RequestId::Num(8)));
    assert!(matches!(d7.outcome, Ok(McpResult::Empty)));
    assert!(matches!(d8.outcome, Ok(McpResult::ToolsList(_))));
}

#[test]
fn resources_list_is_empty() {
    let mut srv = server(None, 764824073);
    let resp = roundtrip(&mut srv, obj(vec![("id", JsonValue::Int(12)), ("method", s("resources/list"))]));
    let result = get(&resp, "result").expect("result");
    assert_eq!(result, &obj(vec![("resources", JsonValue::Array(vec![]))]));
}

#[test]
fn tools_call_without_name_is_invalid_params() {
    let mut srv = server(None, 764824073);
    let resp = roundtrip(&mut srv, obj(vec![("id", JsonValue::Int(13)), ("method", s("tools/call"))]));
    let err = get(&resp, "error").expect("error");
    assert_eq!(get(err, "code"), Some(&JsonValue::Int(-32602)));
    let resp = roundtrip(
        &mut srv,
        obj(vec![("id", JsonValue::Int(14)), ("method", s("tools/call")), ("params", obj(vec![("name", JsonValue::Int(1))]))]),
    );
    let err = get(&resp, "error").expect("error");
    assert_eq!(get(err, "code"), Some(&JsonValue::Int(-32602)));
}

#[test]
fn malformed_envelopes_are_invalid_requests() {
    let not_object = JsonRpcRequest::from_json(JsonValue::Array(vec![])).unwrap_err();
    assert_eq!(not_object.id, None);
    assert_eq!(not_object.outcome.unwrap_err().code, INVALID_REQUEST);
    let bad_id = JsonRpcRequest::from_json(obj(vec![("id", JsonValue::Bool(true)), ("method", s("ping"))])).unwrap_err();
    assert_eq!(bad_id.id, None);
    assert_eq!(bad_id.outcome.unwrap_err().code, -32600);
    let no_method = JsonRpcRequest::from_json(obj(vec![("id", JsonValue::Int(3))])).unwrap_err();
    assert_eq!(no_method.id, Some(RequestId::Num(3)));
    assert_eq!(no_method.outcome.unwrap_err().code, -32600);
    let empty_method = JsonRpcRequest::from_json(obj(vec![("id", s("e")), ("method", s(""))])).unwrap_err();
    assert_eq!(empty_method.id, Some(RequestId::Str("e".to_string())));
    let parse = JsonRpcResponse::parse_error().to_json();
    assert_eq!(get(&parse, "id"), Some(&JsonValue::Null));
    let err = get(&parse, "error").expect("error");
    assert_eq!(get(err, "code"), Some(&JsonValue::Int(PARSE_ERROR)));
    assert_eq!(PARSE_ERROR, -32700);
}

#[test]
fn null_params_count_as_absent() {
    let req = request(obj(vec![("id", JsonValue::Null), ("method", s("ping")), ("params", JsonValue::Null)]));
    assert_eq!(req.id, None);
    assert_eq!(req.params, None);
    assert_eq!(req.method, "ping");
    let req = request(obj(vec![("method", s("x")), ("params", obj(vec![("a", JsonValue::UInt(u64::MAX))]))]));
    assert_eq!(req.params, Some(obj(vec![("a", JsonValue::UInt(u64::MAX))])));
}
