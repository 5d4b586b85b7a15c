//! Messages as the JSON values that go on the wire.
use vstd::prelude::*;
use crate::json::{JsonValue, obj_len, key_at, val_at, is_str, is_empty_object};
use crate::protocol::{
    CallToolResult, Content, Implementation, InitializeResult, JsonRpcError, JsonRpcResponse,
    ListCapability, ListResourcesResult, ListToolsResult, McpResult, RequestId, Resource,
    ServerCapabilities, Tool, ToolInputSchema,
};

verus! {

/// The elements of an array; none for any other value.
pub open spec fn elems(v: JsonValue) -> Seq<JsonValue> {
    match v {
        JsonValue::Array(a) => a@,
        _ => Seq::empty(),
    }
}

/// The `i`-th member of `v` is named `key` and holds the string `s`.
pub open spec fn str_at(v: JsonValue, i: int, key: Seq<char>, s: Seq<char>) -> bool {
    key_at(v, i) == key && is_str(val_at(v, i), s)
}

/// `v` is the wire form of a request id: null when there is none.
pub open spec fn id_json(id: Option<RequestId>, v: JsonValue) -> bool {
    match id {
        None => v is Null,
        Some(RequestId::Str(s)) => is_str(v, s@),
        Some(RequestId::Num(n)) => v == JsonValue::Int(n),
    }
}

fn str_json(s: &String) -> (r: JsonValue)
    ensures
        is_str(r, s@),
{
    JsonValue::Str(s.clone())
}

fn member_entry(key: &str, value: JsonValue) -> (r: (String, JsonValue))
    ensures
        r.0@ == key@,
        r.1 == value,
{
    (key.to_string(), value)
}

pub fn id_to_json(id: &Option<RequestId>) -> (r: JsonValue)
    ensures
        id_json(*id, r),
{
    match id {
        None => JsonValue::Null,
        Some(RequestId::Str(s)) => str_json(s),
        Some(RequestId::Num(n)) => JsonValue::Int(*n),
    }
}

pub open spec fn content_json(c: Content, v: JsonValue) -> bool {
    obj_len(v) == 2 && str_at(v, 0, "type"@, "text"@) && str_at(v, 1, "text"@, c->Text_0@)
}

pub open spec fn call_result_json(r: CallToolResult, v: JsonValue) -> bool {
    obj_len(v) == 2 && key_at(v, 0) == "content"@ && val_at(v, 0) is Array && elems(val_at(v, 0)).len()
        == r.content@.len() && (forall|i: int|
        0 <= i < r.content@.len() ==> #[trigger] content_json(r.content@[i], elems(val_at(v, 0))[i]))
        && key_at(v, 1) == "is_error"@ && val_at(v, 1) == JsonValue::Bool(r.is_error)
}

pub fn call_result_to_json(r: &CallToolResult) -> (v: JsonValue)
    ensures
        call_result_json(*r, v),
{
    let mut blocks: Vec<JsonValue> = Vec::new();
    let mut i: usize = 0;
    while i < r.content.len()
        invariant
            i <= r.content@.len(),
            blocks@.len() == i,
            forall|j: int| 0 <= j < i ==> #[trigger] content_json(r.content@[j], blocks@[j]),
        decreases r.content@.len() - i,
    {
        let Content::Text(t) = &r.content[i];
        let b = JsonValue::Object(vec![member_entry("type", JsonValue::Str("text".to_string())), member_entry("text", str_json(t))]);
        blocks.push(b);
        i = i + 1;
    }
    JsonValue::Object(vec![member_entry("content", JsonValue::Array(blocks)), member_entry("is_error", JsonValue::Bool(r.is_error))])
}

pub open spec fn schema_json(s: ToolInputSchema, v: JsonValue) -> bool {
    let p = val_at(v, 1);
    obj_len(v) == (if s.required is Some { 3int } else { 2int }) && str_at(v, 0, "type"@, s.schema_type@)
        && key_at(v, 1) == "properties"@ && p is Object && obj_len(p) == s.properties@.len() && (forall|i: int|
        0 <= i < s.properties@.len() ==> #[trigger] key_at(p, i) == s.properties@[i].0@ && obj_len(
            val_at(p, i),
        ) == 1 && str_at(val_at(p, i), 0, "type"@, s.properties@[i].1@)) && (s.required is Some ==> key_at(v, 2)
        == "required"@ && val_at(v, 2) is Array && elems(val_at(v, 2)).len() == s.required->0@.len() && (forall|
        i: int|
        0 <= i < s.required->0@.len() ==> #[trigger] is_str(elems(val_at(v, 2))[i], s.required->0@[i]@)))
}

fn strings_to_json(v: &Vec<String>) -> (r: JsonValue)
    ensures
        r is Array && elems(r).len() == v@.len() && forall|i: int|
            0 <= i < v@.len() ==> #[trigger] is_str(elems(r)[i], v@[i]@),
{
    let mut out: Vec<JsonValue> = Vec::new();
    let mut i: usize = 0;
    while i < v.len()
        invariant
            i <= v@.len(),
            out@.len() == i,
            forall|j: int| 0 <= j < i ==> #[trigger] is_str(out@[j], v@[j]@),
        decreases v@.len() - i,
    {
        out.push(str_json(&v[i]));
        i = i + 1;
    }
    JsonValue::Array(out)
}

pub fn schema_to_json(s: &ToolInputSchema) -> (v: JsonValue)
    ensures
        schema_json(*s, v),
{
    let mut props: Vec<(String, JsonValue)> = Vec::new();
    let mut i: usize = 0;
    while i < s.properties.len()
        invariant
            i <= s.properties@.len(),
            props@.len() == i,
            forall|j: int|
                0 <= j < i ==> #[trigger] props@[j].0@ == s.properties@[j].0@ && obj_len(props@[j].1) == 1
                    && str_at(props@[j].1, 0, "type"@, s.properties@[j].1@),
        decreases s.properties@.len() - i,
    {
        let (name, kind) = &s.properties[i];
        props.push((name.clone(), JsonValue::Object(vec![member_entry("type", str_json(kind))])));
        i = i + 1;
    }
    let mut members = vec![member_entry("type", str_json(&s.schema_type)), member_entry("properties", JsonValue::Object(props))];
    match &s.required {
        Some(req) => {
            members.push(member_entry("required", strings_to_json(req)));
        },
        None => {},
    }
    JsonValue::Object(members)
}

pub open spec fn tool_json(t: Tool, v: JsonValue) -> bool {
    let d: int = if t.description is Some { 1 } else { 0 };
    obj_len(v) == 2 + d && str_at(v, 0, "name"@, t.name@) && (t.description is Some ==> str_at(
        v,
        1,
        "description"@,
        t.description->0@,
    )) && key_at(v, 1 + d) == "inputSchema"@ && schema_json(t.input_schema, val_at(v, 1 + d))
}

pub fn tool_to_json(t: &Tool) -> (v: JsonValue)
    ensures
        tool_json(*t, v),
{
    let mut members = vec![member_entry("name", str_json(&t.name))];
    match &t.description {
        Some(d) => {
            members.push(member_entry("description", str_json(d)));
        },
        None => {},
    }
    members.push(member_entry("inputSchema", schema_to_json(&t.input_schema)));
    JsonValue::Object(members)
}

pub open spec fn cursor_json(cursor: Option<String>, v: JsonValue, at: int) -> bool {
    obj_len(v) == at + (if cursor is Some { 1int } else { 0int }) && (cursor is Some ==> str_at(
        v,
        at,
        "nextCursor"@,
        cursor->0@,
    ))
}

pub open spec fn tools_list_json(l: ListToolsResult, v: JsonValue) -> bool {
    key_at(v, 0) == "tools"@ && val_at(v, 0) is Array && elems(val_at(v, 0)).len() == l.tools@.len() && (
    forall|i: int| 0 <= i < l.tools@.len() ==> #[trigger] tool_json(l.tools@[i], elems(val_at(v, 0))[i]))
        && cursor_json(l.next_cursor, v, 1)
}

fn push_cursor(members: &mut Vec<(String, JsonValue)>, cursor: &Option<String>)
    ensures
        cursor is None ==> final(members)@ == old(members)@,
        cursor is Some ==> final(members)@.len() == old(members)@.len() + 1 && final(members)@.subrange(
            0,
            old(members)@.len() as int,
        ) == old(members)@ && final(members)@.last().0@ == "nextCursor"@ && is_str(
            final(members)@.last().1,
            cursor->0@,
        ),
{
    match cursor {
        Some(c) => {
            members.push(member_entry("nextCursor", str_json(c)));
            assert(final(members)@.subrange(0, old(members)@.len() as int) =~= old(members)@);
        },
        None => {},
    }
}

pub fn tools_list_to_json(l: &ListToolsResult) -> (v: JsonValue)
    ensures
        tools_list_json(*l, v),
{
    let mut tools: Vec<JsonValue> = Vec::new();
    let mut i: usize = 0;
    while i < l.tools.len()
        invariant
            i <= l.tools@.len(),
            tools@.len() == i,
            forall|j: int| 0 <= j < i ==> #[trigger] tool_json(l.tools@[j], tools@[j]),
        decreases l.tools@.len() - i,
    {
        tools.push(tool_to_json(&l.tools[i]));
        i = i + 1;
    }
    let mut members = vec![member_entry("tools", JsonValue::Array(tools))];
    push_cursor(&mut members, &l.next_cursor);
    JsonValue::Object(members)
}

pub open spec fn resources_list_json(l: ListResourcesResult, v: JsonValue) -> bool {
    key_at(v, 0) == "resources"@ && val_at(v, 0) is Array && elems(val_at(v, 0)).len() == l.resources@.len()
        && (forall|i: int|
        0 <= i < l.resources@.len() ==> obj_len(#[trigger] elems(val_at(v, 0))[i]) == 2 && str_at(
            elems(val_at(v, 0))[i],
            0,
            "uri"@,
            l.resources@[i].uri@,
        ) && str_at(elems(val_at(v, 0))[i], 1, "name"@, l.resources@[i].name@)) && cursor_json(
        l.next_cursor,
        v,
        1,
    )
}

pub fn resources_list_to_json(l: &ListResourcesResult) -> (v: JsonValue)
    ensures
        resources_list_json(*l, v),
{
    let mut out: Vec<JsonValue> = Vec::new();
    let mut i: usize = 0;
    while i < l.resources.len()
        invariant
            i <= l.resources@.len(),
            out@.len() == i,
            forall|j: int|
                0 <= j < i ==> obj_len(#[trigger] out@[j]) == 2 && str_at(out@[j], 0, "uri"@, l.resources@[j].uri@)
                    && str_at(out@[j], 1, "name"@, l.resources@[j].name@),
        decreases l.resources@.len() - i,
    {
        let r: &Resource = &l.resources[i];
        out.push(JsonValue::Object(vec![member_entry("uri", str_json(&r.uri)), member_entry("name", str_json(&r.name))]));
        i = i + 1;
    }
    let mut members = vec![member_entry("resources", JsonValue::Array(out))];
    push_cursor(&mut members, &l.next_cursor);
    JsonValue::Object(members)
}

pub open spec fn list_capability_json(c: ListCapability, v: JsonValue) -> bool {
    match c.list_changed {
        None => is_empty_object(v),
        Some(b) => obj_len(v) == 1 && key_at(v, 0) == "listChanged"@ && val_at(v, 0) == JsonValue::Bool(b),
    }
}

fn list_capability_to_json(c: ListCapability) -> (v: JsonValue)
    ensures
        list_capability_json(c, v),
{
    match c.list_changed {
        None => JsonValue::Object(Vec::new()),
        Some(b) => JsonValue::Object(vec![member_entry("listChanged", JsonValue::Bool(b))]),
    }
}

/// The members present among `tools`, `resources` and `prompts`, in that order.
pub open spec fn present_capabilities(c: ServerCapabilities) -> Seq<(Seq<char>, ListCapability)> {
    (if c.tools is Some { seq![("tools"@, c.tools->0)] } else { Seq::empty() }) + (if c.resources is Some {
        seq![("resources"@, c.resources->0)]
    } else {
        Seq::empty()
    }) + (if c.prompts is Some { seq![("prompts"@, c.prompts->0)] } else { Seq::empty() })
}

pub open spec fn capabilities_json(c: ServerCapabilities, v: JsonValue) -> bool {
    let p = present_capabilities(c);
    v is Object && obj_len(v) == p.len() && forall|i: int|
        0 <= i < p.len() ==> #[trigger] key_at(v, i) == p[i].0 && list_capability_json(p[i].1, val_at(v, i))
}

fn push_capability(members: &mut Vec<(String, JsonValue)>, key: &str, c: Option<ListCapability>)
    ensures
        c is None ==> final(members)@ == old(members)@,
        c is Some ==> final(members)@.len() == old(members)@.len() + 1 && final(members)@.subrange(
            0,
            old(members)@.len() as int,
        ) == old(members)@ && final(members)@.last().0@ == key@ && list_capability_json(c->0, final(members)@.last().1),
{
    match c {
        Some(cap) => {
            members.push(member_entry(key, list_capability_to_json(cap)));
            assert(final(members)@.subrange(0, old(members)@.len() as int) =~= old(members)@);
        },
        None => {},
    }
}

pub fn capabilities_to_json(c: ServerCapabilities) -> (v: JsonValue)
    ensures
        capabilities_json(c, v),
{
    let mut members: Vec<(String, JsonValue)> = Vec::new();
    push_capability(&mut members, "tools", c.tools);
    let ghost m1 = members@;
    push_capability(&mut members, "resources", c.resources);
    let ghost m2 = members@;
    push_capability(&mut members, "prompts", c.prompts);
    let ghost p = present_capabilities(c);
    assert(members@.len() == p.len());
    assert forall|i: int| 0 <= i < p.len() implies members@[i].0@ == p[i].0 && list_capability_json(
        p[i].1,
        members@[i].1,
    ) by {
        if i < m1.len() {
            assert(members@[i] == m1[i]) by { assert(m2[i] == m1[i]); }
        } else if i < m2.len() {
            assert(members@[i] == m2[i]);
        }
    }
    JsonValue::Object(members)
}

pub open spec fn initialize_json(r: InitializeResult, v: JsonValue) -> bool {
    obj_len(v) == 3 && str_at(v, 0, "protocolVersion"@, r.protocol_version@) && key_at(v, 1)
        == "capabilities"@ && capabilities_json(r.capabilities, val_at(v, 1)) && key_at(v, 2) == "serverInfo"@
        && obj_len(val_at(v, 2)) == 2 && str_at(val_at(v, 2), 0, "name"@, r.server_info.name@) && str_at(
        val_at(v, 2),
        1,
        "version"@,
        r.server_info.version@,
    )
}

pub fn initialize_to_json(r: &InitializeResult) -> (v: JsonValue)
    ensures
        initialize_json(*r, v),
{
    let info: &Implementation = &r.server_info;
    JsonValue::Object(vec![
        member_entry("protocolVersion", str_json(&r.protocol_version)),
        member_entry("capabilities", capabilities_to_json(r.capabilities)),
        member_entry("serverInfo", JsonValue::Object(vec![member_entry("name", str_json(&info.name)), member_entry("version", str_json(&info.version))])),
    ])
}

pub open spec fn result_json(r: McpResult, v: JsonValue) -> bool {
    v is Object && match r {
        McpResult::Empty => is_empty_object(v),
        McpResult::Initialize(i) => initialize_json(i, v),
        McpResult::ToolsList(l) => tools_list_json(l, v),
        McpResult::ToolCall(c) => call_result_json(c, v),
        McpResult::ResourcesList(l) => resources_list_json(l, v),
    }
}

pub fn result_to_json(r: &McpResult) -> (v: JsonValue)
    ensures
        result_json(*r, v),
{
    match r {
        McpResult::Empty => JsonValue::Object(Vec::new()),
        McpResult::Initialize(i) => initialize_to_json(i),
        McpResult::ToolsList(l) => tools_list_to_json(l),
        McpResult::ToolCall(c) => call_result_to_json(c),
        McpResult::ResourcesList(l) => resources_list_to_json(l),
    }
}

pub open spec fn error_json(e: JsonRpcError, v: JsonValue) -> bool {
    obj_len(v) == 2 && key_at(v, 0) == "code"@ && val_at(v, 0) == JsonValue::Int(e.code) && str_at(
        v,
        1,
        "message"@,
        e.message@,
    )
}

/// `v` is the envelope of `r`: its version tag, its id, and its result or error.
pub open spec fn response_json(r: JsonRpcResponse, v: JsonValue) -> bool {
    obj_len(v) == 3 && str_at(v, 0, "jsonrpc"@, "2.0"@) && key_at(v, 1) == "id"@ && id_json(r.id, val_at(v, 1))
        && match r.outcome {
        Ok(res) => key_at(v, 2) == "result"@ && result_json(res, val_at(v, 2)),
        Err(e) => key_at(v, 2) == "error"@ && error_json(e, val_at(v, 2)),
    }
}

impl JsonRpcResponse {
    pub fn to_json(&self) -> (v: JsonValue)
        ensures
            response_json(*self, v),
    {
        let last = match &self.outcome {
            Ok(res) => member_entry("result", result_to_json(res)),
            Err(e) => member_entry("error", JsonValue::Object(vec![member_entry("code", JsonValue::Int(e.code)), member_entry("message", str_json(&e.message))])),
        };
        JsonValue::Object(vec![
            member_entry("jsonrpc", JsonValue::Str("2.0".to_string())),
            member_entry("id", id_to_json(&self.id)),
            last,
        ])
    }
}

} // verus!
