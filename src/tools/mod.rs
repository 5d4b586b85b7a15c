//! The tools a client can call, and the registry that dispatches to them by name.
pub mod get_network;
pub mod get_tip;

use vstd::prelude::*;
use vstd::string::StringExecFns;
use crate::json::JsonValue;
use crate::node::{NodeClient, NodeError};
use crate::protocol::{CallToolResult, Tool, ToolInputSchema};

verus! {

/// The text serde_json pretty-prints for an object with these string and
/// number members.
pub uninterp spec fn pretty_json_text(
    strings: Seq<(Seq<char>, Seq<char>)>,
    numbers: Seq<(Seq<char>, Option<u64>)>,
) -> Seq<char>;

pub open spec fn string_fields(v: Seq<(String, String)>) -> Seq<(Seq<char>, Seq<char>)> {
    v.map_values(|p: (String, String)| (p.0@, p.1@))
}

pub open spec fn number_fields(v: Seq<(String, Option<u64>)>) -> Seq<(Seq<char>, Option<u64>)> {
    v.map_values(|p: (String, Option<u64>)| (p.0@, p.1))
}

/// Relies on serde_json::to_string_pretty, on an object of string members and
/// of number-or-null members: the text depends on the members alone.
#[verifier::external_body]
pub(crate) fn pretty_object(strings: Vec<(String, String)>, numbers: Vec<(String, Option<u64>)>) -> (r:
    String)
    ensures
        r@ == pretty_json_text(string_fields(strings@), number_fields(numbers@)),
{
    let mut m: serde_json::Map<String, serde_json::Value> = strings.into_iter().map(
        |(k, v)| (k, serde_json::Value::String(v)),
    ).collect();
    m.extend(numbers.into_iter().map(|(k, n)| (k, serde_json::Value::from(n))));
    serde_json::to_string_pretty(&m).unwrap_or_default()
}

/// An object schema with no properties.
pub open spec fn takes_no_arguments(s: ToolInputSchema) -> bool {
    s.schema_type@ == "object"@ && s.properties@.len() == 0 && s.required is None
}

pub fn no_argument_schema() -> (r: ToolInputSchema)
    ensures
        takes_no_arguments(r),
{
    ToolInputSchema { schema_type: "object".to_string(), properties: Vec::new(), required: None }
}

/// Why a tool call failed.
#[derive(Debug)]
pub enum ToolError {
    NotFound(String),
    NodeError(NodeError),
}

impl ToolError {
    pub open spec fn message_spec(&self) -> Seq<char> {
        match self {
            ToolError::NotFound(name) => "Tool not found: "@ + name@,
            ToolError::NodeError(e) => "Node error: "@ + e.message_spec(),
        }
    }

    pub fn message(&self) -> (r: String)
        ensures
            r@ == self.message_spec(),
    {
        match self {
            ToolError::NotFound(name) => {
                let mut s = "Tool not found: ".to_string();
                s.append(name.as_str());
                s
            },
            ToolError::NodeError(e) => {
                let mut s = "Node error: ".to_string();
                let m = e.message();
                s.append(m.as_str());
                s
            },
        }
    }
}

/// A tool the registry can hold.
#[derive(Debug, Clone, Copy, PartialEq, Eq, Structural)]
pub enum ToolKind {
    GetTip,
    GetNetwork,
}

impl ToolKind {
    pub open spec fn name_spec(self) -> Seq<char> {
        match self {
            ToolKind::GetTip => "get_tip"@,
            ToolKind::GetNetwork => "get_network"@,
        }
    }

    pub fn name(self) -> (r: String)
        ensures
            r@ == self.name_spec(),
    {
        match self {
            ToolKind::GetTip => "get_tip".to_string(),
            ToolKind::GetNetwork => "get_network".to_string(),
        }
    }

    pub open spec fn describes(self, t: Tool) -> bool {
        match self {
            ToolKind::GetTip => get_tip::is_definition(t),
            ToolKind::GetNetwork => get_network::is_definition(t),
        }
    }

    pub fn definition(self) -> (r: Tool)
        ensures
            self.describes(r),
    {
        match self {
            ToolKind::GetTip => get_tip::definition(),
            ToolKind::GetNetwork => get_network::definition(),
        }
    }
}

/// The first tool of `kinds` named `name`.
pub open spec fn lookup(kinds: Seq<ToolKind>, name: Seq<char>) -> Option<ToolKind>
    decreases kinds.len(),
{
    if kinds.len() == 0 {
        None
    } else if kinds[0].name_spec() == name {
        Some(kinds[0])
    } else {
        lookup(kinds.drop_first(), name)
    }
}

/// Where a tool call stands after dispatch: finished, or waiting for the
/// node's chain tip (see `get_tip::execute`).
#[derive(Debug)]
pub enum ToolStep {
    Finished(Result<CallToolResult, ToolError>),
    QueryTip,
}

/// The fixed set of tools, in the order clients see them.
#[derive(Debug)]
pub struct ToolRegistry {
    tools: Vec<ToolKind>,
}

/// `ts` describes `kinds`, one for one and in order.
pub open spec fn lists(ts: Seq<Tool>, kinds: Seq<ToolKind>) -> bool {
    ts.len() == kinds.len() && forall|i: int| 0 <= i < ts.len() ==> #[trigger] kinds[i].describes(ts[i])
}

/// What a client sees of a tool: name, description, schema type, properties
/// and required properties.
pub open spec fn tool_view(t: Tool) -> (
    Seq<char>,
    Option<Seq<char>>,
    Seq<char>,
    Seq<(Seq<char>, Seq<char>)>,
    Option<Seq<Seq<char>>>,
) {
    (
        t.name@,
        match t.description {
            Some(d) => Some(d@),
            None => None,
        },
        t.input_schema.schema_type@,
        t.input_schema.properties@.map_values(|p: (String, String)| (p.0@, p.1@)),
        match t.input_schema.required {
            Some(r) => Some(r@.map_values(|s: String| s@)),
            None => None,
        },
    )
}

/// Listing the tools is deterministic: two listings of the same registry show
/// the same tools, in the same order.
pub proof fn lemma_listing_stable(kinds: Seq<ToolKind>, a: Seq<Tool>, b: Seq<Tool>)
    requires
        lists(a, kinds),
        lists(b, kinds),
    ensures
        a.map_values(|t: Tool| tool_view(t)) == b.map_values(|t: Tool| tool_view(t)),
{
    assert forall|i: int| 0 <= i < a.len() implies tool_view(a[i]) == tool_view(b[i]) by {
        assert(kinds[i].describes(a[i]));
        assert(kinds[i].describes(b[i]));
        assert(a[i].input_schema.properties@.map_values(|p: (String, String)| (p.0@, p.1@)) =~= b[i].input_schema.properties@.map_values(|p: (String, String)| (p.0@, p.1@)));
    }
    assert(a.map_values(|t: Tool| tool_view(t)) =~= b.map_values(|t: Tool| tool_view(t)));
}

impl ToolRegistry {
    pub closed spec fn kinds(&self) -> Seq<ToolKind> {
        self.tools@
    }

    pub fn new() -> (r: ToolRegistry)
        ensures
            r.kinds() == seq![ToolKind::GetTip],
    {
        let tools = vec![ToolKind::GetTip];
        proof {
            assert(tools@ =~= seq![ToolKind::GetTip]);
        }
        ToolRegistry { tools }
    }

    /// The definitions of the registered tools, in registration order.
    pub fn list_tools(&self) -> (r: Vec<Tool>)
        ensures
            lists(r@, self.kinds()),
    {
        let mut out: Vec<Tool> = Vec::new();
        let mut i: usize = 0;
        while i < self.tools.len()
            invariant
                i <= self.tools@.len(),
                lists(out@, self.tools@.subrange(0, i as int)),
            decreases self.tools@.len() - i,
        {
            out.push(self.tools[i].definition());
            i = i + 1;
        }
        proof {
            assert(self.tools@.subrange(0, i as int) =~= self.tools@);
        }
        out
    }

    fn find(&self, name: &String) -> (r: Option<ToolKind>)
        ensures
            r == lookup(self.kinds(), name@),
    {
        let mut i: usize = 0;
        proof {
            assert(self.tools@.subrange(0, self.tools@.len() as int) =~= self.tools@);
        }
        while i < self.tools.len()
            invariant
                i <= self.tools@.len(),
                lookup(self.tools@, name@) == lookup(self.tools@.subrange(i as int, self.tools@.len() as int), name@),
            decreases self.tools@.len() - i,
        {
            let k = self.tools[i];
            proof {
                let rest = self.tools@.subrange(i as int, self.tools@.len() as int);
                assert(rest.drop_first() =~= self.tools@.subrange(i + 1, self.tools@.len() as int));
            }
            if k.name() == *name {
                return Some(k);
            }
            i = i + 1;
        }
        None
    }

    /// Resolves `name` and runs the tool as far as it goes without the node:
    /// an unknown name fails with `NotFound`; the tip query fails at once on a
    /// client with no socket and otherwise waits for the node.
    pub fn call_tool(&self, name: &String, arguments: &JsonValue, node_client: &NodeClient) -> (r:
        ToolStep)
        ensures
            lookup(self.kinds(), name@) is None ==> r is Finished && r->Finished_0 is Err
                && r->Finished_0->Err_0 is NotFound && r->Finished_0->Err_0->NotFound_0@ == name@,
            lookup(self.kinds(), name@) == Some(ToolKind::GetTip) ==> (if node_client.socket_spec() is None {
                r is Finished && r->Finished_0 == Err::<CallToolResult, ToolError>(
                    ToolError::NodeError(NodeError::SocketNotConfigured),
                )
            } else {
                r is QueryTip
            }),
            lookup(self.kinds(), name@) == Some(ToolKind::GetNetwork) ==> r is Finished
                && r->Finished_0 is Ok && get_network::reports(r->Finished_0->Ok_0, *node_client),
    {
        match self.find(name) {
            None => ToolStep::Finished(Err(ToolError::NotFound(name.clone()))),
            Some(ToolKind::GetTip) => match node_client.connect_target() {
                Err(e) => ToolStep::Finished(Err(ToolError::NodeError(e))),
                Ok(_) => ToolStep::QueryTip,
            },
            Some(ToolKind::GetNetwork) => ToolStep::Finished(get_network::execute(arguments, node_client)),
        }
    }
}

impl Default for ToolRegistry {
    fn default() -> (r: ToolRegistry)
        ensures
            r.kinds() == seq![ToolKind::GetTip],
    {
        ToolRegistry::new()
    }
}

} // verus!
