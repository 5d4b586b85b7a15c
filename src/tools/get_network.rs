//! The tool that reports which network the node serves.
use vstd::prelude::*;
use crate::json::JsonValue;
use crate::node::NodeClient;
use crate::protocol::{CallToolResult, Tool, single_text};
use crate::tools::{ToolError, no_argument_schema, takes_no_arguments, pretty_object, pretty_json_text, string_fields, number_fields};

verus! {

pub const DESCRIPTION: &'static str = "Get the Cardano network the connected node is running on. Returns the network name (mainnet, preprod, preview, or other) and network magic number.";

pub open spec fn is_definition(t: Tool) -> bool {
    t.name@ == "get_network"@ && t.description is Some && t.description->0@ == DESCRIPTION@
        && takes_no_arguments(t.input_schema)
}

pub fn definition() -> (r: Tool)
    ensures
        is_definition(r),
{
    Tool {
        name: "get_network".to_string(),
        description: Some(DESCRIPTION.to_string()),
        input_schema: no_argument_schema(),
    }
}

/// The text the tool reports for a network magic: the network's name and the magic.
pub open spec fn network_text(magic: u64) -> Seq<char> {
    pretty_json_text(
        seq![("network"@, NodeClient::network_name_of(magic))],
        seq![("magic"@, Some(magic))],
    )
}

/// `r` reports the network of `node`.
pub open spec fn reports(r: CallToolResult, node: NodeClient) -> bool {
    !r.is_error && single_text(r, network_text(node.magic_spec()))
}

/// Reports the client's network; it takes no arguments and asks the node nothing.
pub fn execute(arguments: &JsonValue, node_client: &NodeClient) -> (r: Result<CallToolResult, ToolError>)
    ensures
        r is Ok && reports(r->Ok_0, *node_client),
{
    let magic = node_client.network_magic();
    let strings = vec![("network".to_string(), node_client.network_name().to_string())];
    let numbers = vec![("magic".to_string(), Some(magic))];
    proof {
        assert(string_fields(strings@) =~= seq![("network"@, NodeClient::network_name_of(magic))]);
        assert(number_fields(numbers@) =~= seq![("magic"@, Some(magic))]);
    }
    Ok(CallToolResult::text(pretty_object(strings, numbers)))
}

} // verus!
