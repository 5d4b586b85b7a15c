//! The tool that reports the node's chain tip.
use vstd::prelude::*;
use crate::node::{ChainTip, NodeError};
use crate::protocol::{CallToolResult, Tool, single_text};
use crate::tools::{ToolError, no_argument_schema, takes_no_arguments, pretty_object, pretty_json_text, string_fields, number_fields};

verus! {

pub const DESCRIPTION: &'static str = "Get the current tip of the Cardano blockchain. Returns the block height (slot number) and block hash of the most recent block known to the connected node.";

pub open spec fn is_definition(t: Tool) -> bool {
    t.name@ == "get_tip"@ && t.description is Some && t.description->0@ == DESCRIPTION@
        && takes_no_arguments(t.input_schema)
}

pub fn definition() -> (r: Tool)
    ensures
        is_definition(r),
{
    Tool {
        name: "get_tip".to_string(),
        description: Some(DESCRIPTION.to_string()),
        input_schema: no_argument_schema(),
    }
}

/// The text the tool reports for a tip: its hash, block number and slot.
pub open spec fn tip_text(t: ChainTip) -> Seq<char> {
    pretty_json_text(
        seq![("hash"@, t.hash@)],
        seq![("block_number"@, t.block_number), ("slot"@, Some(t.slot))],
    )
}

/// Finishes a tip query with what the node answered: the tip as text, or the
/// node's failure.
pub fn execute(tip: Result<ChainTip, NodeError>) -> (r: Result<CallToolResult, ToolError>)
    ensures
        tip is Err ==> r == Err::<CallToolResult, ToolError>(ToolError::NodeError(tip->Err_0)),
        tip is Ok ==> r is Ok && !r->Ok_0.is_error && single_text(r->Ok_0, tip_text(tip->Ok_0)),
{
    match tip {
        Err(e) => Err(ToolError::NodeError(e)),
        Ok(t) => {
            let ghost t0 = t;
            let strings = vec![("hash".to_string(), t.hash)];
            let numbers = vec![("block_number".to_string(), t.block_number), ("slot".to_string(), Some(t.slot))];
            proof {
                assert(string_fields(strings@) =~= seq![("hash"@, t0.hash@)]);
                assert(number_fields(numbers@) =~= seq![("block_number"@, t0.block_number), ("slot"@, Some(t0.slot))]);
            }
            Ok(CallToolResult::text(pretty_object(strings, numbers)))
        },
    }
}

} // verus!
