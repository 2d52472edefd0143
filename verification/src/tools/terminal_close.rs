//! The tool that closes a terminal session.
use vstd::prelude::*;

use crate::json::{member, Json};
use crate::tools::operations::{
    describes, has_schema, has_shape, lemma_schema_described, property, property_with_default, schema, tool_definition, PropertyShape,
};
use crate::types::ToolDefinition;

verus! {

/// The description of the terminal_close tool.
pub open spec fn close_tool_description() -> Seq<char> {
    "Close a terminal session and optionally archive its final content."@
}

/// The properties of the terminal_close tool's arguments, in order.
pub open spec fn close_properties() -> Seq<(Seq<char>, PropertyShape)> {
    seq![
        ("name"@, PropertyShape::Plain { ty: "string"@, description: "Terminal name"@ }),
        ("archive"@, PropertyShape::Defaulted { ty: "boolean"@, description: "Whether to save final screen content"@, default: Json::Bool(false) }),
    ]
}

/// The definition of the terminal_close tool: its name, what it does, and exactly
/// the schema of its arguments (`close_properties`, of which `name` required).
pub fn definition() -> (r: ToolDefinition)
    ensures
        r.def_type@ == "function"@,
        r.function.name@ == "terminal_close"@,
        r.function.description@ == close_tool_description(),
        has_schema(r.function.parameters, close_properties(), seq!["name"@]),
{
    let props = vec![
        member("name", property("string", "Terminal name")),
        member("archive", property_with_default("boolean", "Whether to save final screen content", Json::Bool(false))),
    ];
    proof {
        let shapes = close_properties();
        assert(describes(props@, shapes)) by {
            assert forall|i: int| 0 <= i < props@.len() implies #[trigger] props@[i].0@ == shapes[i].0 && has_shape(
                props@[i].1,
                shapes[i].1,
            ) by {
                assert(0 <= i < 2);
                if i == 0 {} else {}
            }
        }
    }
    let parameters = schema(props, vec!["name"]);
    proof {
        lemma_schema_described(parameters, close_properties(), seq!["name"@]);
    }
    tool_definition("terminal_close", "Close a terminal session and optionally archive its final content.", parameters)
}

} // verus!
