//! The tool that opens a terminal session.
use vstd::prelude::*;

use crate::json::member;
use crate::tools::operations::{
    describes, has_schema, has_shape, lemma_schema_described, property, schema, string_map_property, tool_definition, PropertyShape,
};
use crate::types::ToolDefinition;

verus! {

/// The description of the terminal_create tool.
pub open spec fn create_tool_description() -> Seq<char> {
    "Create a new interactive terminal session with a PTY."@
}

/// The properties of the terminal_create tool's arguments, in order.
pub open spec fn create_properties() -> Seq<(Seq<char>, PropertyShape)> {
    seq![
        ("name"@, PropertyShape::Plain { ty: "string"@, description: "Unique name for the terminal session"@ }),
        ("cols"@, PropertyShape::Plain { ty: "integer"@, description: "Terminal width in columns (default: 140)"@ }),
        ("rows"@, PropertyShape::Plain { ty: "integer"@, description: "Terminal height in rows (default: 50)"@ }),
        ("cwd"@, PropertyShape::Plain { ty: "string"@, description: "Working directory for the shell (default: current directory)"@ }),
        ("env"@, PropertyShape::StringMap { description: "Additional environment variables as key-value pairs"@ }),
    ]
}

/// The definition of the terminal_create tool: its name, what it does, and exactly
/// the schema of its arguments (`create_properties`, of which `name` required).
pub fn definition() -> (r: ToolDefinition)
    ensures
        r.def_type@ == "function"@,
        r.function.name@ == "terminal_create"@,
        r.function.description@ == create_tool_description(),
        has_schema(r.function.parameters, create_properties(), seq!["name"@]),
{
    let props = vec![
        member("name", property("string", "Unique name for the terminal session")),
        member("cols", property("integer", "Terminal width in columns (default: 140)")),
        member("rows", property("integer", "Terminal height in rows (default: 50)")),
        member("cwd", property("string", "Working directory for the shell (default: current directory)")),
        member("env", string_map_property("Additional environment variables as key-value pairs")),
    ];
    proof {
        let shapes = create_properties();
        assert(describes(props@, shapes)) by {
            assert forall|i: int| 0 <= i < props@.len() implies #[trigger] props@[i].0@ == shapes[i].0 && has_shape(
                props@[i].1,
                shapes[i].1,
            ) by {
                assert(0 <= i < 5);
                if i == 0 {} else if i == 1 {} else if i == 2 {} else if i == 3 {} else {}
            }
        }
    }
    let parameters = schema(props, vec!["name"]);
    proof {
        lemma_schema_described(parameters, create_properties(), seq!["name"@]);
    }
    tool_definition("terminal_create", "Create a new interactive terminal session with a PTY.", parameters)
}

} // verus!
