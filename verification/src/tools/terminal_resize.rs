//! The tool that resizes a terminal session.
use vstd::prelude::*;

use crate::json::{field, member, u64_of, Json};
use crate::tools::operations::opt_u64;
use crate::tools::{tool_error, ToolResult};
use crate::tools::operations::{
    describes, has_schema, has_shape, lemma_schema_described, property, schema, tool_definition, PropertyShape,
};
use crate::types::ToolDefinition;

verus! {

/// The description of the terminal_resize tool.
pub open spec fn resize_tool_description() -> Seq<char> {
    "Resize an existing terminal session to new dimensions."@
}

/// The properties of the terminal_resize tool's arguments, in order.
pub open spec fn resize_properties() -> Seq<(Seq<char>, PropertyShape)> {
    seq![
        ("name"@, PropertyShape::Plain { ty: "string"@, description: "Terminal name"@ }),
        ("cols"@, PropertyShape::Plain { ty: "integer"@, description: "New width in columns"@ }),
        ("rows"@, PropertyShape::Plain { ty: "integer"@, description: "New height in rows"@ }),
    ]
}

/// The definition of the terminal_resize tool: its name, what it does, and exactly
/// the schema of its arguments (`resize_properties`, of which `name`, `cols`, `rows` required).
pub fn definition() -> (r: ToolDefinition)
    ensures
        r.def_type@ == "function"@,
        r.function.name@ == "terminal_resize"@,
        r.function.description@ == resize_tool_description(),
        has_schema(r.function.parameters, resize_properties(), seq!["name"@, "cols"@, "rows"@]),
{
    let props = vec![
        member("name", property("string", "Terminal name")),
        member("cols", property("integer", "New width in columns")),
        member("rows", property("integer", "New height in rows")),
    ];
    proof {
        let shapes = resize_properties();
        assert(describes(props@, shapes)) by {
            assert forall|i: int| 0 <= i < props@.len() implies #[trigger] props@[i].0@ == shapes[i].0 && has_shape(
                props@[i].1,
                shapes[i].1,
            ) by {
                assert(0 <= i < 3);
                if i == 0 {} else if i == 1 {} else {}
            }
        }
    }
    let parameters = schema(props, vec!["name", "cols", "rows"]);
    proof {
        lemma_schema_described(parameters, resize_properties(), seq!["name"@, "cols"@, "rows"@]);
    }
    tool_definition("terminal_resize", "Resize an existing terminal session to new dimensions.", parameters)
}

/// The size the terminal_resize tool asks for, or the error for the first of
/// `cols` and `rows` that is missing; each is cut to 16 bits.
pub fn requested_size(args: &Json) -> (r: Result<(u16, u16), ToolResult>)
    ensures
        match (u64_of(field(Some(*args), "cols"@)), u64_of(field(Some(*args), "rows"@))) {
            (None, _) => r matches Err(e) && e.is_error && e.content@ == "Error: 'cols' argument required"@,
            (Some(_), None) => r matches Err(e) && e.is_error && e.content@ == "Error: 'rows' argument required"@,
            (Some(c), Some(w)) => r == Ok::<(u16, u16), ToolResult>((c as u16, w as u16)),
        },
{
    let cols = match opt_u64(args, "cols") {
        Some(v) => #[verifier::truncate] (v as u16),
        None => {
            return Err(tool_error(String::from_str("Error: 'cols' argument required")));
        },
    };
    let rows = match opt_u64(args, "rows") {
        Some(v) => #[verifier::truncate] (v as u16),
        None => {
            return Err(tool_error(String::from_str("Error: 'rows' argument required")));
        },
    };
    Ok((cols, rows))
}

} // verus!
