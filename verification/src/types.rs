//! The conversation model: messages, tool calls, tool definitions and token
//! usage, with their JSON forms.
use vstd::prelude::*;

use crate::json::{copy_json, json_eq, member, text, Json};

verus! {

/// The function a tool call invokes, with its arguments as JSON text.
#[derive(Debug)]
pub struct FunctionCall {
    pub name: String,
    pub arguments: String,
}

/// A tool call made by the model.
#[derive(Debug)]
pub struct ToolCall {
    pub id: String,
    pub call_type: String,
    pub function: FunctionCall,
}

/// A tool call by its texts: id, type, function name, arguments.
pub type ToolCallView = (Seq<char>, Seq<char>, Seq<char>, Seq<char>);

impl View for ToolCall {
    type V = ToolCallView;

    open spec fn view(&self) -> ToolCallView {
        (self.id@, self.call_type@, self.function.name@, self.function.arguments@)
    }
}

/// The views of a list of tool calls.
pub open spec fn calls_view(v: Seq<ToolCall>) -> Seq<ToolCallView> {
    v.map_values(|c: ToolCall| c@)
}

/// A function offered to the model: its name, description and JSON schema.
#[derive(Debug)]
pub struct FunctionDef {
    pub name: String,
    pub description: String,
    pub parameters: Json,
}

/// A tool offered to the model.
#[derive(Debug)]
pub struct ToolDefinition {
    pub def_type: String,
    pub function: FunctionDef,
}

/// A message of a conversation.
#[allow(inconsistent_fields)]
#[derive(Debug)]
pub enum Message {
    System { content: String },
    User { content: String },
    Assistant {
        content: Option<String>,
        reasoning_text: Option<String>,
        reasoning_details: Option<Json>,
        tool_calls: Option<Vec<ToolCall>>,
    },
    Tool { tool_call_id: String, content: String },
}

/// Token counts reported by a model API.
#[derive(PartialEq, Eq, Structural, Clone, Copy, Debug)]
pub struct Usage {
    pub prompt_tokens: Option<u32>,
    pub completion_tokens: Option<u32>,
    pub total_tokens: Option<u32>,
    pub reasoning_tokens: Option<u32>,
}

/// Whether `v` is the string `t`.
pub open spec fn is_text(v: Json, t: Seq<char>) -> bool {
    v matches Json::String(s) && s@ == t
}

/// Whether `m` is the member `key` holding the string `t`.
pub open spec fn is_text_member(m: (String, Json), key: Seq<char>, t: Seq<char>) -> bool {
    m.0@ == key && is_text(m.1, t)
}

/// Whether `v` is the JSON form of the call `c`:
/// `{"id", "type", "function": {"name", "arguments"}}`.
pub open spec fn is_call_json(v: Json, c: ToolCallView) -> bool {
    match v {
        Json::Object(fs) => {
            &&& fs@.len() == 3
            &&& is_text_member(fs@[0], "id"@, c.0)
            &&& is_text_member(fs@[1], "type"@, c.1)
            &&& fs@[2].0@ == "function"@
            &&& match fs@[2].1 {
                Json::Object(gs) => gs@.len() == 2 && is_text_member(gs@[0], "name"@, c.2) && is_text_member(
                    gs@[1],
                    "arguments"@,
                    c.3,
                ),
                _ => false,
            }
        },
        _ => false,
    }
}

/// The JSON form of a tool call.
pub fn tool_call_json(c: &ToolCall) -> (r: Json)
    ensures
        is_call_json(r, c@),
{
    proof {
        reveal_strlit("id");
        reveal_strlit("type");
        reveal_strlit("function");
        reveal_strlit("name");
        reveal_strlit("arguments");
    }
    let function = Json::Object(
        vec![member("name", text(c.function.name.as_str())), member("arguments", text(c.function.arguments.as_str()))],
    );
    Json::Object(
        vec![member("id", text(c.id.as_str())), member("type", text(c.call_type.as_str())), member("function", function)],
    )
}

/// The JSON form of a list of tool calls: an array of their forms.
pub fn tool_calls_json(calls: &Vec<ToolCall>) -> (r: Json)
    ensures
        r matches Json::Array(items) && items@.len() == calls@.len() && forall|i: int|
            0 <= i < calls@.len() ==> is_call_json(#[trigger] items@[i], calls@[i]@),
{
    let mut items: Vec<Json> = Vec::new();
    let mut i: usize = 0;
    while i < calls.len()
        invariant
            i <= calls@.len(),
            items@.len() == i,
            forall|k: int| 0 <= k < i ==> is_call_json(#[trigger] items@[k], calls@[k]@),
        decreases calls.len() - i,
    {
        items.push(tool_call_json(&calls[i]));
        i = i + 1;
    }
    Json::Array(items)
}

/// Whether `v` is the JSON form of the tool `t`:
/// `{"type", "function": {"name", "description", "parameters"}}`.
pub open spec fn is_tool_json(v: Json, t: ToolDefinition) -> bool {
    match v {
        Json::Object(fs) => {
            &&& fs@.len() == 2
            &&& is_text_member(fs@[0], "type"@, t.def_type@)
            &&& fs@[1].0@ == "function"@
            &&& match fs@[1].1 {
                Json::Object(gs) => {
                    &&& gs@.len() == 3
                    &&& is_text_member(gs@[0], "name"@, t.function.name@)
                    &&& is_text_member(gs@[1], "description"@, t.function.description@)
                    &&& gs@[2].0@ == "parameters"@
                    &&& json_eq(gs@[2].1, t.function.parameters)
                },
                _ => false,
            }
        },
        _ => false,
    }
}

/// The JSON form of a tool definition.
pub fn tool_definition_json(t: &ToolDefinition) -> (r: Json)
    ensures
        is_tool_json(r, *t),
{
    proof {
        reveal_strlit("type");
        reveal_strlit("function");
        reveal_strlit("name");
        reveal_strlit("description");
        reveal_strlit("parameters");
    }
    let function = Json::Object(
        vec![
            member("name", text(t.function.name.as_str())),
            member("description", text(t.function.description.as_str())),
            member("parameters", copy_json(&t.function.parameters)),
        ],
    );
    Json::Object(vec![member("type", text(t.def_type.as_str())), member("function", function)])
}

} // verus!
