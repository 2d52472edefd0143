//! The request bodies of the three backends.
use vstd::prelude::*;

use crate::api::{effort_name, ApiError, ReasoningEffort};
use crate::json::{copy_json, items_eq, json_eq, member, text, text_or_null, Json, JsonNumber};
use crate::types::{
    is_call_json, is_text, is_text_member, is_tool_json, tool_calls_json, tool_definition_json, Message, ToolCall,
    ToolDefinition,
};

verus! {

/// The string value `s`, or `null`.
pub open spec fn is_text_or_null(v: Json, s: Option<String>) -> bool {
    match s {
        Some(t) => is_text(v, t@),
        None => v is Null,
    }
}

/// Whether `v` is the chat-completions form of `m`: `role` and `content`,
/// with an assistant's `reasoning_content` and `tool_calls` after them when
/// present, and a tool result's `tool_call_id` between.
pub open spec fn is_chat_message_json(v: Json, m: Message) -> bool {
    match m {
        Message::System { content } => match v {
            Json::Object(fs) => fs@.len() == 2 && is_text_member(fs@[0], "role"@, "system"@) && is_text_member(
                fs@[1],
                "content"@,
                content@,
            ),
            _ => false,
        },
        Message::User { content } => match v {
            Json::Object(fs) => fs@.len() == 2 && is_text_member(fs@[0], "role"@, "user"@) && is_text_member(
                fs@[1],
                "content"@,
                content@,
            ),
            _ => false,
        },
        Message::Tool { tool_call_id, content } => match v {
            Json::Object(fs) => fs@.len() == 3 && is_text_member(fs@[0], "role"@, "tool"@) && is_text_member(
                fs@[1],
                "tool_call_id"@,
                tool_call_id@,
            ) && is_text_member(fs@[2], "content"@, content@),
            _ => false,
        },
        Message::Assistant { content, reasoning_text, tool_calls, .. } => match v {
            Json::Object(fs) => {
                let n_reasoning: int = if reasoning_text is Some { 1 } else { 0 };
                let n_calls: int = if tool_calls is Some { 1 } else { 0 };
                &&& fs@.len() == 2 + n_reasoning + n_calls
                &&& is_text_member(fs@[0], "role"@, "assistant"@)
                &&& fs@[1].0@ == "content"@
                &&& is_text_or_null(fs@[1].1, content)
                &&& reasoning_text matches Some(r) ==> is_text_member(fs@[2], "reasoning_content"@, r@)
                &&& tool_calls matches Some(calls) ==> fs@[2 + n_reasoning].0@ == "tool_calls"@ && is_calls_array(
                    fs@[2 + n_reasoning].1,
                    calls@,
                )
            },
            _ => false,
        },
    }
}

/// Whether `v` is the array of the JSON forms of `calls`.
pub open spec fn is_calls_array(v: Json, calls: Seq<ToolCall>) -> bool {
    match v {
        Json::Array(items) => items@.len() == calls.len() && forall|i: int|
            0 <= i < calls.len() ==> is_call_json(#[trigger] items@[i], calls[i]@),
        _ => false,
    }
}

/// The chat-completions form of a message.
pub fn fireworks_message_to_value(message: &Message) -> (r: Json)
    ensures
        is_chat_message_json(r, *message),
{
    proof {
        reveal_strlit("role");
        reveal_strlit("content");
        reveal_strlit("system");
        reveal_strlit("user");
        reveal_strlit("tool");
        reveal_strlit("assistant");
        reveal_strlit("tool_call_id");
        reveal_strlit("reasoning_content");
        reveal_strlit("tool_calls");
    }
    match message {
        Message::System { content } => Json::Object(
            vec![member("role", text("system")), member("content", text(content.as_str()))],
        ),
        Message::User { content } => Json::Object(
            vec![member("role", text("user")), member("content", text(content.as_str()))],
        ),
        Message::Assistant { content, reasoning_text, tool_calls, .. } => {
            let mut fields: Vec<(String, Json)> = vec![
                member("role", text("assistant")),
                member("content", text_or_null(content)),
            ];
            match reasoning_text {
                Some(r) => fields.push(member("reasoning_content", text(r.as_str()))),
                None => {},
            }
            match tool_calls {
                Some(calls) => fields.push(member("tool_calls", tool_calls_json(calls))),
                None => {},
            }
            Json::Object(fields)
        },
        Message::Tool { tool_call_id, content } => Json::Object(
            vec![
                member("role", text("tool")),
                member("tool_call_id", text(tool_call_id.as_str())),
                member("content", text(content.as_str())),
            ],
        ),
    }
}

/// The chat-completions forms of a list of messages, as an array.
pub fn chat_messages_json(messages: &Vec<Message>) -> (r: Json)
    ensures
        match r {
            Json::Array(items) => items@.len() == messages@.len() && forall|i: int|
                0 <= i < messages@.len() ==> is_chat_message_json(#[trigger] items@[i], messages@[i]),
            _ => false,
        },
{
    let mut items: Vec<Json> = Vec::new();
    let mut i: usize = 0;
    while i < messages.len()
        invariant
            i <= messages@.len(),
            items@.len() == i,
            forall|k: int| 0 <= k < i ==> is_chat_message_json(#[trigger] items@[k], messages@[k]),
        decreases messages.len() - i,
    {
        items.push(fireworks_message_to_value(&messages[i]));
        i = i + 1;
    }
    Json::Array(items)
}

/// Whether `v` is the array of the JSON forms of `tools`.
pub open spec fn is_tools_array(v: Json, tools: Seq<ToolDefinition>) -> bool {
    match v {
        Json::Array(items) => items@.len() == tools.len() && forall|i: int|
            0 <= i < tools.len() ==> is_tool_json(#[trigger] items@[i], tools[i]),
        _ => false,
    }
}

/// The JSON forms of a list of tool definitions, as an array.
pub fn tools_json(tools: &Vec<ToolDefinition>) -> (r: Json)
    ensures
        is_tools_array(r, tools@),
{
    let mut items: Vec<Json> = Vec::new();
    let mut i: usize = 0;
    while i < tools.len()
        invariant
            i <= tools@.len(),
            items@.len() == i,
            forall|k: int| 0 <= k < i ==> is_tool_json(#[trigger] items@[k], tools@[k]),
        decreases tools.len() - i,
    {
        items.push(tool_definition_json(&tools[i]));
        i = i + 1;
    }
    Json::Array(items)
}

/// Whether `v` is the responses-API form of `t`:
/// `{"type": "function", "name", "description", "parameters"}`.
pub open spec fn is_responses_tool_json(v: Json, t: ToolDefinition) -> bool {
    match v {
        Json::Object(fs) => {
            &&& fs@.len() == 4
            &&& is_text_member(fs@[0], "type"@, "function"@)
            &&& is_text_member(fs@[1], "name"@, t.function.name@)
            &&& is_text_member(fs@[2], "description"@, t.function.description@)
            &&& fs@[3].0@ == "parameters"@
            &&& json_eq(fs@[3].1, t.function.parameters)
        },
        _ => false,
    }
}

/// The responses-API form of a tool definition.
pub fn openai_responses_tool_to_value(tool: &ToolDefinition) -> (r: Json)
    ensures
        is_responses_tool_json(r, *tool),
{
    proof {
        reveal_strlit("type");
        reveal_strlit("function");
        reveal_strlit("name");
        reveal_strlit("description");
        reveal_strlit("parameters");
    }
    Json::Object(
        vec![
            member("type", text("function")),
            member("name", text(tool.function.name.as_str())),
            member("description", text(tool.function.description.as_str())),
            member("parameters", copy_json(&tool.function.parameters)),
        ],
    )
}

/// Whether `v` is `model` and the chat-completions forms of `messages`, the
/// first two members of a chat request.
pub open spec fn starts_chat_request(fs: Seq<(String, Json)>, model: Seq<char>, messages: Seq<Message>) -> bool {
    &&& fs.len() >= 2
    &&& is_text_member(fs[0], "model"@, model)
    &&& fs[1].0@ == "messages"@
    &&& match fs[1].1 {
        Json::Array(items) => items@.len() == messages.len() && forall|i: int|
            0 <= i < messages.len() ==> is_chat_message_json(#[trigger] items@[i], messages[i]),
        _ => false,
    }
}

/// Whether `v` is the deepseek chat request for `model`, `messages` and
/// `tools`: the model, the messages, thinking enabled, the maximal reasoning
/// effort, and the tools when there are any.
pub open spec fn is_deepseek_request(v: Json, model: Seq<char>, messages: Seq<Message>, tools: Seq<ToolDefinition>) -> bool {
    match v {
        Json::Object(fs) => {
            &&& fs@.len() == (if tools.len() == 0 { 4int } else { 5int })
            &&& starts_chat_request(fs@, model, messages)
            &&& fs@[2].0@ == "thinking"@
            &&& match fs@[2].1 {
                Json::Object(gs) => gs@.len() == 1 && is_text_member(gs@[0], "type"@, "enabled"@),
                _ => false,
            }
            &&& is_text_member(fs@[3], "reasoning_effort"@, "max"@)
            &&& tools.len() > 0 ==> fs@[4].0@ == "tools"@ && is_tools_array(fs@[4].1, tools)
        },
        _ => false,
    }
}

/// The deepseek chat request: the model, the messages, thinking enabled at the
/// maximal reasoning effort, and the tools when there are any.
pub fn deepseek_chat_request(model: &str, messages: &Vec<Message>, tools: &Vec<ToolDefinition>) -> (r: Json)
    ensures
        is_deepseek_request(r, model@, messages@, tools@),
{
    proof {
        reveal_strlit("model");
        reveal_strlit("messages");
        reveal_strlit("thinking");
        reveal_strlit("type");
        reveal_strlit("enabled");
        reveal_strlit("reasoning_effort");
        reveal_strlit("max");
        reveal_strlit("tools");
    }
    let mut fields: Vec<(String, Json)> = vec![
        member("model", text(model)),
        member("messages", chat_messages_json(messages)),
        member("thinking", Json::Object(vec![member("type", text("enabled"))])),
        member("reasoning_effort", text("max")),
    ];
    if tools.len() > 0 {
        fields.push(member("tools", tools_json(tools)));
    }
    Json::Object(fields)
}

/// Whether an effort level is one the fireworks backend takes.
pub open spec fn fireworks_accepts(e: ReasoningEffort) -> bool {
    e == ReasoningEffort::Low || e == ReasoningEffort::Medium || e == ReasoningEffort::High
}

/// Whether `v` is the fireworks chat request for `model`, `messages`, `tools`
/// and `effort`: the model, the messages, the tools (even none), temperature
/// zero, and the effort when one is given.
pub open spec fn is_fireworks_request(
    v: Json,
    model: Seq<char>,
    messages: Seq<Message>,
    tools: Seq<ToolDefinition>,
    effort: Option<ReasoningEffort>,
) -> bool {
    match v {
        Json::Object(fs) => {
            &&& fs@.len() == (if effort is Some { 5int } else { 4int })
            &&& starts_chat_request(fs@, model, messages)
            &&& fs@[2].0@ == "tools"@
            &&& is_tools_array(fs@[2].1, tools)
            &&& fs@[3].0@ == "temperature"@
            &&& fs@[3].1 matches Json::Number(JsonNumber::Decimal(t)) && t@ == "0.0"@
            &&& effort matches Some(e) ==> is_text_member(fs@[4], "reasoning_effort"@, effort_name(e))
        },
        _ => false,
    }
}

/// The fireworks chat request; an effort other than low, medium or high is
/// refused.
pub fn fireworks_chat_request(
    model: &str,
    messages: &Vec<Message>,
    tools: &Vec<ToolDefinition>,
    effort: Option<ReasoningEffort>,
) -> (r: Result<Json, ApiError>)
    ensures
        match effort {
            Some(e) if !fireworks_accepts(e) => r matches Err(ApiError::UnsupportedReasoningEffort { effort: x }) && x
                == e,
            _ => r matches Ok(v) && is_fireworks_request(v, model@, messages@, tools@, effort),
        },
{
    proof {
        reveal_strlit("model");
        reveal_strlit("messages");
        reveal_strlit("tools");
        reveal_strlit("temperature");
        reveal_strlit("0.0");
        reveal_strlit("reasoning_effort");
    }
    let mut fields: Vec<(String, Json)> = vec![
        member("model", text(model)),
        member("messages", chat_messages_json(messages)),
        member("tools", tools_json(tools)),
        member("temperature", Json::Number(JsonNumber::Decimal(String::from_str("0.0")))),
    ];
    match effort {
        Some(e) => match e {
            ReasoningEffort::Low | ReasoningEffort::Medium | ReasoningEffort::High => {
                fields.push(member("reasoning_effort", text(e.as_str())));
            },
            unsupported => {
                return Err(ApiError::UnsupportedReasoningEffort { effort: unsupported });
            },
        },
        None => {},
    }
    Ok(Json::Object(fields))
}

/// The reasoning items an assistant message carries back to the responses
/// API: the elements of an array, an object itself, nothing otherwise.
pub open spec fn carried_reasoning(details: Option<Json>) -> Seq<Json> {
    match details {
        Some(Json::Array(vals)) => vals@,
        Some(Json::Object(fs)) => seq![Json::Object(fs)],
        _ => seq![],
    }
}

/// How many input items a message becomes.
pub open spec fn input_item_count(m: Message) -> int {
    match m {
        Message::Assistant { content, reasoning_details, tool_calls, .. } => carried_reasoning(reasoning_details).len()
            + match tool_calls {
            Some(calls) => calls@.len() as int,
            None => 0int,
        } + if content is Some {
            1int
        } else {
            0int
        },
        _ => 1,
    }
}

/// Whether `v` is the function call item of `c`:
/// `{"type": "function_call", "call_id", "name", "arguments"}`.
pub open spec fn is_function_call_item(v: Json, c: ToolCall) -> bool {
    match v {
        Json::Object(fs) => {
            &&& fs@.len() == 4
            &&& is_text_member(fs@[0], "type"@, "function_call"@)
            &&& is_text_member(fs@[1], "call_id"@, c.id@)
            &&& is_text_member(fs@[2], "name"@, c.function.name@)
            &&& is_text_member(fs@[3], "arguments"@, c.function.arguments@)
        },
        _ => false,
    }
}

/// Whether `v` is `{"role": role, "content": content}`.
pub open spec fn is_role_item(v: Json, role: Seq<char>, content: Seq<char>) -> bool {
    match v {
        Json::Object(fs) => fs@.len() == 2 && is_text_member(fs@[0], "role"@, role) && is_text_member(
            fs@[1],
            "content"@,
            content,
        ),
        _ => false,
    }
}

/// Whether `seg` are the input items of the message `m`: a system or user
/// message is one role item; a tool result is one function call output item;
/// an assistant message is its carried reasoning items, then one function
/// call item per tool call, then its text when it has one.
pub open spec fn is_message_items(seg: Seq<Json>, m: Message) -> bool {
    &&& seg.len() == input_item_count(m)
    &&& match m {
        Message::System { content } => is_role_item(seg[0], "system"@, content@),
        Message::User { content } => is_role_item(seg[0], "user"@, content@),
        Message::Tool { tool_call_id, content } => match seg[0] {
            Json::Object(fs) => {
                &&& fs@.len() == 3
                &&& is_text_member(fs@[0], "type"@, "function_call_output"@)
                &&& is_text_member(fs@[1], "call_id"@, tool_call_id@)
                &&& is_text_member(fs@[2], "output"@, content@)
            },
            _ => false,
        },
        Message::Assistant { content, reasoning_details, tool_calls, .. } => {
            let r = carried_reasoning(reasoning_details);
            let calls: Seq<ToolCall> = match tool_calls {
                Some(c) => c@,
                None => seq![],
            };
            &&& items_eq(seg.subrange(0, r.len() as int), r)
            &&& forall|j: int| 0 <= j < calls.len() ==> is_function_call_item(#[trigger] seg[r.len() + j], calls[j])
            &&& content matches Some(c) ==> is_role_item(seg[(r.len() + calls.len()) as int], "assistant"@, c@)
        },
    }
}

/// Whether `out` are the input items of `msgs`: each message's items, in order.
pub open spec fn is_input_items(out: Seq<Json>, msgs: Seq<Message>) -> bool
    decreases msgs.len(),
{
    if msgs.len() == 0 {
        out.len() == 0
    } else {
        let k = input_item_count(msgs.last());
        &&& out.len() >= k
        &&& is_input_items(out.subrange(0, out.len() - k), msgs.drop_last())
        &&& is_message_items(out.subrange(out.len() - k, out.len() as int), msgs.last())
    }
}

/// `{"role": role, "content": content}`.
fn role_item(role: &str, content: &str) -> (r: Json)
    ensures
        is_role_item(r, role@, content@),
{
    proof {
        reveal_strlit("role");
        reveal_strlit("content");
    }
    Json::Object(vec![member("role", text(role)), member("content", text(content))])
}

/// The input items of one message.
fn message_input_items(m: &Message) -> (r: Vec<Json>)
    ensures
        is_message_items(r@, *m),
{
    proof {
        reveal_strlit("system");
        reveal_strlit("user");
        reveal_strlit("assistant");
        reveal_strlit("type");
        reveal_strlit("function_call");
        reveal_strlit("function_call_output");
        reveal_strlit("call_id");
        reveal_strlit("name");
        reveal_strlit("arguments");
        reveal_strlit("output");
    }
    match m {
        Message::System { content } => vec![role_item("system", content.as_str())],
        Message::User { content } => vec![role_item("user", content.as_str())],
        Message::Tool { tool_call_id, content } => vec![
            Json::Object(
                vec![
                    member("type", text("function_call_output")),
                    member("call_id", text(tool_call_id.as_str())),
                    member("output", text(content.as_str())),
                ],
            ),
        ],
        Message::Assistant { content, reasoning_details, tool_calls, .. } => {
            let mut items: Vec<Json> = Vec::new();
            match reasoning_details {
                Some(Json::Array(vals)) => {
                    let mut i: usize = 0;
                    while i < vals.len()
                        invariant
                            i <= vals@.len(),
                            items_eq(items@, vals@.take(i as int)),
                        decreases vals.len() - i,
                    {
                        let ghost before = items@;
                        items.push(copy_json(&vals[i]));
                        proof {
                            assert(items@.subrange(0, items@.len() - 1) =~= before);
                            assert(vals@.take(i + 1).subrange(0, i as int) =~= vals@.take(i as int));
                        }
                        i = i + 1;
                    }
                    assert(vals@.take(i as int) =~= vals@);
                },
                Some(Json::Object(fs)) => {
                    items.push(copy_json(reasoning_details.as_ref().unwrap()));
                    proof {
                        assert(items@.subrange(0, 0) =~= Seq::<Json>::empty());
                        assert(seq![Json::Object(*fs)].subrange(0, 0) =~= Seq::<Json>::empty());
                        assert(items_eq(Seq::<Json>::empty(), Seq::<Json>::empty()));
                    }
                },
                _ => {
                    assert(items_eq(Seq::<Json>::empty(), Seq::<Json>::empty()));
                },
            }
            let ghost r = carried_reasoning(*reasoning_details);
            assert(items_eq(items@, r));
            let ghost rn = items@.len();
            assert(items@.subrange(0, rn as int) =~= items@);
            match tool_calls {
                Some(calls) => {
                    let mut j: usize = 0;
                    while j < calls.len()
                        invariant
                            j <= calls@.len(),
                            items@.len() == rn + j,
                            items_eq(items@.subrange(0, rn as int), r),
                            forall|k: int| 0 <= k < j ==> is_function_call_item(#[trigger] items@[rn + k], calls@[k]),
                        decreases calls.len() - j,
                    {
                        let ghost before = items@;
                        let c = &calls[j];
                        items.push(
                            Json::Object(
                                vec![
                                    member("type", text("function_call")),
                                    member("call_id", text(c.id.as_str())),
                                    member("name", text(c.function.name.as_str())),
                                    member("arguments", text(c.function.arguments.as_str())),
                                ],
                            ),
                        );
                        proof {
                            assert(items@.subrange(0, rn as int) =~= before.subrange(0, rn as int));
                            assert forall|k: int| 0 <= k < j + 1 implies is_function_call_item(
                                #[trigger] items@[rn + k],
                                calls@[k],
                            ) by {
                                if k < j {
                                    assert(items@[rn + k] == before[rn + k]);
                                }
                            }
                        }
                        j = j + 1;
                    }
                },
                None => {
                    assert(items@.subrange(0, rn as int) =~= items@);
                },
            }
            let ghost before = items@;
            match content {
                Some(c) => {
                    items.push(role_item("assistant", c.as_str()));
                    proof {
                        assert(items@.subrange(0, rn as int) =~= before.subrange(0, rn as int));
                    }
                },
                None => {},
            }
            items
        },
    }
}

/// The input items of the responses API for a conversation: each message's
/// items, in order.
pub fn responses_input_items(messages: &Vec<Message>) -> (r: Vec<Json>)
    ensures
        is_input_items(r@, messages@),
{
    let mut items: Vec<Json> = Vec::new();
    let mut i: usize = 0;
    while i < messages.len()
        invariant
            i <= messages@.len(),
            is_input_items(items@, messages@.take(i as int)),
        decreases messages.len() - i,
    {
        let mut seg = message_input_items(&messages[i]);
        let ghost before = items@;
        let ghost whole = seg@;
        while seg.len() > 0
            invariant
                items@ + seg@ == before + whole,
            decreases seg.len(),
        {
            let ghost rest = seg@;
            let x = seg.remove(0);
            items.push(x);
            assert(items@ + seg@ =~= before + whole) by {
                assert(rest =~= seq![x] + seg@);
            }
        }
        proof {
            let k = input_item_count(messages@[i as int]);
            assert(items@ =~= before + whole);
            assert(messages@.take(i + 1).drop_last() =~= messages@.take(i as int));
            assert(items@.subrange(0, items@.len() - k) =~= before);
            assert(items@.subrange(items@.len() - k, items@.len() as int) =~= whole);
        }
        i = i + 1;
    }
    assert(messages@.take(i as int) =~= messages@);
    items
}

/// Whether `v` is the responses request for `model`, `messages`, `tools` and
/// `effort`: the model, the input items, the tools when there are any, and
/// the effort when one is given.
pub open spec fn is_responses_request(
    v: Json,
    model: Seq<char>,
    messages: Seq<Message>,
    tools: Seq<ToolDefinition>,
    effort: Option<ReasoningEffort>,
) -> bool {
    match v {
        Json::Object(fs) => {
            let n_tools: int = if tools.len() > 0 { 1 } else { 0 };
            &&& fs@.len() == 2 + n_tools + if effort is Some { 1int } else { 0int }
            &&& is_text_member(fs@[0], "model"@, model)
            &&& fs@[1].0@ == "input"@
            &&& fs@[1].1 matches Json::Array(items) && is_input_items(items@, messages)
            &&& tools.len() > 0 ==> fs@[2].0@ == "tools"@ && match fs@[2].1 {
                Json::Array(items) => items@.len() == tools.len() && forall|i: int|
                    0 <= i < tools.len() ==> is_responses_tool_json(#[trigger] items@[i], tools[i]),
                _ => false,
            }
            &&& effort matches Some(e) ==> fs@[2 + n_tools].0@ == "reasoning"@ && match fs@[2 + n_tools].1 {
                Json::Object(gs) => gs@.len() == 1 && is_text_member(gs@[0], "effort"@, effort_name(e)),
                _ => false,
            }
        },
        _ => false,
    }
}

/// The responses request: the model, the conversation as input items, the
/// tools when there are any, and the reasoning effort when one is given.
pub fn openai_responses_request(
    model: &str,
    messages: &Vec<Message>,
    tools: &Vec<ToolDefinition>,
    effort: Option<ReasoningEffort>,
) -> (r: Json)
    ensures
        is_responses_request(r, model@, messages@, tools@, effort),
{
    proof {
        reveal_strlit("model");
        reveal_strlit("input");
        reveal_strlit("tools");
        reveal_strlit("reasoning");
        reveal_strlit("effort");
    }
    let mut fields: Vec<(String, Json)> = vec![
        member("model", text(model)),
        member("input", Json::Array(responses_input_items(messages))),
    ];
    if tools.len() > 0 {
        let mut items: Vec<Json> = Vec::new();
        let mut i: usize = 0;
        while i < tools.len()
            invariant
                i <= tools@.len(),
                items@.len() == i,
                forall|k: int| 0 <= k < i ==> is_responses_tool_json(#[trigger] items@[k], tools@[k]),
            decreases tools.len() - i,
        {
            items.push(openai_responses_tool_to_value(&tools[i]));
            i = i + 1;
        }
        fields.push(member("tools", Json::Array(items)));
    }
    match effort {
        Some(e) => {
            fields.push(member("reasoning", Json::Object(vec![member("effort", text(e.as_str()))])));
        },
        None => {},
    }
    Json::Object(fields)
}

} // verus!
