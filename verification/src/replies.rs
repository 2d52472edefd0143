//! How the replies of the backends are read: the assistant's text, its
//! reasoning, its tool calls, why it stopped and the token counts.
use vstd::prelude::*;

use crate::api::ApiError;
use crate::json::{array_of, lookup, copy_json, field, items_eq, lemma_items_eq_push, opt_view, str_field, str_of, u64_of, Json};
use crate::text::{join_strings, join_texts, str_eq, string_views};
use crate::requests::is_function_call_item;
use crate::types::{calls_view, is_call_json, FunctionCall, ToolCall, ToolCallView, Usage};

verus! {

/// What the assistant said in one turn.
#[derive(Debug)]
pub struct AssistantTurn {
    pub content: Option<String>,
    pub reasoning_text: Option<String>,
    pub reasoning_details: Option<Json>,
    pub tool_calls: Option<Vec<ToolCall>>,
}

/// One turn of the model: what the assistant said, why it stopped, and the
/// tokens it took.
#[derive(Debug)]
pub struct ModelTurnResponse {
    pub assistant: AssistantTurn,
    pub finish_reason: Option<String>,
    pub usage: Usage,
}

/// The value an optional reference points to.
pub open spec fn deref_opt(v: Option<&Json>) -> Option<Json> {
    match v {
        Some(x) => Some(*x),
        None => None,
    }
}

/// A token count: the member `key` when it is an integer from 0 to
/// `u64::MAX`, cut to its low 32 bits.
pub open spec fn tokens(v: Option<Json>, key: Seq<char>) -> Option<u32> {
    match u64_of(field(v, key)) {
        Some(n) => Some(n as u32),
        None => None,
    }
}

fn read_tokens(v: Option<&Json>, key: &str) -> (r: Option<u32>)
    ensures
        r == tokens(deref_opt(v), key@),
{
    match v {
        Some(x) => match x.get(key) {
            Some(f) => match f.as_u64() {
                Some(n) => Some(#[verifier::truncate] (n as u32)),
                None => None,
            },
            None => None,
        },
        None => None,
    }
}

/// The token counts of a chat-completions reply's `usage` member.
pub fn parse_chat_usage(value: Option<&Json>) -> (r: Usage)
    ensures
        r.prompt_tokens == tokens(deref_opt(value), "prompt_tokens"@),
        r.completion_tokens == tokens(deref_opt(value), "completion_tokens"@),
        r.total_tokens == tokens(deref_opt(value), "total_tokens"@),
        r.reasoning_tokens == tokens(field(deref_opt(value), "completion_tokens_details"@), "reasoning_tokens"@),
{
    let details = match value {
        Some(v) => v.get("completion_tokens_details"),
        None => None,
    };
    Usage {
        prompt_tokens: read_tokens(value, "prompt_tokens"),
        completion_tokens: read_tokens(value, "completion_tokens"),
        total_tokens: read_tokens(value, "total_tokens"),
        reasoning_tokens: read_tokens(details, "reasoning_tokens"),
    }
}

/// The token counts of a responses reply's `usage` member.
pub fn parse_responses_usage(value: Option<&Json>) -> (r: Usage)
    ensures
        r.prompt_tokens == tokens(deref_opt(value), "input_tokens"@),
        r.completion_tokens == tokens(deref_opt(value), "output_tokens"@),
        r.total_tokens == tokens(deref_opt(value), "total_tokens"@),
        r.reasoning_tokens == tokens(field(deref_opt(value), "output_tokens_details"@), "reasoning_tokens"@),
{
    let details = match value {
        Some(v) => v.get("output_tokens_details"),
        None => None,
    };
    Usage {
        prompt_tokens: read_tokens(value, "input_tokens"),
        completion_tokens: read_tokens(value, "output_tokens"),
        total_tokens: read_tokens(value, "total_tokens"),
        reasoning_tokens: read_tokens(details, "reasoning_tokens"),
    }
}

/// The tool call a JSON value describes: string members `id` and `type`, and
/// a `function` with string members `name` and `arguments`.
pub open spec fn call_of(v: Json) -> Option<ToolCallView> {
    let f = field(Some(v), "function"@);
    match (str_of(field(Some(v), "id"@)), str_of(field(Some(v), "type"@)), str_of(field(f, "name"@)), str_of(field(f, "arguments"@))) {
        (Some(a), Some(b), Some(c), Some(d)) => Some((a, b, c, d)),
        _ => None,
    }
}

/// The tool calls a list of JSON values describes, when each one describes one.
pub open spec fn calls_of(vs: Seq<Json>) -> Option<Seq<ToolCallView>>
    decreases vs.len(),
{
    if vs.len() == 0 {
        Some(Seq::empty())
    } else {
        match (calls_of(vs.drop_last()), call_of(vs.last())) {
            (Some(cs), Some(c)) => Some(cs.push(c)),
            _ => None,
        }
    }
}

proof fn lemma_calls_none_extends(vs: Seq<Json>, i: int)
    requires
        0 <= i <= vs.len(),
        calls_of(vs.take(i)) is None,
    ensures
        calls_of(vs) is None,
    decreases vs.len() - i,
{
    if i == vs.len() {
        assert(vs.take(i) =~= vs);
    } else {
        assert(vs.take(i + 1).drop_last() =~= vs.take(i));
        lemma_calls_none_extends(vs, i + 1);
    }
}

fn tool_call_from_json(v: &Json) -> (r: Option<ToolCall>)
    ensures
        match r {
            Some(c) => call_of(*v) == Some(c@),
            None => call_of(*v) is None,
        },
{
    let f = v.get("function");
    let id = str_field(Some(v), "id");
    let call_type = str_field(Some(v), "type");
    let name = str_field(f, "name");
    let arguments = str_field(f, "arguments");
    match (id, call_type, name, arguments) {
        (Some(id), Some(call_type), Some(name), Some(arguments)) => Some(
            ToolCall { id, call_type, function: FunctionCall { name, arguments } },
        ),
        _ => None,
    }
}

/// The tool calls a list of JSON values describes, or `None` when one of them
/// is not a tool call.
pub fn tool_calls_from_json(items: &Vec<Json>) -> (r: Option<Vec<ToolCall>>)
    ensures
        match r {
            Some(calls) => calls_of(items@) == Some(calls_view(calls@)),
            None => calls_of(items@) is None,
        },
{
    let mut calls: Vec<ToolCall> = Vec::new();
    let mut i: usize = 0;
    while i < items.len()
        invariant
            i <= items@.len(),
            calls_of(items@.take(i as int)) == Some(calls_view(calls@)),
        decreases items.len() - i,
    {
        proof {
            assert(items@.take(i + 1).drop_last() =~= items@.take(i as int));
        }
        match tool_call_from_json(&items[i]) {
            Some(c) => {
                let ghost before = calls@;
                calls.push(c);
                assert(calls_view(calls@) =~= calls_view(before).push(c@));
            },
            None => {
                proof {
                    lemma_calls_none_extends(items@, i + 1);
                }
                return None;
            },
        }
        i = i + 1;
    }
    assert(items@.take(i as int) =~= items@);
    Some(calls)
}

/// Why a list of tool calls did not read.
pub open spec fn tool_calls_reason() -> Seq<char> {
    "each tool call needs string fields id, type, function.name and function.arguments"@
}

/// The first element of a list, if any.
pub open spec fn first_of(s: Option<Seq<Json>>) -> Option<Json> {
    match s {
        Some(items) => if items.len() > 0 {
            Some(items[0])
        } else {
            None
        },
        None => None,
    }
}

/// Whether `r` is what a chat-completions reply `value` from `url` reads as:
/// the first choice's message gives the text, the reasoning and the tool
/// calls; the choice gives the finish reason; `usage` gives the token counts.
/// It fails without choices, without a message, and with tool calls that are
/// neither null nor a list of tool calls.
pub open spec fn is_chat_reading(r: Result<ModelTurnResponse, ApiError>, value: Json, url: Seq<char>) -> bool {
    let choice = first_of(array_of(field(Some(value), "choices"@)));
    let message = field(choice, "message"@);
    let calls = field(message, "tool_calls"@);
    if choice is None {
        r matches Err(ApiError::NoChoices { url: u }) && u@ == url
    } else if message is None {
        r matches Err(ApiError::NoMessage { url: u }) && u@ == url
    } else if !(calls is None || calls == Some(Json::Null) || array_of(calls) is Some) {
        r matches Err(ApiError::UnsupportedToolCalls { url: u }) && u@ == url
    } else if array_of(calls) is Some && calls_of(array_of(calls).unwrap()) is None {
        r matches Err(ApiError::InvalidToolCalls { url: u, reason: m }) && u@ == url && m@ == tool_calls_reason()
    } else {
        match r {
            Ok(t) => {
                &&& opt_view(t.assistant.content) == str_of(field(message, "content"@))
                &&& opt_view(t.assistant.reasoning_text) == str_of(field(message, "reasoning_content"@))
                &&& t.assistant.reasoning_details is None
                &&& match t.assistant.tool_calls {
                    Some(v) => array_of(calls) is Some && calls_of(array_of(calls).unwrap()) == Some(calls_view(v@)),
                    None => array_of(calls) is None,
                }
                &&& opt_view(t.finish_reason) == str_of(field(choice, "finish_reason"@))
                &&& t.usage.prompt_tokens == tokens(field(Some(value), "usage"@), "prompt_tokens"@)
                &&& t.usage.completion_tokens == tokens(field(Some(value), "usage"@), "completion_tokens"@)
                &&& t.usage.total_tokens == tokens(field(Some(value), "usage"@), "total_tokens"@)
                &&& t.usage.reasoning_tokens == tokens(
                    field(field(Some(value), "usage"@), "completion_tokens_details"@),
                    "reasoning_tokens"@,
                )
            },
            Err(_) => false,
        }
    }
}

/// Reads a chat-completions reply `value` from `url`.
pub fn parse_chat_completions_response(value: &Json, url: &str) -> (r: Result<ModelTurnResponse, ApiError>)
    ensures
        is_chat_reading(r, *value, url@),
{
    let choices = match value.get("choices") {
        Some(c) => match c.as_array() {
            Some(items) => items,
            None => {
                return Err(ApiError::NoChoices { url: String::from_str(url) });
            },
        },
        None => {
            return Err(ApiError::NoChoices { url: String::from_str(url) });
        },
    };
    if choices.len() == 0 {
        return Err(ApiError::NoChoices { url: String::from_str(url) });
    }
    let choice = &choices[0];
    let message = match choice.get("message") {
        Some(m) => m,
        None => {
            return Err(ApiError::NoMessage { url: String::from_str(url) });
        },
    };
    let tool_calls = match message.get("tool_calls") {
        Some(Json::Array(items)) => match tool_calls_from_json(items) {
            Some(calls) => Some(calls),
            None => {
                return Err(
                    ApiError::InvalidToolCalls {
                        url: String::from_str(url),
                        reason: String::from_str(
                            "each tool call needs string fields id, type, function.name and function.arguments",
                        ),
                    },
                );
            },
        },
        Some(Json::Null) => None,
        None => None,
        Some(_) => {
            return Err(ApiError::UnsupportedToolCalls { url: String::from_str(url) });
        },
    };
    Ok(
        ModelTurnResponse {
            assistant: AssistantTurn {
                content: str_field(Some(message), "content"),
                reasoning_text: str_field(Some(message), "reasoning_content"),
                reasoning_details: None,
                tool_calls,
            },
            finish_reason: str_field(Some(choice), "finish_reason"),
            usage: parse_chat_usage(value.get("usage")),
        },
    )
}

/// The `type` of an item.
pub open spec fn type_of(item: Json) -> Option<Seq<char>> {
    str_of(field(Some(item), "type"@))
}

/// The text of one part of a message item: an `output_text` part's `text`,
/// a `refusal` part's `refusal`.
pub open spec fn part_text(part: Json) -> Option<Seq<char>> {
    if type_of(part) == Some("output_text"@) {
        str_of(field(Some(part), "text"@))
    } else if type_of(part) == Some("refusal"@) {
        str_of(field(Some(part), "refusal"@))
    } else {
        None
    }
}

/// The texts of the parts of a message item, in order.
pub open spec fn part_texts(parts: Seq<Json>) -> Seq<Seq<char>>
    decreases parts.len(),
{
    if parts.len() == 0 {
        Seq::empty()
    } else {
        let rest = part_texts(parts.drop_last());
        match part_text(parts.last()) {
            Some(t) => rest.push(t),
            None => rest,
        }
    }
}

/// The texts an output item contributes to the reply's text: a message
/// item's parts when its content is a list, its content when that is a
/// string; nothing from other items.
pub open spec fn item_texts(item: Json) -> Seq<Seq<char>> {
    if type_of(item) == Some("message"@) {
        match array_of(field(Some(item), "content"@)) {
            Some(parts) => part_texts(parts),
            None => match str_of(field(Some(item), "content"@)) {
                Some(t) => seq![t],
                None => Seq::empty(),
            },
        }
    } else {
        Seq::empty()
    }
}

/// The texts of all output items, in order.
pub open spec fn message_texts(items: Seq<Json>) -> Seq<Seq<char>>
    decreases items.len(),
{
    if items.len() == 0 {
        Seq::empty()
    } else {
        message_texts(items.drop_last()) + item_texts(items.last())
    }
}

/// What a function call item gives: `None` for another item, the call, or
/// the first of `call_id`, `name`, `arguments` that is not a string.
pub open spec fn item_call(item: Json) -> Option<Result<ToolCallView, Seq<char>>> {
    if type_of(item) == Some("function_call"@) {
        let id = str_of(field(Some(item), "call_id"@));
        let name = str_of(field(Some(item), "name"@));
        let arguments = str_of(field(Some(item), "arguments"@));
        if id is None {
            Some(Err("call_id"@))
        } else if name is None {
            Some(Err("name"@))
        } else if arguments is None {
            Some(Err("arguments"@))
        } else {
            Some(Ok((id.unwrap(), "function"@, name.unwrap(), arguments.unwrap())))
        }
    } else {
        None
    }
}

/// The function calls of the output items, in order, or the missing field of
/// the first incomplete one.
pub open spec fn item_calls(items: Seq<Json>) -> Result<Seq<ToolCallView>, Seq<char>>
    decreases items.len(),
{
    if items.len() == 0 {
        Ok(Seq::empty())
    } else {
        match item_calls(items.drop_last()) {
            Err(f) => Err(f),
            Ok(cs) => match item_call(items.last()) {
                None => Ok(cs),
                Some(Ok(c)) => Ok(cs.push(c)),
                Some(Err(f)) => Err(f),
            },
        }
    }
}

/// Whether an output item is a function call that lacks one of its string
/// fields `call_id`, `name` and `arguments`.
pub open spec fn is_incomplete_call(item: Json) -> bool {
    item_call(item) matches Some(Err(_))
}

/// Whether an output item is a function call.
pub open spec fn is_call_item(item: Json) -> bool {
    item_call(item) is Some
}

proof fn lemma_item_calls(items: Seq<Json>)
    ensures
        (item_calls(items) is Err) <==> exists|i: int| 0 <= i < items.len() && #[trigger] is_incomplete_call(items[i]),
        item_calls(items) matches Ok(cs) ==> (cs.len() == 0 <==> forall|i: int|
            0 <= i < items.len() ==> !#[trigger] is_call_item(items[i])),
    decreases items.len(),
{
    if items.len() > 0 {
        let init = items.drop_last();
        lemma_item_calls(init);
        assert forall|i: int| 0 <= i < init.len() implies #[trigger] init[i] == items[i] by {}
        let last = items.len() - 1;
        assert(items.last() == items[last]);
        assert(is_incomplete_call(items[last]) == is_incomplete_call(items.last()));
        assert(is_call_item(items[last]) == is_call_item(items.last()));
        if exists|i: int| 0 <= i < init.len() && #[trigger] is_incomplete_call(init[i]) {
            let i = choose|i: int| 0 <= i < init.len() && #[trigger] is_incomplete_call(init[i]);
            assert(is_incomplete_call(items[i]));
        }
        if exists|i: int| 0 <= i < items.len() && #[trigger] is_incomplete_call(items[i]) {
            let i = choose|i: int| 0 <= i < items.len() && #[trigger] is_incomplete_call(items[i]);
            if i < last {
                assert(is_incomplete_call(init[i]));
            }
        }
        if !is_call_item(items.last()) {
            if item_calls(init) is Ok {
                if exists|i: int| 0 <= i < items.len() && #[trigger] is_call_item(items[i]) {
                    let i = choose|i: int| 0 <= i < items.len() && #[trigger] is_call_item(items[i]);
                    if i < last {
                        assert(is_call_item(init[i]));
                    }
                }
                if exists|i: int| 0 <= i < init.len() && #[trigger] is_call_item(init[i]) {
                    let i = choose|i: int| 0 <= i < init.len() && #[trigger] is_call_item(init[i]);
                    assert(is_call_item(items[i]));
                }
            }
        }
    }
}

/// How a responses reply is read, as a whole: it fails exactly when its
/// `output` is not an array or one of its function call items lacks a string
/// `call_id`, `name` or `arguments`; a read turn has tool calls exactly when
/// some output item is a function call, and finished at the length limit
/// exactly when the reply stopped at its output token limit.
pub proof fn law_responses_outcome(r: Result<ModelTurnResponse, ApiError>, value: Json, url: Seq<char>)
    requires
        is_responses_reading(r, value, url),
    ensures
        (r is Err) <==> (array_of(field(Some(value), "output"@)) is None || exists|i: int|
            0 <= i < array_of(field(Some(value), "output"@))->0.len()
                && #[trigger] is_incomplete_call(array_of(field(Some(value), "output"@))->0[i])),
        r matches Ok(t) ==> ((t.assistant.tool_calls is None) <==> forall|i: int|
            0 <= i < array_of(field(Some(value), "output"@))->0.len() ==> !#[trigger] is_call_item(
                array_of(field(Some(value), "output"@))->0[i],
            )),
        r matches Ok(t) ==> (opt_view(t.finish_reason) == Some("length"@) <==> stopped_at_limit(value)),
        r matches Ok(t) ==> (t.finish_reason is None <==> !stopped_at_limit(value)),
{
    if let Some(items) = array_of(field(Some(value), "output"@)) {
        lemma_item_calls(items);
    }
}

/// Whether an output item is a reasoning item.
pub open spec fn is_reasoning_item() -> spec_fn(Json) -> bool {
    |item: Json| type_of(item) == Some("reasoning"@)
}

/// The `text` members of a list of entries, in order.
pub open spec fn entry_texts(entries: Seq<Json>) -> Seq<Seq<char>>
    decreases entries.len(),
{
    if entries.len() == 0 {
        Seq::empty()
    } else {
        let rest = entry_texts(entries.drop_last());
        match str_of(field(Some(entries.last()), "text"@)) {
            Some(t) => rest.push(t),
            None => rest,
        }
    }
}

/// The entries of a list member, or none.
pub open spec fn entries_of(item: Json, key: Seq<char>) -> Seq<Json> {
    match array_of(field(Some(item), key)) {
        Some(es) => es,
        None => Seq::empty(),
    }
}

/// The reasoning texts of one item: its summary's texts, then its content's.
pub open spec fn item_reasoning_parts(item: Json) -> Seq<Seq<char>> {
    entry_texts(entries_of(item, "summary"@)) + entry_texts(entries_of(item, "content"@))
}

/// The reasoning texts of a list of items, in order.
pub open spec fn reasoning_parts(items: Seq<Json>) -> Seq<Seq<char>>
    decreases items.len(),
{
    if items.len() == 0 {
        Seq::empty()
    } else {
        reasoning_parts(items.drop_last()) + item_reasoning_parts(items.last())
    }
}

/// Texts joined by blank lines, or `None` when there are none.
pub open spec fn joined_or_none(parts: Seq<Seq<char>>) -> Option<Seq<char>> {
    if parts.len() == 0 {
        None
    } else {
        Some(join_texts(parts, "\n\n"@))
    }
}

/// Appends the `text` members of `entries` to `parts`.
fn push_entry_texts(parts: &mut Vec<String>, entries: Option<&Vec<Json>>)
    ensures
        string_views(final(parts)@) == string_views(old(parts)@) + match entries {
            Some(es) => entry_texts(es@),
            None => Seq::<Seq<char>>::empty(),
        },
{
    match entries {
        Some(es) => {
            let ghost start = string_views(parts@);
            let mut i: usize = 0;
            while i < es.len()
                invariant
                    i <= es@.len(),
                    string_views(parts@) == start + entry_texts(es@.take(i as int)),
                decreases es.len() - i,
            {
                proof {
                    assert(es@.take(i + 1).drop_last() =~= es@.take(i as int));
                }
                let ghost before = parts@;
                match str_field(Some(&es[i]), "text") {
                    Some(t) => {
                        parts.push(t);
                        assert(string_views(parts@) =~= string_views(before).push(t@));
                    },
                    None => {},
                }
                i = i + 1;
            }
            assert(es@.take(i as int) =~= es@);
        },
        None => {
            assert(string_views(parts@) =~= string_views(parts@) + Seq::<Seq<char>>::empty());
        },
    }
}

fn list_member<'a>(item: &'a Json, key: &str) -> (r: Option<&'a Vec<Json>>)
    ensures
        match r {
            Some(es) => array_of(field(Some(*item), key@)) == Some(es@),
            None => array_of(field(Some(*item), key@)) is None,
        },
{
    match item.get(key) {
        Some(v) => v.as_array(),
        None => None,
    }
}

/// Appends the reasoning texts of one item to `parts`.
fn push_reasoning_parts(parts: &mut Vec<String>, item: &Json)
    ensures
        string_views(final(parts)@) == string_views(old(parts)@) + item_reasoning_parts(*item),
{
    let ghost start = string_views(parts@);
    push_entry_texts(parts, list_member(item, "summary"));
    push_entry_texts(parts, list_member(item, "content"));
    assert(string_views(parts@) =~= start + item_reasoning_parts(*item));
}

/// The reasoning text of a list of reasoning items: the texts of each item's
/// summary and content, joined by blank lines; `None` when there are none.
pub fn extract_reasoning_text(items: &Vec<Json>) -> (r: Option<String>)
    ensures
        opt_view(r) == joined_or_none(reasoning_parts(items@)),
{
    let mut parts: Vec<String> = Vec::new();
    let mut i: usize = 0;
    while i < items.len()
        invariant
            i <= items@.len(),
            string_views(parts@) == reasoning_parts(items@.take(i as int)),
        decreases items.len() - i,
    {
        proof {
            assert(items@.take(i + 1).drop_last() =~= items@.take(i as int));
        }
        push_reasoning_parts(&mut parts, &items[i]);
        i = i + 1;
    }
    assert(items@.take(i as int) =~= items@);
    if parts.len() == 0 {
        None
    } else {
        Some(join_strings(&parts, "\n\n"))
    }
}

proof fn lemma_item_calls_err_extends(items: Seq<Json>, i: int)
    requires
        0 <= i <= items.len(),
        item_calls(items.take(i)) is Err,
    ensures
        item_calls(items) == item_calls(items.take(i)),
    decreases items.len() - i,
{
    if i == items.len() {
        assert(items.take(i) =~= items);
    } else {
        assert(items.take(i + 1).drop_last() =~= items.take(i));
        lemma_item_calls_err_extends(items, i + 1);
    }
}

/// Appends the texts of the parts of a message item to `texts`.
fn push_part_texts(texts: &mut Vec<String>, parts: &Vec<Json>)
    ensures
        string_views(final(texts)@) == string_views(old(texts)@) + part_texts(parts@),
{
    let ghost start = string_views(texts@);
    let mut i: usize = 0;
    while i < parts.len()
        invariant
            i <= parts@.len(),
            string_views(texts@) == start + part_texts(parts@.take(i as int)),
        decreases parts.len() - i,
    {
        proof {
            assert(parts@.take(i + 1).drop_last() =~= parts@.take(i as int));
            reveal_strlit("output_text");
            reveal_strlit("refusal");
        }
        let ghost before = texts@;
        let part = &parts[i];
        let t = match part.get("type") {
            Some(ty) => match ty.as_str() {
                Some(name) => if str_eq(name, "output_text") {
                    str_field(Some(part), "text")
                } else if str_eq(name, "refusal") {
                    str_field(Some(part), "refusal")
                } else {
                    None
                },
                None => None,
            },
            None => None,
        };
        match t {
            Some(x) => {
                texts.push(x);
                assert(string_views(texts@) =~= string_views(before).push(x@));
            },
            None => {},
        }
        i = i + 1;
    }
    assert(parts@.take(i as int) =~= parts@);
}

/// Appends the texts an output item contributes to the reply's text.
fn push_item_texts(texts: &mut Vec<String>, item: &Json)
    ensures
        string_views(final(texts)@) == string_views(old(texts)@) + item_texts(*item),
{
    proof {
        reveal_strlit("message");
    }
    let is_message = match item.get("type") {
        Some(ty) => match ty.as_str() {
            Some(name) => str_eq(name, "message"),
            None => false,
        },
        None => false,
    };
    if !is_message {
        assert(string_views(texts@) =~= string_views(texts@) + Seq::<Seq<char>>::empty());
        return;
    }
    match list_member(item, "content") {
        Some(parts) => push_part_texts(texts, parts),
        None => {
            let ghost before = texts@;
            match str_field(Some(item), "content") {
                Some(t) => {
                    texts.push(t);
                    assert(string_views(texts@) =~= string_views(before) + seq![t@]);
                },
                None => {
                    assert(string_views(texts@) =~= string_views(texts@) + Seq::<Seq<char>>::empty());
                },
            }
        },
    }
}

/// Whether a responses reply stopped at its output token limit.
pub open spec fn stopped_at_limit(value: Json) -> bool {
    str_of(field(Some(value), "status"@)) == Some("incomplete"@) && str_of(
        field(field(Some(value), "incomplete_details"@), "reason"@),
    ) == Some("max_output_tokens"@)
}

/// Whether `r` is what a responses reply `value` from `url` reads as: the
/// message items' texts joined by blank lines (else `output_text`), the
/// reasoning items kept and their texts joined, one tool call per function
/// call item, "length" as the finish reason when the reply stopped at its
/// token limit, and the token counts of `usage`. It fails without output
/// items and on the first function call item that lacks a field.
pub open spec fn is_responses_reading(r: Result<ModelTurnResponse, ApiError>, value: Json, url: Seq<char>) -> bool {
    match array_of(field(Some(value), "output"@)) {
        None => r matches Err(ApiError::NoOutputItems { url: u }) && u@ == url,
        Some(items) => match item_calls(items) {
            Err(f) => r matches Err(ApiError::IncompleteFunctionCall { field: x }) && x@ == f,
            Ok(calls) => match r {
                Ok(t) => {
                    let texts = message_texts(items);
                    let reasoning = items.filter(is_reasoning_item());
                    let usage = field(Some(value), "usage"@);
                    &&& opt_view(t.assistant.content) == (if texts.len() > 0 {
                        Some(join_texts(texts, "\n\n"@))
                    } else {
                        str_of(field(Some(value), "output_text"@))
                    })
                    &&& opt_view(t.assistant.reasoning_text) == joined_or_none(reasoning_parts(reasoning))
                    &&& match t.assistant.reasoning_details {
                        None => reasoning.len() == 0,
                        Some(d) => reasoning.len() > 0 && match d {
                            Json::Array(ds) => items_eq(ds@, reasoning),
                            _ => false,
                        },
                    }
                    &&& match t.assistant.tool_calls {
                        None => calls.len() == 0,
                        Some(v) => calls.len() > 0 && calls_view(v@) == calls,
                    }
                    &&& opt_view(t.finish_reason) == (if stopped_at_limit(value) {
                        Some("length"@)
                    } else {
                        None
                    })
                    &&& t.usage.prompt_tokens == tokens(usage, "input_tokens"@)
                    &&& t.usage.completion_tokens == tokens(usage, "output_tokens"@)
                    &&& t.usage.total_tokens == tokens(usage, "total_tokens"@)
                    &&& t.usage.reasoning_tokens == tokens(field(usage, "output_tokens_details"@), "reasoning_tokens"@)
                },
                Err(_) => false,
            },
        },
    }
}

/// Whether `item`'s `type` is the text `name`.
fn has_type(item: &Json, name: &str) -> (r: bool)
    ensures
        r == (type_of(*item) == Some(name@)),
{
    match item.get("type") {
        Some(ty) => match ty.as_str() {
            Some(t) => str_eq(t, name),
            None => false,
        },
        None => false,
    }
}

/// Reads a responses reply `value` from `url`.
pub fn parse_openai_responses_response(value: &Json, url: &str) -> (r: Result<ModelTurnResponse, ApiError>)
    ensures
        is_responses_reading(r, *value, url@),
{
    proof {
        reveal_strlit("function_call");
        reveal_strlit("reasoning");
        reveal_strlit("call_id");
        reveal_strlit("name");
        reveal_strlit("arguments");
        reveal_strlit("function");
        reveal_strlit("incomplete");
        reveal_strlit("max_output_tokens");
        reveal_strlit("length");
        reveal_strlit("\n\n");
    }
    let output = match value.get("output") {
        Some(o) => match o.as_array() {
            Some(items) => items,
            None => {
                return Err(ApiError::NoOutputItems { url: String::from_str(url) });
            },
        },
        None => {
            return Err(ApiError::NoOutputItems { url: String::from_str(url) });
        },
    };
    let mut texts: Vec<String> = Vec::new();
    let mut calls: Vec<ToolCall> = Vec::new();
    let mut reasoning_items: Vec<Json> = Vec::new();
    let mut reasoning_texts: Vec<String> = Vec::new();
    let mut i: usize = 0;
    proof {
        assert(output@.take(0) =~= Seq::<Json>::empty());
        assert(calls_view(calls@) =~= Seq::<ToolCallView>::empty());
        reveal(Seq::filter);
        assert(Seq::<Json>::empty().filter(is_reasoning_item()) =~= Seq::<Json>::empty());
        assert(string_views(texts@) =~= Seq::<Seq<char>>::empty());
        assert(string_views(reasoning_texts@) =~= Seq::<Seq<char>>::empty());
    }
    while i < output.len()
        invariant
            i <= output@.len(),
            array_of(field(Some(*value), "output"@)) == Some(output@),
            string_views(texts@) == message_texts(output@.take(i as int)),
            item_calls(output@.take(i as int)) == Ok::<Seq<ToolCallView>, Seq<char>>(calls_view(calls@)),
            items_eq(reasoning_items@, output@.take(i as int).filter(is_reasoning_item())),
            string_views(reasoning_texts@) == reasoning_parts(output@.take(i as int).filter(is_reasoning_item())),
        decreases output.len() - i,
    {
        let ghost prefix = output@.take(i as int);
        proof {
            reveal_strlit("function_call");
            reveal_strlit("reasoning");
            assert("function_call"@.len() != "reasoning"@.len());
            assert(output@.take(i + 1).drop_last() =~= prefix);
            assert(output@.take(i + 1) =~= prefix.push(output@[i as int]));
            prefix.lemma_filter_push(output@[i as int], is_reasoning_item());
        }
        let item = &output[i];
        push_item_texts(&mut texts, item);
        if has_type(item, "function_call") {
            let call_id = str_field(Some(item), "call_id");
            let name = str_field(Some(item), "name");
            let arguments = str_field(Some(item), "arguments");
            let missing = if call_id.is_none() {
                Some("call_id")
            } else if name.is_none() {
                Some("name")
            } else if arguments.is_none() {
                Some("arguments")
            } else {
                None
            };
            match missing {
                Some(f) => {
                    proof {
                        assert(item_call(*item) == Some(Err::<ToolCallView, Seq<char>>(f@)));
                        assert(item_calls(output@.take(i + 1)) == Err::<Seq<ToolCallView>, Seq<char>>(f@));
                        lemma_item_calls_err_extends(output@, i + 1);
                    }
                    return Err(ApiError::IncompleteFunctionCall { field: String::from_str(f) });
                },
                None => {
                    let ghost before = calls@;
                    let c = ToolCall {
                        id: call_id.unwrap(),
                        call_type: String::from_str("function"),
                        function: FunctionCall { name: name.unwrap(), arguments: arguments.unwrap() },
                    };
                    calls.push(c);
                    assert(calls_view(calls@) =~= calls_view(before).push(c@));
                },
            }
            assert(!is_reasoning_item()(*item));
        } else if has_type(item, "reasoning") {
            let ghost before = reasoning_items@;
            let copy = copy_json(item);
            reasoning_items.push(copy);
            proof {
                lemma_items_eq_push(before, prefix.filter(is_reasoning_item()), copy, *item);
            }
            let ghost parts_before = string_views(reasoning_texts@);
            push_reasoning_parts(&mut reasoning_texts, item);
            proof {
                let f = prefix.filter(is_reasoning_item());
                assert(f.push(*item).drop_last() =~= f);
            }
        } else {
            assert(!is_reasoning_item()(*item));
        }
        i = i + 1;
    }
    proof {
        assert(output@.take(i as int) =~= output@);
    }
    let content = if texts.len() > 0 {
        Some(join_strings(&texts, "\n\n"))
    } else {
        str_field(Some(value), "output_text")
    };
    let reasoning_text = if reasoning_texts.len() > 0 {
        Some(join_strings(&reasoning_texts, "\n\n"))
    } else {
        None
    };
    let reasoning_details = if reasoning_items.len() == 0 {
        None
    } else {
        Some(Json::Array(reasoning_items))
    };
    let incomplete = match value.get("status") {
        Some(st) => match st.as_str() {
            Some(t) => str_eq(t, "incomplete"),
            None => false,
        },
        None => false,
    };
    let at_limit = incomplete && match str_field(value.get("incomplete_details"), "reason") {
        Some(reason) => str_eq(reason.as_str(), "max_output_tokens"),
        None => false,
    };
    let finish_reason = if at_limit {
        Some(String::from_str("length"))
    } else {
        None
    };
    let tool_calls = if calls.len() == 0 {
        None
    } else {
        Some(calls)
    };
    Ok(
        ModelTurnResponse {
            assistant: AssistantTurn { content, reasoning_text, reasoning_details, tool_calls },
            finish_reason,
            usage: parse_responses_usage(value.get("usage")),
        },
    )
}

/// A tool call written in its JSON form reads back as the same call.
pub proof fn law_tool_call_round_trip(v: Json, c: ToolCallView)
    requires
        is_call_json(v, c),
    ensures
        call_of(v) == Some(c),
{
    reveal_strlit("id");
    reveal_strlit("type");
    reveal_strlit("function");
    reveal_strlit("name");
    reveal_strlit("arguments");
    let fs = v->Object_0@;
    assert("id"@.len() != "type"@.len() && "id"@.len() != "function"@.len() && "type"@.len() != "function"@.len());
    assert(lookup(fs, "id"@) == Some(fs[0].1));
    assert(lookup(fs.drop_first(), "type"@) == Some(fs[1].1));
    assert(lookup(fs, "type"@) == Some(fs[1].1));
    assert(lookup(fs.drop_first().drop_first(), "function"@) == Some(fs[2].1));
    assert(lookup(fs.drop_first(), "function"@) == Some(fs[2].1));
    assert(lookup(fs, "function"@) == Some(fs[2].1));
    let gs = fs[2].1->Object_0@;
    assert("name"@.len() != "arguments"@.len());
    assert(lookup(gs, "name"@) == Some(gs[0].1));
    assert(lookup(gs.drop_first(), "arguments"@) == Some(gs[1].1));
    assert(lookup(gs, "arguments"@) == Some(gs[1].1));
}

/// A tool call sent back as a function call item of the responses API reads
/// back as the same call, of type "function".
pub proof fn law_function_call_item_round_trip(v: Json, c: ToolCall)
    requires
        is_function_call_item(v, c),
    ensures
        item_call(v) == Some(Ok::<ToolCallView, Seq<char>>((c.id@, "function"@, c.function.name@, c.function.arguments@))),
{
    reveal_strlit("type");
    reveal_strlit("function_call");
    reveal_strlit("call_id");
    reveal_strlit("name");
    reveal_strlit("arguments");
    let fs = v->Object_0@;
    let f1 = fs.drop_first();
    let f2 = f1.drop_first();
    let f3 = f2.drop_first();
    assert("type"@.len() != "call_id"@.len() && "type"@.len() != "arguments"@.len() && "call_id"@.len()
        != "name"@.len() && "call_id"@.len() != "arguments"@.len() && "name"@.len() != "arguments"@.len());
    assert("type"@[0] != "name"@[0]);
    assert(lookup(fs, "type"@) == Some(fs[0].1));
    assert(lookup(f1, "call_id"@) == Some(fs[1].1));
    assert(lookup(fs, "call_id"@) == Some(fs[1].1));
    assert(lookup(f2, "name"@) == Some(fs[2].1));
    assert(lookup(f1, "name"@) == Some(fs[2].1));
    assert(lookup(fs, "name"@) == Some(fs[2].1));
    assert(lookup(f3, "arguments"@) == Some(fs[3].1));
    assert(lookup(f2, "arguments"@) == Some(fs[3].1));
    assert(lookup(f1, "arguments"@) == Some(fs[3].1));
    assert(lookup(fs, "arguments"@) == Some(fs[3].1));
}

} // verus!
