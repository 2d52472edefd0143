//! The operations of the unified terminal tool: which one a call asks for,
//! the arguments each takes, the messages it fails with and the JSON it
//! answers with. The calls into the registry and the runners are made by the
//! caller, between these steps.
use std::hash::{Hash, Hasher};

use vstd::prelude::*;

use crate::json::{field, member, opt_view, str_of, text, u64_of, Json, JsonNumber};
use crate::text::{join2, join3, str_eq};
use crate::terminal::manager::TerminalInfo;
use crate::terminal::runner::{command_state_name, CommandState};
use crate::tools::terminal_read::{read_window, window_text};
use crate::tools::{tool_error, ToolResult};
use crate::types::{is_text_member, FunctionDef, ToolDefinition};

verus! {

/// The message of a call that lacks the string argument `key`.
pub open spec fn missing_argument(key: Seq<char>) -> Seq<char> {
    "Error: Missing required argument '"@ + key + "'"@
}

/// The string argument `key` of a call, or the error that it is missing.
pub fn require_str(args: &Json, key: &str) -> (r: Result<String, ToolResult>)
    ensures
        match str_of(field(Some(*args), key@)) {
            Some(v) => r matches Ok(x) && x@ == v,
            None => r matches Err(e) && e.is_error && e.content@ == missing_argument(key@),
        },
{
    match args.get(key) {
        Some(v) => match v.as_str() {
            Some(s) => {
                return Ok(String::from_str(s));
            },
            None => {},
        },
        None => {},
    }
    Err(tool_error(join3("Error: Missing required argument '", key, "'")))
}

/// An operation of the terminal tool.
#[derive(PartialEq, Eq, Structural, Clone, Copy, Debug)]
pub enum TerminalOperation {
    Create,
    Send,
    Read,
    Resize,
    Wait,
    Close,
    List,
}

/// The operation a name selects.
pub open spec fn operation_named(op: Seq<char>) -> Option<TerminalOperation> {
    if op == "create"@ {
        Some(TerminalOperation::Create)
    } else if op == "send"@ {
        Some(TerminalOperation::Send)
    } else if op == "read"@ {
        Some(TerminalOperation::Read)
    } else if op == "resize"@ {
        Some(TerminalOperation::Resize)
    } else if op == "wait"@ {
        Some(TerminalOperation::Wait)
    } else if op == "close"@ {
        Some(TerminalOperation::Close)
    } else if op == "list"@ {
        Some(TerminalOperation::List)
    } else {
        None
    }
}

/// The operation a call asks for in its `operation` argument; fails when it
/// is missing or unknown.
pub fn parse_operation(args: &Json) -> (r: Result<TerminalOperation, ToolResult>)
    ensures
        match str_of(field(Some(*args), "operation"@)) {
            None => r matches Err(e) && e.is_error && e.content@ == missing_argument("operation"@),
            Some(op) => match operation_named(op) {
                Some(o) => r == Ok::<TerminalOperation, ToolResult>(o),
                None => r matches Err(e) && e.is_error && e.content@ == "Error: Unknown operation '"@ + op + "'"@,
            },
        },
{
    let op = match require_str(args, "operation") {
        Ok(op) => op,
        Err(e) => {
            return Err(e);
        },
    };
    let name = op.as_str();
    if str_eq(name, "create") {
        Ok(TerminalOperation::Create)
    } else if str_eq(name, "send") {
        Ok(TerminalOperation::Send)
    } else if str_eq(name, "read") {
        Ok(TerminalOperation::Read)
    } else if str_eq(name, "resize") {
        Ok(TerminalOperation::Resize)
    } else if str_eq(name, "wait") {
        Ok(TerminalOperation::Wait)
    } else if str_eq(name, "close") {
        Ok(TerminalOperation::Close)
    } else if str_eq(name, "list") {
        Ok(TerminalOperation::List)
    } else {
        Err(tool_error(join3("Error: Unknown operation '", name, "'")))
    }
}

/// A failure whose message is `prefix`, the session name, then `suffix`.
fn session_error(prefix: &str, name: &str, suffix: &str) -> (r: ToolResult)
    ensures
        r.is_error,
        r.content@ == prefix@ + name@ + suffix@,
{
    tool_error(join3(prefix, name, suffix))
}

/// The message of a session that does not exist.
pub open spec fn absent_message(name: Seq<char>) -> Seq<char> {
    "Error: Terminal session '"@ + name + "' does not exist"@
}

/// The failure of an operation on a session that does not exist.
pub fn session_absent(name: &str) -> (r: ToolResult)
    ensures
        r.is_error,
        r.content@ == absent_message(name@),
{
    session_error("Error: Terminal session '", name, "' does not exist")
}

/// The failure of an operation whose session disappeared meanwhile.
pub fn session_gone(name: &str) -> (r: ToolResult)
    ensures
        r.is_error,
        r.content@ == "Error: Terminal session '"@ + name@ + "' no longer exists"@,
{
    session_error("Error: Terminal session '", name, "' no longer exists")
}

/// The failure of an operation on a session that is not found.
pub fn session_not_found(name: &str) -> (r: ToolResult)
    ensures
        r.is_error,
        r.content@ == "Error: Terminal session '"@ + name@ + "' not found"@,
{
    session_error("Error: Terminal session '", name, "' not found")
}

/// The failure of a wait whose session disappeared meanwhile.
pub fn session_lost_while_waiting(name: &str) -> (r: ToolResult)
    ensures
        r.is_error,
        r.content@ == "Error: Terminal session '"@ + name@ + "' not found during wait"@,
{
    session_error("Error: Terminal session '", name, "' not found during wait")
}

/// The failure of a create whose name is taken.
pub fn session_exists(name: &str) -> (r: ToolResult)
    ensures
        r.is_error,
        r.content@ == "Error: Terminal session '"@ + name@ + "' already exists"@,
{
    session_error("Error: Terminal session '", name, "' already exists")
}

/// The failure `what`, with the underlying `reason`: "Error: {what}: {reason}".
pub fn failed(what: &str, reason: &str) -> (r: ToolResult)
    ensures
        r.is_error,
        r.content@ == "Error: "@ + what@ + ": "@ + reason@,
{
    let mut s = join3("Error: ", what, ": ");
    s.append(reason);
    tool_error(s)
}

/// A non-negative JSON integer.
pub fn number(n: u64) -> (r: Json)
    ensures
        r == Json::Number(JsonNumber::Unsigned(n)),
{
    Json::Number(JsonNumber::Unsigned(n))
}

/// Whether `m` is the member `key` holding the number `n`.
pub open spec fn is_number_member(m: (String, Json), key: Seq<char>, n: u64) -> bool {
    m.0@ == key && m.1 == Json::Number(JsonNumber::Unsigned(n))
}

/// An optional number argument: the member `key` when it is an integer from
/// 0 to `u64::MAX`.
pub fn opt_u64(args: &Json, key: &str) -> (r: Option<u64>)
    ensures
        r == u64_of(field(Some(*args), key@)),
{
    match args.get(key) {
        Some(v) => v.as_u64(),
        None => None,
    }
}

/// What a create is asked for, besides the name.
#[derive(Debug)]
pub struct CreateOptions {
    pub cols: Option<usize>,
    pub rows: Option<usize>,
    pub cwd: Option<String>,
    pub env: Option<Vec<(String, String)>>,
}

/// The string members of an object, in order.
pub open spec fn string_members(fields: Seq<(String, Json)>) -> Seq<(Seq<char>, Seq<char>)>
    decreases fields.len(),
{
    if fields.len() == 0 {
        Seq::empty()
    } else {
        let rest = string_members(fields.drop_last());
        match fields.last().1 {
            Json::String(s) => rest.push((fields.last().0@, s@)),
            _ => rest,
        }
    }
}

/// The views of a list of pairs of strings.
pub open spec fn pair_views(v: Seq<(String, String)>) -> Seq<(Seq<char>, Seq<char>)> {
    v.map_values(|p: (String, String)| (p.0@, p.1@))
}

fn env_pairs(fields: &Vec<(String, Json)>) -> (r: Vec<(String, String)>)
    ensures
        pair_views(r@) == string_members(fields@),
{
    let mut out: Vec<(String, String)> = Vec::new();
    let mut i: usize = 0;
    while i < fields.len()
        invariant
            i <= fields@.len(),
            pair_views(out@) == string_members(fields@.take(i as int)),
        decreases fields.len() - i,
    {
        proof {
            assert(fields@.take(i + 1).drop_last() =~= fields@.take(i as int));
        }
        let ghost before = out@;
        match &fields[i].1 {
            Json::String(s) => {
                let p = (fields[i].0.clone(), s.clone());
                out.push(p);
                assert(pair_views(out@) =~= pair_views(before).push((p.0@, p.1@)));
            },
            _ => {},
        }
        i = i + 1;
    }
    assert(fields@.take(i as int) =~= fields@);
    out
}

/// The options of a create: `cols` and `rows` (integers, as machine words),
/// `cwd` (a string) and `env` (the string members of an object).
pub fn create_options(args: &Json) -> (r: CreateOptions)
    ensures
        r.cols == match u64_of(field(Some(*args), "cols"@)) {
            Some(n) => Some(n as usize),
            None => None,
        },
        r.rows == match u64_of(field(Some(*args), "rows"@)) {
            Some(n) => Some(n as usize),
            None => None,
        },
        opt_view(r.cwd) == str_of(field(Some(*args), "cwd"@)),
        match field(Some(*args), "env"@) {
            Some(Json::Object(fs)) => r.env matches Some(e) && pair_views(e@) == string_members(fs@),
            _ => r.env is None,
        },
{
    let cols = match opt_u64(args, "cols") {
        Some(n) => Some(#[verifier::truncate] (n as usize)),
        None => None,
    };
    let rows = match opt_u64(args, "rows") {
        Some(n) => Some(#[verifier::truncate] (n as usize)),
        None => None,
    };
    let cwd = crate::json::str_field(Some(args), "cwd");
    let env = match args.get("env") {
        Some(Json::Object(fs)) => Some(env_pairs(fs)),
        _ => None,
    };
    CreateOptions { cols, rows, cwd, env }
}

/// The answer to a create: the name, the size (140 by 50 by default) and
/// the status "created".
pub fn created_response(name: &str, cols: Option<usize>, rows: Option<usize>) -> (r: Json)
    ensures
        r matches Json::Object(fs) && fs@.len() == 4 && is_text_member(fs@[0], "name"@, name@) && is_number_member(
            fs@[1],
            "cols"@,
            match cols {
                Some(c) => c as u64,
                None => 140,
            },
        ) && is_number_member(
            fs@[2],
            "rows"@,
            match rows {
                Some(c) => c as u64,
                None => 50,
            },
        ) && is_text_member(fs@[3], "status"@, "created"@),
{
    proof {
        reveal_strlit("name");
        reveal_strlit("cols");
        reveal_strlit("rows");
        reveal_strlit("status");
        reveal_strlit("created");
    }
    let c: usize = match cols {
        Some(c) => c,
        None => 140,
    };
    let w: usize = match rows {
        Some(r) => r,
        None => 50,
    };
    Json::Object(
        vec![
            member("name", text(name)),
            member("cols", number(c as u64)),
            member("rows", number(w as u64)),
            member("status", text("created")),
        ],
    )
}

/// The answer to an operation that succeeded: the name, the operation and
/// its status.
pub fn done_response(name: &str, operation: &str, status: &str) -> (r: Json)
    ensures
        r matches Json::Object(fs) && fs@.len() == 3 && is_text_member(fs@[0], "name"@, name@) && is_text_member(
            fs@[1],
            "operation"@,
            operation@,
        ) && is_text_member(fs@[2], "status"@, status@),
{
    proof {
        reveal_strlit("name");
        reveal_strlit("operation");
        reveal_strlit("status");
    }
    Json::Object(vec![member("name", text(name)), member("operation", text(operation)), member("status", text(status))])
}

/// The answer to a resize: the name, the operation, the new size and the
/// status "resized".
pub fn resized_response(name: &str, cols: u16, rows: u16) -> (r: Json)
    ensures
        r matches Json::Object(fs) && fs@.len() == 5 && is_text_member(fs@[0], "name"@, name@) && is_text_member(
            fs@[1],
            "operation"@,
            "resize"@,
        ) && is_number_member(fs@[2], "cols"@, cols as u64) && is_number_member(fs@[3], "rows"@, rows as u64)
            && is_text_member(fs@[4], "status"@, "resized"@),
{
    proof {
        reveal_strlit("name");
        reveal_strlit("operation");
        reveal_strlit("resize");
        reveal_strlit("cols");
        reveal_strlit("rows");
        reveal_strlit("status");
        reveal_strlit("resized");
    }
    Json::Object(
        vec![
            member("name", text(name)),
            member("operation", text("resize")),
            member("cols", number(cols as u64)),
            member("rows", number(rows as u64)),
            member("status", text("resized")),
        ],
    )
}

/// The input of a send, or the error that it is missing.
pub fn send_input(args: &Json) -> (r: Result<String, ToolResult>)
    ensures
        match str_of(field(Some(*args), "input"@)) {
            Some(v) => r matches Ok(x) && x@ == v,
            None => r matches Err(e) && e.is_error && e.content@
                == "Error: 'input' must be provided for send operation"@,
        },
{
    match crate::json::str_field(Some(args), "input") {
        Some(s) => Ok(s),
        None => Err(tool_error(String::from_str("Error: 'input' must be provided for send operation"))),
    }
}

/// An optional `u16` argument: the member `key` when it is an integer from 0
/// to `u64::MAX`, cut to its low 16 bits; else `default`.
pub open spec fn u16_arg(args: Json, key: Seq<char>, default: u16) -> u16 {
    match u64_of(field(Some(args), key)) {
        Some(n) => n as u16,
        None => default,
    }
}

/// The `offset_from_bottom` of a read: 0 when not given.
pub fn read_offset(args: &Json) -> (r: u16)
    ensures
        r == u16_arg(*args, "offset_from_bottom"@, 0),
{
    match opt_u64(args, "offset_from_bottom") {
        Some(n) => #[verifier::truncate] (n as u16),
        None => 0,
    }
}

/// The `lines` of a read: the terminal's height `rows` when not given.
pub fn read_lines(args: &Json, rows: u16) -> (r: u16)
    ensures
        r == u16_arg(*args, "lines"@, rows),
{
    match opt_u64(args, "lines") {
        Some(n) => #[verifier::truncate] (n as u16),
        None => rows,
    }
}

/// Whether a read is refused: scrollback is asked for while the terminal
/// shows its alternate screen.
pub fn refuses_scrollback(is_alternate_screen: bool, offset_from_bottom: u16) -> (r: bool)
    ensures
        r == (is_alternate_screen && offset_from_bottom > 0),
{
    is_alternate_screen && offset_from_bottom > 0
}

/// The refusal of a read of scrollback on the alternate screen.
pub fn scrollback_refusal() -> (r: ToolResult)
    ensures
        r.is_error,
        r.content@
            == "Error: Terminal is in alternate screen mode (e.g., vim, less). Scrollback is not available. Use offset_from_bottom=0 to read only the visible screen."@,
{
    tool_error(
        String::from_str(
            "Error: Terminal is in alternate screen mode (e.g., vim, less). Scrollback is not available. Use offset_from_bottom=0 to read only the visible screen.",
        ),
    )
}

/// The answer to a read of `content`: the window of `lines` lines ending
/// `offset_from_bottom` lines above the bottom, without escapes.
pub fn read_result(content: &str, lines: u16, offset_from_bottom: u16) -> (r: ToolResult)
    requires
        offset_from_bottom + lines <= u16::MAX,
    ensures
        !r.is_error,
        r.content@ == window_text(content@, lines as int, offset_from_bottom as int),
{
    ToolResult { content: read_window(content, lines, offset_from_bottom), is_error: false }
}

/// The size a resize asks for, or the error for the first of `cols` and
/// `rows` that is missing; each is cut to 16 bits.
pub fn resize_size(args: &Json) -> (r: Result<(u16, u16), ToolResult>)
    ensures
        match (u64_of(field(Some(*args), "cols"@)), u64_of(field(Some(*args), "rows"@))) {
            (None, _) => r matches Err(e) && e.is_error && e.content@
                == "Error: 'cols' argument required for resize operation"@,
            (Some(_), None) => r matches Err(e) && e.is_error && e.content@
                == "Error: 'rows' argument required for resize operation"@,
            (Some(c), Some(w)) => r == Ok::<(u16, u16), ToolResult>((c as u16, w as u16)),
        },
{
    let cols = match opt_u64(args, "cols") {
        Some(v) => #[verifier::truncate] (v as u16),
        None => {
            return Err(tool_error(String::from_str("Error: 'cols' argument required for resize operation")));
        },
    };
    let rows = match opt_u64(args, "rows") {
        Some(v) => #[verifier::truncate] (v as u16),
        None => {
            return Err(tool_error(String::from_str("Error: 'rows' argument required for resize operation")));
        },
    };
    Ok((cols, rows))
}

/// What a wait waits for.
#[derive(Debug)]
pub enum WaitKind {
    /// The command to finish.
    CommandComplete,
    /// The text to appear on the screen.
    OutputContains(String),
    /// The screen to stay unchanged for that many seconds.
    Idle(u64),
}

/// The `timeout` of a wait, in seconds: 30 when not given.
pub fn wait_timeout(args: &Json) -> (r: u64)
    ensures
        r == match u64_of(field(Some(*args), "timeout"@)) {
            Some(n) => n,
            None => 30,
        },
{
    match opt_u64(args, "timeout") {
        Some(n) => n,
        None => 30,
    }
}

/// What a wait of type `wait_type` waits for: output_contains takes a
/// `text`, idle takes `seconds`; any other type is refused.
pub fn wait_kind(args: &Json, wait_type: &str) -> (r: Result<WaitKind, ToolResult>)
    ensures
        wait_type@ == "command_complete"@ ==> r matches Ok(WaitKind::CommandComplete),
        wait_type@ == "output_contains"@ ==> match str_of(field(Some(*args), "text"@)) {
            Some(t) => r matches Ok(WaitKind::OutputContains(x)) && x@ == t,
            None => r matches Err(e) && e.is_error && e.content@ == missing_argument("text"@),
        },
        wait_type@ == "idle"@ ==> match u64_of(field(Some(*args), "seconds"@)) {
            Some(n) => r matches Ok(WaitKind::Idle(x)) && x == n,
            None => r matches Err(e) && e.is_error && e.content@ == "Error: 'seconds' argument required for idle wait_type"@,
        },
        !(wait_type@ == "command_complete"@ || wait_type@ == "output_contains"@ || wait_type@ == "idle"@) ==> (r matches Err(
            e,
        ) && e.is_error && e.content@ == "Error: Unknown wait_type '"@ + wait_type@ + "'"@),
{
    proof {
        reveal_strlit("command_complete");
        reveal_strlit("output_contains");
        reveal_strlit("idle");
        assert("command_complete"@.len() != "output_contains"@.len());
        assert("command_complete"@.len() != "idle"@.len());
        assert("output_contains"@.len() != "idle"@.len());
    }
    if str_eq(wait_type, "command_complete") {
        Ok(WaitKind::CommandComplete)
    } else if str_eq(wait_type, "output_contains") {
        match require_str(args, "text") {
            Ok(t) => Ok(WaitKind::OutputContains(t)),
            Err(e) => Err(e),
        }
    } else if str_eq(wait_type, "idle") {
        match opt_u64(args, "seconds") {
            Some(n) => Ok(WaitKind::Idle(n)),
            None => Err(tool_error(String::from_str("Error: 'seconds' argument required for idle wait_type"))),
        }
    } else {
        Err(tool_error(join3("Error: Unknown wait_type '", wait_type, "'")))
    }
}

/// Nanoseconds in a second.
pub const NANOS_PER_SEC: u128 = 1_000_000_000;

/// Whether `elapsed_nanos` reaches a limit of `secs` seconds.
pub fn reached(elapsed_nanos: u128, secs: u64) -> (r: bool)
    ensures
        r == (elapsed_nanos >= secs * 1_000_000_000),
{
    proof {
        assert(secs * 1_000_000_000 <= u128::MAX) by (nonlinear_arith)
            requires
                secs <= u64::MAX,
        ;
    }
    elapsed_nanos >= (secs as u128) * NANOS_PER_SEC
}

/// Whole seconds in a span of nanoseconds.
pub fn whole_seconds(nanos: u128) -> (r: u64)
    requires
        nanos / 1_000_000_000 <= u64::MAX,
    ensures
        r == nanos / 1_000_000_000,
{
    (nanos / NANOS_PER_SEC) as u64
}

/// A JSON integer for an exit code.
pub fn exit_code_json(code: Option<i32>) -> (r: Json)
    ensures
        match code {
            None => r is Null,
            Some(c) => if c >= 0 {
                r == Json::Number(JsonNumber::Unsigned(c as u64))
            } else {
                r == Json::Number(JsonNumber::Negative(c as i64))
            },
        },
{
    match code {
        None => Json::Null,
        Some(c) => if c >= 0 {
            Json::Number(JsonNumber::Unsigned(c as u64))
        } else {
            Json::Number(JsonNumber::Negative(c as i64))
        },
    }
}

/// Whether `v` is an object whose members have the names `keys`, in order.
pub open spec fn has_keys(v: Json, keys: Seq<Seq<char>>) -> bool {
    match v {
        Json::Object(fs) => fs@.len() == keys.len() && forall|i: int| 0 <= i < keys.len() ==> #[trigger] fs@[i].0@ == keys[i],
        _ => false,
    }
}

/// The value of member `i` of an object.
pub open spec fn member_at(v: Json, i: int) -> Json {
    v->Object_0@[i].1
}

/// Whether `v` is the string `t`.
pub open spec fn is_string(v: Json, t: Seq<char>) -> bool {
    match v {
        Json::String(s) => s@ == t,
        _ => false,
    }
}

/// The answer of a wait that ran out of time: the name, the wait type, the
/// status "timeout", the seconds waited and allowed, then `extra` (the
/// searched text, or the idle time required) when there is one.
pub fn wait_timeout_response(name: &str, wait_type: &str, waited: u64, timeout: u64, extra: Option<(String, Json)>) -> (r: Json)
    ensures
        has_keys(
            r,
            seq!["name"@, "wait_type"@, "status"@, "waited_seconds"@, "timeout_seconds"@] + match extra {
                Some(m) => seq![m.0@],
                None => Seq::<Seq<char>>::empty(),
            },
        ),
        is_string(member_at(r, 0), name@),
        is_string(member_at(r, 1), wait_type@),
        is_string(member_at(r, 2), "timeout"@),
        member_at(r, 3) == number_json(waited),
        member_at(r, 4) == number_json(timeout),
        extra matches Some(m) ==> member_at(r, 5) == m.1,
{
    proof {
        reveal_strlit("name");
        reveal_strlit("wait_type");
        reveal_strlit("status");
        reveal_strlit("timeout");
        reveal_strlit("waited_seconds");
        reveal_strlit("timeout_seconds");
    }
    let mut fields: Vec<(String, Json)> = vec![
        member("name", text(name)),
        member("wait_type", text(wait_type)),
        member("status", text("timeout")),
        member("waited_seconds", number(waited)),
        member("timeout_seconds", number(timeout)),
    ];
    match extra {
        Some(m) => fields.push(m),
        None => {},
    }
    let r = Json::Object(fields);
    assert(has_keys(
        r,
        seq!["name"@, "wait_type"@, "status"@, "waited_seconds"@, "timeout_seconds"@] + match extra {
            Some(m) => seq![m.0@],
            None => Seq::<Seq<char>>::empty(),
        },
    ));
    r
}

/// A non-negative JSON integer.
pub open spec fn number_json(n: u64) -> Json {
    Json::Number(JsonNumber::Unsigned(n))
}

/// The answer of a wait that saw its condition: the name, the wait type, the
/// status "success", the seconds waited, then `extra` (the exit code, the
/// text found, or the idle time seen and required).
pub fn wait_success_response(name: &str, wait_type: &str, waited: u64, extra: Vec<(String, Json)>) -> (r: Json)
    ensures
        has_keys(r, seq!["name"@, "wait_type"@, "status"@, "waited_seconds"@] + extra@.map_values(|m: (String, Json)| m.0@)),
        is_string(member_at(r, 0), name@),
        is_string(member_at(r, 1), wait_type@),
        is_string(member_at(r, 2), "success"@),
        member_at(r, 3) == number_json(waited),
        forall|i: int| 0 <= i < extra@.len() ==> member_at(r, 4 + i) == #[trigger] extra@[i].1,
{
    proof {
        reveal_strlit("name");
        reveal_strlit("wait_type");
        reveal_strlit("status");
        reveal_strlit("success");
        reveal_strlit("waited_seconds");
    }
    let mut fields: Vec<(String, Json)> = vec![
        member("name", text(name)),
        member("wait_type", text(wait_type)),
        member("status", text("success")),
        member("waited_seconds", number(waited)),
    ];
    let mut extra = extra;
    let ghost all = extra@;
    let total = extra.len();
    let mut k: usize = 0;
    while extra.len() > 0
        invariant
            fields@.len() == 4 + k,
            k + extra@.len() == all.len() == total,
            extra@ == all.subrange(k as int, all.len() as int),
            fields@[0].0@ == "name"@ && is_string(fields@[0].1, name@),
            fields@[1].0@ == "wait_type"@ && is_string(fields@[1].1, wait_type@),
            fields@[2].0@ == "status"@ && is_string(fields@[2].1, "success"@),
            fields@[3].0@ == "waited_seconds"@ && fields@[3].1 == number_json(waited),
            forall|i: int| 0 <= i < k ==> #[trigger] fields@[4 + i] == all[i],
        decreases extra.len(),
    {
        let m = extra.remove(0);
        fields.push(m);
        k = k + 1;
    }
    let r = Json::Object(fields);
    let ghost keys = seq!["name"@, "wait_type"@, "status"@, "waited_seconds"@] + all.map_values(|m: (String, Json)| m.0@);
    assert forall|i: int| 0 <= i < keys.len() implies #[trigger] fields@[i].0@ == keys[i] by {
        if i >= 4 {
            assert(fields@[4 + (i - 4)] == all[i - 4]);
        }
    }
    r
}

/// What the standard library's `DefaultHasher` (made with
/// `DefaultHasher::new`) gives for a string. `new` uses fixed keys rather
/// than a per-process seed, so the value depends on the string alone for a
/// given build of the standard library; nothing is stated of the value itself.
pub uninterp spec fn default_hash(s: Seq<char>) -> u64;

/// Hashes a string with `std::hash::DefaultHasher::new()` and `Hash::hash`;
/// the value is named `default_hash` of the string.
#[verifier::external_body]
fn hash_with_default_hasher(s: &str) -> (r: u64)
    ensures
        r == default_hash(s@),
{
    let mut hasher = std::collections::hash_map::DefaultHasher::new();
    Hash::hash(s, &mut hasher);
    Hasher::finish(&hasher)
}

/// A hash of a screen's content, to tell when it changes.
pub fn compute_hash(s: &str) -> (r: u64)
    ensures
        r == default_hash(s@),
{
    hash_with_default_hasher(s)
}

/// What an idle wait remembers: the hash of the last content seen and when
/// it last changed (in nanoseconds since the wait began).
#[derive(PartialEq, Eq, Structural, Clone, Copy, Debug)]
pub struct IdleWatch {
    pub last_hash: Option<u64>,
    pub last_change: u128,
}

/// What an idle wait does after reading the screen.
#[derive(PartialEq, Eq, Structural, Clone, Copy, Debug)]
pub enum IdleStep {
    /// Keep polling with this state.
    Continue(IdleWatch),
    /// The screen stayed the same for this many nanoseconds: done.
    Idle(u128),
}

/// The step of an idle wait (see `idle_step`).
pub open spec fn idle_next(watch: IdleWatch, hash: u64, now: u128, idle_secs: u64) -> IdleStep {
    match watch.last_hash {
        Some(prev) if prev == hash => if now - watch.last_change >= idle_secs * 1_000_000_000 {
            IdleStep::Idle((now - watch.last_change) as u128)
        } else {
            IdleStep::Continue(watch)
        },
        _ => IdleStep::Continue(IdleWatch { last_hash: Some(hash), last_change: now }),
    }
}

/// The step of an idle wait that reads a screen hashing to `hash` at `now`
/// (nanoseconds since the wait began), waiting for `idle_secs` seconds of
/// quiet: the first read and any change restart the quiet time; an unchanged
/// screen that has been quiet long enough ends the wait.
pub fn idle_step(watch: IdleWatch, hash: u64, now: u128, idle_secs: u64) -> (r: IdleStep)
    requires
        watch.last_change <= now,
    ensures
        r == idle_next(watch, hash, now, idle_secs),
{
    match watch.last_hash {
        Some(prev) => {
            if prev != hash {
                IdleStep::Continue(IdleWatch { last_hash: Some(hash), last_change: now })
            } else {
                let quiet = now - watch.last_change;
                if reached(quiet, idle_secs) {
                    IdleStep::Idle(quiet)
                } else {
                    IdleStep::Continue(watch)
                }
            }
        },
        None => IdleStep::Continue(IdleWatch { last_hash: Some(hash), last_change: now }),
    }
}

/// Whether a close keeps the final screen: the `archive` flag, off by default.
pub fn close_archive(args: &Json) -> (r: bool)
    ensures
        r == match field(Some(*args), "archive"@) {
            Some(Json::Bool(b)) => b,
            _ => false,
        },
{
    match args.get("archive") {
        Some(Json::Bool(b)) => *b,
        _ => false,
    }
}

/// The answer to a close: the name, the operation, the status "closed",
/// whether the screen was kept, and the kept screen.
pub fn closed_response(name: &str, archived: Option<String>) -> (r: Json)
    ensures
        has_keys(
            r,
            seq!["name"@, "operation"@, "status"@, "archived"@] + if archived is Some {
                seq!["final_content"@]
            } else {
                Seq::<Seq<char>>::empty()
            },
        ),
        is_string(member_at(r, 0), name@),
        is_string(member_at(r, 1), "close"@),
        is_string(member_at(r, 2), "closed"@),
        member_at(r, 3) == Json::Bool(archived is Some),
        archived matches Some(c) ==> is_string(member_at(r, 4), c@),
{
    proof {
        reveal_strlit("name");
        reveal_strlit("operation");
        reveal_strlit("status");
        reveal_strlit("archived");
        reveal_strlit("final_content");
    }
    let mut fields: Vec<(String, Json)> = vec![
        member("name", text(name)),
        member("operation", text("close")),
        member("status", text("closed")),
        member("archived", Json::Bool(archived.is_some())),
    ];
    match archived {
        Some(c) => fields.push(member("final_content", Json::String(c))),
        None => {},
    }
    let r = Json::Object(fields);
    assert(has_keys(
        r,
        seq!["name"@, "operation"@, "status"@, "archived"@] + if archived is Some {
            seq!["final_content"@]
        } else {
            Seq::<Seq<char>>::empty()
        },
    ));
    r
}

/// A string or `null`.
fn text_or_null(s: &Option<String>) -> (r: Json)
    ensures
        match s {
            Some(t) => is_string(r, t@),
            None => r is Null,
        },
{
    match s {
        Some(t) => Json::String(t.clone()),
        None => Json::Null,
    }
}

/// The JSON form of a listing entry: name, owner, command state, current
/// command, last exit code, size as `[cols, rows]`, alternate screen flag and
/// age in seconds.
pub fn terminal_info_json(info: &TerminalInfo) -> (r: Json)
    ensures
        has_keys(
            r,
            seq![
                "name"@,
                "owner"@,
                "command_state"@,
                "current_command"@,
                "last_exit_code"@,
                "size"@,
                "is_alternate_screen"@,
                "age_seconds"@,
            ],
        ),
        is_string(member_at(r, 0), info.name@),
        match info.owner {
            Some(o) => is_string(member_at(r, 1), o@),
            None => member_at(r, 1) is Null,
        },
        is_string(member_at(r, 2), crate::terminal::runner::state_name(info.command_state)),
        match info.current_command {
            Some(c) => is_string(member_at(r, 3), c@),
            None => member_at(r, 3) is Null,
        },
        member_at(r, 6) == Json::Bool(info.is_alternate_screen),
        member_at(r, 7) == number_json(info.age_seconds),
{
    proof {
        reveal_strlit("name");
        reveal_strlit("owner");
        reveal_strlit("command_state");
        reveal_strlit("current_command");
        reveal_strlit("last_exit_code");
        reveal_strlit("size");
        reveal_strlit("is_alternate_screen");
        reveal_strlit("age_seconds");
    }
    let r = Json::Object(
        vec![
            member("name", Json::String(info.name.clone())),
            member("owner", text_or_null(&info.owner)),
            member("command_state", text(command_state_name(info.command_state))),
            member("current_command", text_or_null(&info.current_command)),
            member("last_exit_code", exit_code_json(info.last_exit_code)),
            member("size", Json::Array(vec![number(info.size.0 as u64), number(info.size.1 as u64)])),
            member("is_alternate_screen", Json::Bool(info.is_alternate_screen)),
            member("age_seconds", number(info.age_seconds)),
        ],
    );
    assert(has_keys(
        r,
        seq![
            "name"@,
            "owner"@,
            "command_state"@,
            "current_command"@,
            "last_exit_code"@,
            "size"@,
            "is_alternate_screen"@,
            "age_seconds"@,
        ],
    ));
    r
}

/// The answer to a list: the terminals' entries and how many there are.
pub fn list_response(infos: &Vec<TerminalInfo>) -> (r: Json)
    ensures
        has_keys(r, seq!["terminals"@, "count"@]),
        match member_at(r, 0) {
            Json::Array(items) => items@.len() == infos@.len(),
            _ => false,
        },
        member_at(r, 1) == number_json(infos@.len() as u64),
{
    proof {
        reveal_strlit("terminals");
        reveal_strlit("count");
    }
    let mut items: Vec<Json> = Vec::new();
    let mut i: usize = 0;
    while i < infos.len()
        invariant
            i <= infos@.len(),
            items@.len() == i,
        decreases infos.len() - i,
    {
        items.push(terminal_info_json(&infos[i]));
        i = i + 1;
    }
    let r = Json::Object(vec![member("terminals", Json::Array(items)), member("count", number(infos.len() as u64))]);
    assert(has_keys(r, seq!["terminals"@, "count"@]));
    r
}

/// The description of the terminal tool.
pub open spec fn terminal_tool_description() -> Seq<char> {
    "Perform operations on terminal sessions: create, send input, read output, resize, wait for conditions, or close."@
}

/// The properties of the terminal tool's arguments, in order.
pub open spec fn terminal_properties() -> Seq<(Seq<char>, PropertyShape)> {
    seq![
        ("name"@, PropertyShape::Plain {
            ty: "string"@,
            description: "Name of the terminal session (required for all operations except create where it's the name to assign)"@,
        }),
        ("operation"@, PropertyShape::Choice {
            ty: "string"@,
            choices: seq!["create"@, "send"@, "read"@, "resize"@, "wait"@, "close"@, "list"@],
            description: "Operation to perform: create (new session), send (input to terminal), read (terminal output), resize (change dimensions), wait (for conditions), close (terminate session), list (show all terminals)"@,
        }),
        ("cols"@, PropertyShape::Plain {
            ty: "integer"@,
            description: "For operation='create' or 'resize': Terminal width in columns (default: 140 for create)"@,
        }),
        ("rows"@, PropertyShape::Plain {
            ty: "integer"@,
            description: "For operation='create' or 'resize': Terminal height in rows (default: 50 for create)"@,
        }),
        ("cwd"@, PropertyShape::Plain {
            ty: "string"@,
            description: "For operation='create': Working directory for the shell (default: current directory)"@,
        }),
        ("env"@, PropertyShape::StringMap {
            description: "For operation='create': Additional environment variables as key-value pairs"@,
        }),
        ("input"@, PropertyShape::Plain {
            ty: "string"@,
            description: "For operation='send': Text to send to the terminal. Normal text is sent as-is. Special sequences in <> notation: <C-a> (Ctrl+A), <C-A> (Ctrl+Shift+A), <A-a> (Alt+A), <C-A-a> (Ctrl+Alt+A), <RET> (Enter), <TAB> (Tab), <BSPC> (Backspace), <DEL> (Delete), <<text>> (literal <text>)"@,
        }),
        ("lines"@, PropertyShape::Plain {
            ty: "integer"@,
            description: "For operation='read': Number of lines to read (default: terminal height)"@,
        }),
        ("offset_from_bottom"@, PropertyShape::Plain {
            ty: "integer"@,
            description: "For operation='read': Lines from bottom to skip (default: 0)"@,
        }),
        ("wait_type"@, PropertyShape::Choice {
            ty: "string"@,
            choices: seq!["command_complete"@, "output_contains"@, "idle"@],
            description: "For operation='wait': Wait condition type"@,
        }),
        ("text"@, PropertyShape::Plain {
            ty: "string"@,
            description: "For operation='wait' with wait_type='output_contains': Text to wait for in terminal output"@,
        }),
        ("seconds"@, PropertyShape::Plain {
            ty: "integer"@,
            description: "For operation='wait' with wait_type='idle': Seconds of no output to consider idle"@,
        }),
        ("timeout"@, PropertyShape::Defaulted {
            ty: "integer"@,
            description: "For operation='wait': Maximum seconds to wait (default: 30)"@,
            default: number_json(30),
        }),
        ("archive"@, PropertyShape::Defaulted {
            ty: "boolean"@,
            description: "For operation='close': Whether to save final screen content before closing"@,
            default: Json::Bool(false),
        }),
    ]
}

/// The definition of the unified terminal tool: its name, what it does, and
/// exactly the schema of its arguments (`terminal_properties`, of which only
/// `operation` is required).
pub fn definition() -> (r: ToolDefinition)
    ensures
        r.def_type@ == "function"@,
        r.function.name@ == "terminal"@,
        r.function.description@ == terminal_tool_description(),
        has_schema(r.function.parameters, terminal_properties(), seq!["operation"@]),
{
    let props = vec![
        member("name", property("string", "Name of the terminal session (required for all operations except create where it's the name to assign)")),
        member(
            "operation",
            choice_property(
                "string",
                vec!["create", "send", "read", "resize", "wait", "close", "list"],
                "Operation to perform: create (new session), send (input to terminal), read (terminal output), resize (change dimensions), wait (for conditions), close (terminate session), list (show all terminals)",
            ),
        ),
        member("cols", property("integer", "For operation='create' or 'resize': Terminal width in columns (default: 140 for create)")),
        member("rows", property("integer", "For operation='create' or 'resize': Terminal height in rows (default: 50 for create)")),
        member("cwd", property("string", "For operation='create': Working directory for the shell (default: current directory)")),
        member("env", string_map_property("For operation='create': Additional environment variables as key-value pairs")),
        member(
            "input",
            property(
                "string",
                "For operation='send': Text to send to the terminal. Normal text is sent as-is. Special sequences in <> notation: <C-a> (Ctrl+A), <C-A> (Ctrl+Shift+A), <A-a> (Alt+A), <C-A-a> (Ctrl+Alt+A), <RET> (Enter), <TAB> (Tab), <BSPC> (Backspace), <DEL> (Delete), <<text>> (literal <text>)",
            ),
        ),
        member("lines", property("integer", "For operation='read': Number of lines to read (default: terminal height)")),
        member("offset_from_bottom", property("integer", "For operation='read': Lines from bottom to skip (default: 0)")),
        member(
            "wait_type",
            choice_property(
                "string",
                vec!["command_complete", "output_contains", "idle"],
                "For operation='wait': Wait condition type",
            ),
        ),
        member("text", property("string", "For operation='wait' with wait_type='output_contains': Text to wait for in terminal output")),
        member("seconds", property("integer", "For operation='wait' with wait_type='idle': Seconds of no output to consider idle")),
        member("timeout", property_with_default("integer", "For operation='wait': Maximum seconds to wait (default: 30)", number(30))),
        member(
            "archive",
            property_with_default(
                "boolean",
                "For operation='close': Whether to save final screen content before closing",
                Json::Bool(false),
            ),
        ),
    ];
    proof {
        let shapes = terminal_properties();
        assert(describes(props@, shapes)) by {
            assert forall|i: int| 0 <= i < props@.len() implies #[trigger] props@[i].0@ == shapes[i].0 && has_shape(
                props@[i].1,
                shapes[i].1,
            ) by {
                assert(0 <= i < 14);
                if i == 0 {
                } else if i == 1 {
                    assert(seq!["create", "send", "read", "resize", "wait", "close", "list"].map_values(|s: &str| s@)
                        =~= seq!["create"@, "send"@, "read"@, "resize"@, "wait"@, "close"@, "list"@]);
                } else if i == 2 {
                } else if i == 3 {
                } else if i == 4 {
                } else if i == 5 {
                } else if i == 6 {
                } else if i == 7 {
                } else if i == 8 {
                } else if i == 9 {
                    assert(seq!["command_complete", "output_contains", "idle"].map_values(|s: &str| s@)
                        =~= seq!["command_complete"@, "output_contains"@, "idle"@]);
                } else if i == 10 {
                } else if i == 11 {
                } else if i == 12 {
                } else {
                }
            }
        }
    }
    let parameters = schema(props, vec!["operation"]);
    proof {
        lemma_schema_described(parameters, terminal_properties(), seq!["operation"@]);
    }
    ToolDefinition {
        def_type: String::from_str("function"),
        function: FunctionDef {
            name: String::from_str("terminal"),
            description: String::from_str("Perform operations on terminal sessions: create, send input, read output, resize, wait for conditions, or close."),
            parameters,
        },
    }
}

/// Whether the members `props` are, in order, the properties `shapes`.
pub open spec fn describes(props: Seq<(String, Json)>, shapes: Seq<(Seq<char>, PropertyShape)>) -> bool {
    &&& props.len() == shapes.len()
    &&& forall|i: int|
        0 <= i < props.len() ==> #[trigger] props[i].0@ == shapes[i].0 && has_shape(props[i].1, shapes[i].1)
}

/// An object schema whose properties member lists `shapes` is the schema of them.
pub proof fn lemma_schema_described(v: Json, shapes: Seq<(Seq<char>, PropertyShape)>, required: Seq<Seq<char>>)
    requires
        has_keys(v, seq!["type"@, "properties"@, "required"@]),
        is_string(member_at(v, 0), "object"@),
        match member_at(v, 1) {
            Json::Object(fs) => describes(fs@, shapes),
            _ => false,
        },
        match member_at(v, 2) {
            Json::Array(items) => items@.len() == required.len() && forall|i: int|
                0 <= i < required.len() ==> is_string(#[trigger] items@[i], required[i]),
            _ => false,
        },
    ensures
        has_schema(v, shapes, required),
{
    let names = shapes.map_values(|p: (Seq<char>, PropertyShape)| p.0);
    if let Json::Object(fs) = member_at(v, 1) {
        assert forall|i: int| 0 <= i < names.len() implies #[trigger] fs@[i].0@ == names[i] by {
            assert(fs@[i].0@ == shapes[i].0);
        }
        assert forall|i: int| 0 <= i < shapes.len() implies has_shape(#[trigger] member_at(member_at(v, 1), i), shapes[i].1) by {
            assert(fs@[i].0@ == shapes[i].0 && has_shape(fs@[i].1, shapes[i].1));
        }
    }
}

/// Whether `v` is the schema of a tool's arguments: an object with the
/// properties `properties`, in order, of which `required` are required.
pub open spec fn is_schema(v: Json, properties: Seq<Seq<char>>, required: Seq<Seq<char>>) -> bool {
    &&& has_keys(v, seq!["type"@, "properties"@, "required"@])
    &&& is_string(member_at(v, 0), "object"@)
    &&& has_keys(member_at(v, 1), properties)
    &&& match member_at(v, 2) {
        Json::Array(items) => items@.len() == required.len() && forall|i: int|
            0 <= i < required.len() ==> is_string(#[trigger] items@[i], required[i]),
        _ => false,
    }
}

/// What one property of an argument schema says.
pub enum PropertyShape {
    /// A value of type `ty`.
    Plain { ty: Seq<char>, description: Seq<char> },
    /// A value of type `ty`, one of `choices`.
    Choice { ty: Seq<char>, choices: Seq<Seq<char>>, description: Seq<char> },
    /// A value of type `ty`, `default` when not given.
    Defaulted { ty: Seq<char>, description: Seq<char>, default: Json },
    /// An object whose values are strings.
    StringMap { description: Seq<char> },
    /// An array of strings, each one of `choices`.
    ChoiceList { choices: Seq<Seq<char>>, description: Seq<char> },
}

/// Whether `v` is an array of the strings `names`, in order.
pub open spec fn is_string_list(v: Json, names: Seq<Seq<char>>) -> bool {
    match v {
        Json::Array(items) => items@.len() == names.len() && forall|i: int|
            0 <= i < names.len() ==> is_string(#[trigger] items@[i], names[i]),
        _ => false,
    }
}

/// Whether the property `v` of a schema says exactly what `shape` says, its
/// members in this order: `type`, then `enum` or `items` where there is one,
/// then `description`, then `default` or `additionalProperties` where there
/// is one.
pub open spec fn has_shape(v: Json, shape: PropertyShape) -> bool {
    match shape {
        PropertyShape::Plain { ty, description } => {
            &&& has_keys(v, seq!["type"@, "description"@])
            &&& is_string(member_at(v, 0), ty)
            &&& is_string(member_at(v, 1), description)
        },
        PropertyShape::Choice { ty, choices, description } => {
            &&& has_keys(v, seq!["type"@, "enum"@, "description"@])
            &&& is_string(member_at(v, 0), ty)
            &&& is_string_list(member_at(v, 1), choices)
            &&& is_string(member_at(v, 2), description)
        },
        PropertyShape::Defaulted { ty, description, default } => {
            &&& has_keys(v, seq!["type"@, "description"@, "default"@])
            &&& is_string(member_at(v, 0), ty)
            &&& is_string(member_at(v, 1), description)
            &&& member_at(v, 2) == default
        },
        PropertyShape::StringMap { description } => {
            &&& has_keys(v, seq!["type"@, "description"@, "additionalProperties"@])
            &&& is_string(member_at(v, 0), "object"@)
            &&& is_string(member_at(v, 1), description)
            &&& has_keys(member_at(v, 2), seq!["type"@])
            &&& is_string(member_at(member_at(v, 2), 0), "string"@)
        },
        PropertyShape::ChoiceList { choices, description } => {
            &&& has_keys(v, seq!["type"@, "items"@, "description"@])
            &&& is_string(member_at(v, 0), "array"@)
            &&& has_keys(member_at(v, 1), seq!["type"@, "enum"@])
            &&& is_string(member_at(member_at(v, 1), 0), "string"@)
            &&& is_string_list(member_at(member_at(v, 1), 1), choices)
            &&& is_string(member_at(v, 2), description)
        },
    }
}

/// Whether `v` is exactly the argument schema with `properties` (each a name
/// and what it says, in order), of which the names in `required` are required.
pub open spec fn has_schema(v: Json, properties: Seq<(Seq<char>, PropertyShape)>, required: Seq<Seq<char>>) -> bool {
    &&& is_schema(v, properties.map_values(|p: (Seq<char>, PropertyShape)| p.0), required)
    &&& forall|i: int| 0 <= i < properties.len() ==> has_shape(#[trigger] member_at(member_at(v, 1), i), properties[i].1)
}

/// An array of the strings `names`, in order.
pub fn string_list(names: Vec<&str>) -> (r: Json)
    ensures
        is_string_list(r, names@.map_values(|s: &str| s@)),
{
    let mut items: Vec<Json> = Vec::new();
    let mut i: usize = 0;
    while i < names.len()
        invariant
            i <= names@.len(),
            items@.len() == i,
            forall|k: int| 0 <= k < i ==> is_string(#[trigger] items@[k], names@[k]@),
        decreases names.len() - i,
    {
        items.push(text(names[i]));
        i = i + 1;
    }
    let r = Json::Array(items);
    assert(is_string_list(r, names@.map_values(|s: &str| s@)));
    r
}

/// A property of a schema whose value is one of `choices`.
pub fn choice_property(ty: &str, choices: Vec<&str>, description: &str) -> (r: Json)
    ensures
        has_shape(
            r,
            PropertyShape::Choice { ty: ty@, choices: choices@.map_values(|s: &str| s@), description: description@ },
        ),
{
    proof {
        reveal_strlit("type");
        reveal_strlit("enum");
        reveal_strlit("description");
    }
    let list = string_list(choices);
    let r = Json::Object(vec![member("type", text(ty)), member("enum", list), member("description", text(description))]);
    assert(has_keys(r, seq!["type"@, "enum"@, "description"@]));
    r
}

/// A property of a schema holding a list of strings, each one of `choices`.
pub fn choice_list_property(choices: Vec<&str>, description: &str) -> (r: Json)
    ensures
        has_shape(r, PropertyShape::ChoiceList { choices: choices@.map_values(|s: &str| s@), description: description@ }),
{
    proof {
        reveal_strlit("type");
        reveal_strlit("enum");
        reveal_strlit("items");
        reveal_strlit("description");
    }
    let list = string_list(choices);
    let item = Json::Object(vec![member("type", text("string")), member("enum", list)]);
    assert(has_keys(item, seq!["type"@, "enum"@]));
    let r = Json::Object(vec![member("type", text("array")), member("items", item), member("description", text(description))]);
    assert(has_keys(r, seq!["type"@, "items"@, "description"@]));
    r
}

/// A property of a schema: its type and description.
pub fn property(ty: &str, description: &str) -> (r: Json)
    ensures
        has_shape(r, PropertyShape::Plain { ty: ty@, description: description@ }),
{
    proof {
        reveal_strlit("type");
        reveal_strlit("description");
    }
    let r = Json::Object(vec![member("type", text(ty)), member("description", text(description))]);
    assert(has_keys(r, seq!["type"@, "description"@]));
    r
}

/// A property of a schema with a default value.
pub fn property_with_default(ty: &str, description: &str, default: Json) -> (r: Json)
    ensures
        has_shape(r, PropertyShape::Defaulted { ty: ty@, description: description@, default }),
{
    proof {
        reveal_strlit("type");
        reveal_strlit("description");
        reveal_strlit("default");
    }
    let r = Json::Object(vec![member("type", text(ty)), member("description", text(description)), member("default", default)]);
    assert(has_keys(r, seq!["type"@, "description"@, "default"@]));
    r
}

/// A property holding an object whose values are strings.
pub fn string_map_property(description: &str) -> (r: Json)
    ensures
        has_shape(r, PropertyShape::StringMap { description: description@ }),
{
    proof {
        reveal_strlit("type");
        reveal_strlit("description");
        reveal_strlit("additionalProperties");
    }
    let r = Json::Object(
        vec![
            member("type", text("object")),
            member("description", text(description)),
            member("additionalProperties", Json::Object(vec![member("type", text("string"))])),
        ],
    );
    assert(has_keys(r, seq!["type"@, "description"@, "additionalProperties"@]));
    assert(has_keys(member_at(r, 2), seq!["type"@]));
    r
}

/// The definition of a tool: its name, description and argument schema.
pub fn tool_definition(name: &str, description: &str, parameters: Json) -> (r: ToolDefinition)
    ensures
        r.def_type@ == "function"@,
        r.function.name@ == name@,
        r.function.description@ == description@,
        r.function.parameters == parameters,
{
    ToolDefinition {
        def_type: String::from_str("function"),
        function: FunctionDef { name: String::from_str(name), description: String::from_str(description), parameters },
    }
}

/// An argument schema with `properties` (name and value, in order), of which
/// the names in `required` are required.
pub fn schema(properties: Vec<(String, Json)>, required: Vec<&str>) -> (r: Json)
    ensures
        has_keys(r, seq!["type"@, "properties"@, "required"@]),
        is_string(member_at(r, 0), "object"@),
        member_at(r, 1) == Json::Object(properties),
        match member_at(r, 2) {
            Json::Array(items) => items@.len() == required@.len() && forall|i: int|
                0 <= i < required@.len() ==> is_string(#[trigger] items@[i], required@[i]@),
            _ => false,
        },
{
    proof {
        reveal_strlit("type");
        reveal_strlit("properties");
        reveal_strlit("required");
    }
    let mut names: Vec<Json> = Vec::new();
    let mut i: usize = 0;
    while i < required.len()
        invariant
            i <= required@.len(),
            names@.len() == i,
            forall|k: int| 0 <= k < i ==> is_string(#[trigger] names@[k], required@[k]@),
        decreases required.len() - i,
    {
        names.push(text(required[i]));
        i = i + 1;
    }
    let r = Json::Object(
        vec![
            member("type", text("object")),
            member("properties", Json::Object(properties)),
            member("required", Json::Array(names)),
        ],
    );
    assert(has_keys(r, seq!["type"@, "properties"@, "required"@]));
    r
}

} // verus!
