use nac::tools::waiting::{after_poll, command_done, expired_answer, Observation, WaitAction};
use nac::tools::terminal_resize::requested_size;
use nac::tools::terminal_send::{require_string_array, send_payload};
use std::hash::{Hash, Hasher};

use nac::json::{Json, JsonNumber};
use nac::terminal::manager::TerminalInfo;
use nac::terminal::runner::CommandState;
use nac::tools::operations::{
    close_archive, closed_response, compute_hash, create_options, created_response, definition,
    done_response, exit_code_json, failed, idle_step, list_response, parse_operation, reached,
    read_lines, read_offset, read_result, refuses_scrollback, require_str, resize_size,
    resized_response, scrollback_refusal, send_input, session_absent, session_exists,
    session_gone, session_lost_while_waiting, session_not_found, wait_kind, wait_success_response,
    wait_timeout, wait_timeout_response, IdleStep, IdleWatch, TerminalOperation, WaitKind,
};

fn s(x: &str) -> Json {
    Json::String(x.to_string())
}

fn n(x: u64) -> Json {
    Json::Number(JsonNumber::Unsigned(x))
}

fn obj(pairs: Vec<(&str, Json)>) -> Json {
    Json::Object(pairs.into_iter().map(|(k, v)| (k.to_string(), v)).collect())
}

fn keys(v: &Json) -> Vec<String> {
    match v {
        Json::Object(fs) => fs.iter().map(|(k, _)| k.clone()).collect(),
        other => panic!("not an object: {:?}", other),
    }
}

fn txt<'a>(v: &'a Json, key: &str) -> &'a str {
    v.get(key).and_then(|x| x.as_str()).unwrap_or_else(|| panic!("no text {}", key))
}

#[test]
fn operations_are_named() {
    let op = |name: &str| parse_operation(&obj(vec![("operation", s(name))]));
    assert_eq!(op("create").unwrap(), TerminalOperation::Create);
    assert_eq!(op("send").unwrap(), TerminalOperation::Send);
    assert_eq!(op("read").unwrap(), TerminalOperation::Read);
    assert_eq!(op("resize").unwrap(), TerminalOperation::Resize);
    assert_eq!(op("wait").unwrap(), TerminalOperation::Wait);
    assert_eq!(op("close").unwrap(), TerminalOperation::Close);
    assert_eq!(op("list").unwrap(), TerminalOperation::List);
    let unknown = op("explode").unwrap_err();
    assert!(unknown.is_error);
    assert_eq!(unknown.content, "Error: Unknown operation 'explode'");
    let missing = parse_operation(&obj(vec![])).unwrap_err();
    assert_eq!(missing.content, "Error: Missing required argument 'operation'");
}

#[test]
fn required_strings() {
    let args = obj(vec![("name", s("t1")), ("cols", n(3))]);
    assert_eq!(require_str(&args, "name").unwrap(), "t1");
    assert_eq!(require_str(&args, "cols").unwrap_err().content, "Error: Missing required argument 'cols'");
    assert_eq!(require_str(&s("x"), "name").unwrap_err().content, "Error: Missing required argument 'name'");
}

#[test]
fn session_messages() {
    assert_eq!(session_absent("t").content, "Error: Terminal session 't' does not exist");
    assert_eq!(session_gone("t").content, "Error: Terminal session 't' no longer exists");
    assert_eq!(session_not_found("t").content, "Error: Terminal session 't' not found");
    assert_eq!(session_exists("t").content, "Error: Terminal session 't' already exists");
    assert_eq!(
        session_lost_while_waiting("t").content,
        "Error: Terminal session 't' not found during wait"
    );
    let f = failed("Failed to checkout terminal", "busy");
    assert!(f.is_error);
    assert_eq!(f.content, "Error: Failed to checkout terminal: busy");
}

#[test]
fn create_options_and_answer() {
    let args = obj(vec![
        ("name", s("t")),
        ("cols", n(100)),
        ("cwd", s("/tmp")),
        ("env", obj(vec![("A", s("1")), ("B", n(2)), ("C", s("3"))])),
    ]);
    let o = create_options(&args);
    assert_eq!(o.cols, Some(100));
    assert_eq!(o.rows, None);
    assert_eq!(o.cwd.as_deref(), Some("/tmp"));
    assert_eq!(
        o.env,
        Some(vec![("A".to_string(), "1".to_string()), ("C".to_string(), "3".to_string())])
    );
    let bare = create_options(&obj(vec![("rows", s("40"))]));
    assert_eq!((bare.cols, bare.rows, bare.cwd, bare.env), (None, None, None, None));

    let answer = created_response("t", Some(100), None);
    assert_eq!(keys(&answer), vec!["name", "cols", "rows", "status"]);
    assert_eq!(answer.get("cols").unwrap().as_u64(), Some(100));
    assert_eq!(answer.get("rows").unwrap().as_u64(), Some(50));
    assert_eq!(txt(&answer, "status"), "created");
    assert_eq!(created_response("t", None, None).get("cols").unwrap().as_u64(), Some(140));
}

#[test]
fn send_resize_and_read_arguments() {
    assert_eq!(send_input(&obj(vec![("input", s("ls<RET>"))])).unwrap(), "ls<RET>");
    assert_eq!(
        send_input(&obj(vec![])).unwrap_err().content,
        "Error: 'input' must be provided for send operation"
    );
    let sent = done_response("t", "send", "sent");
    assert_eq!(keys(&sent), vec!["name", "operation", "status"]);
    assert_eq!(txt(&sent, "status"), "sent");

    assert_eq!(resize_size(&obj(vec![("cols", n(120)), ("rows", n(40))])).unwrap(), (120, 40));
    assert_eq!(resize_size(&obj(vec![("cols", n(65536 + 7)), ("rows", n(1))])).unwrap(), (7, 1));
    assert_eq!(
        resize_size(&obj(vec![("rows", n(40))])).unwrap_err().content,
        "Error: 'cols' argument required for resize operation"
    );
    assert_eq!(
        resize_size(&obj(vec![("cols", n(40))])).unwrap_err().content,
        "Error: 'rows' argument required for resize operation"
    );
    let resized = resized_response("t", 120, 40);
    assert_eq!(keys(&resized), vec!["name", "operation", "cols", "rows", "status"]);
    assert_eq!(txt(&resized, "status"), "resized");

    let read_args = obj(vec![("offset_from_bottom", n(2))]);
    assert_eq!(read_offset(&read_args), 2);
    assert_eq!(read_offset(&obj(vec![])), 0);
    assert_eq!(read_lines(&read_args, 24), 24);
    assert_eq!(read_lines(&obj(vec![("lines", n(5))]), 24), 5);
    assert!(refuses_scrollback(true, 1));
    assert!(!refuses_scrollback(true, 0));
    assert!(!refuses_scrollback(false, 3));
    assert!(scrollback_refusal().content.starts_with("Error: Terminal is in alternate screen mode"));
    let r = read_result("a\nb\nc", 2, 0);
    assert!(!r.is_error);
    assert_eq!(r.content, "b\nc");
}

#[test]
fn wait_arguments_and_answers() {
    assert_eq!(wait_timeout(&obj(vec![])), 30);
    assert_eq!(wait_timeout(&obj(vec![("timeout", n(5))])), 5);
    assert!(matches!(wait_kind(&obj(vec![]), "command_complete"), Ok(WaitKind::CommandComplete)));
    match wait_kind(&obj(vec![("text", s("DONE"))]), "output_contains") {
        Ok(WaitKind::OutputContains(t)) => assert_eq!(t, "DONE"),
        other => panic!("unexpected {:?}", other),
    }
    assert_eq!(
        wait_kind(&obj(vec![]), "output_contains").unwrap_err().content,
        "Error: Missing required argument 'text'"
    );
    assert!(matches!(wait_kind(&obj(vec![("seconds", n(2))]), "idle"), Ok(WaitKind::Idle(2))));
    assert_eq!(
        wait_kind(&obj(vec![]), "idle").unwrap_err().content,
        "Error: 'seconds' argument required for idle wait_type"
    );
    assert_eq!(
        wait_kind(&obj(vec![]), "forever").unwrap_err().content,
        "Error: Unknown wait_type 'forever'"
    );

    let timeout = wait_timeout_response("t", "output_contains", 30, 30, Some(("search_text".to_string(), s("X"))));
    assert_eq!(
        keys(&timeout),
        vec!["name", "wait_type", "status", "waited_seconds", "timeout_seconds", "search_text"]
    );
    assert_eq!(txt(&timeout, "status"), "timeout");
    let success = wait_success_response(
        "t",
        "command_complete",
        3,
        vec![("exit_code".to_string(), exit_code_json(Some(-2)))],
    );
    assert_eq!(keys(&success), vec!["name", "wait_type", "status", "waited_seconds", "exit_code"]);
    assert!(matches!(success.get("exit_code"), Some(Json::Number(JsonNumber::Negative(-2)))));
    assert!(exit_code_json(None).is_null());
    assert_eq!(exit_code_json(Some(0)).as_u64(), Some(0));

    assert!(reached(30_000_000_000, 30));
    assert!(!reached(29_999_999_999, 30));
    assert!(reached(0, 0));
}

#[test]
fn idle_waits_restart_on_change() {
    let start = IdleWatch { last_hash: None, last_change: 0 };
    let s1 = match idle_step(start, 7, 100, 1) {
        IdleStep::Continue(w) => w,
        other => panic!("unexpected {:?}", other),
    };
    assert_eq!(s1, IdleWatch { last_hash: Some(7), last_change: 100 });
    let s2 = match idle_step(s1, 8, 500, 1) {
        IdleStep::Continue(w) => w,
        other => panic!("unexpected {:?}", other),
    };
    assert_eq!(s2, IdleWatch { last_hash: Some(8), last_change: 500 });
    assert_eq!(idle_step(s2, 8, 900_000_000, 1), IdleStep::Continue(s2));
    assert_eq!(idle_step(s2, 8, 1_000_000_500, 1), IdleStep::Idle(1_000_000_000));
}

#[test]
fn content_hashes_tell_changes() {
    assert_eq!(compute_hash("screen"), compute_hash("screen"));
    assert_ne!(compute_hash("screen"), compute_hash("screen!"));
    let mut h = std::collections::hash_map::DefaultHasher::new();
    "screen".hash(&mut h);
    assert_eq!(compute_hash("screen"), h.finish());
}

#[test]
fn close_and_list_answers() {
    assert!(close_archive(&obj(vec![("archive", Json::Bool(true))])));
    assert!(!close_archive(&obj(vec![("archive", s("yes"))])));
    assert!(!close_archive(&obj(vec![])));
    let kept = closed_response("t", Some("final".to_string()));
    assert_eq!(keys(&kept), vec!["name", "operation", "status", "archived", "final_content"]);
    assert_eq!(txt(&kept, "final_content"), "final");
    let plain = closed_response("t", None);
    assert_eq!(keys(&plain), vec!["name", "operation", "status", "archived"]);
    assert!(matches!(plain.get("archived"), Some(Json::Bool(false))));

    let info = TerminalInfo {
        name: "t".to_string(),
        owner: None,
        command_state: CommandState::Completed,
        current_command: Some("ls".to_string()),
        last_exit_code: Some(0),
        size: (80, 24),
        is_alternate_screen: false,
        age_seconds: 4,
    };
    let list = list_response(&vec![info]);
    assert_eq!(keys(&list), vec!["terminals", "count"]);
    assert_eq!(list.get("count").unwrap().as_u64(), Some(1));
    let entry = &list.get("terminals").unwrap().as_array().unwrap()[0];
    assert_eq!(txt(entry, "command_state"), "completed");
    assert!(entry.get("owner").unwrap().is_null());
    assert_eq!(entry.get("size").unwrap().as_array().unwrap().len(), 2);
}

#[test]
fn terminal_tool_definition() {
    let d = definition();
    assert_eq!(d.def_type, "function");
    assert_eq!(d.function.name, "terminal");
    assert!(d.function.description.starts_with("Perform operations on terminal sessions"));
    let params = &d.function.parameters;
    assert_eq!(txt(params, "type"), "object");
    let props = params.get("properties").unwrap();
    assert_eq!(
        keys(props),
        vec![
            "name", "operation", "cols", "rows", "cwd", "env", "input", "lines",
            "offset_from_bottom", "wait_type", "text", "seconds", "timeout", "archive"
        ]
    );
    let ops = props.get("operation").unwrap().get("enum").unwrap().as_array().unwrap();
    assert_eq!(ops.len(), 7);
    let required = params.get("required").unwrap().as_array().unwrap();
    assert_eq!(required[0].as_str(), Some("operation"));
}

fn required_names(params: &Json) -> Vec<String> {
    params
        .get("required")
        .unwrap()
        .as_array()
        .unwrap()
        .iter()
        .map(|v| v.as_str().unwrap().to_string())
        .collect()
}

#[test]
fn single_tool_definitions() {
    let create = nac::tools::terminal_create::definition();
    assert_eq!(create.function.name, "terminal_create");
    assert_eq!(create.function.description, "Create a new interactive terminal session with a PTY.");
    let props = create.function.parameters.get("properties").unwrap();
    assert_eq!(keys(props), vec!["name", "cols", "rows", "cwd", "env"]);
    assert_eq!(txt(props.get("env").unwrap(), "type"), "object");
    assert_eq!(required_names(&create.function.parameters), vec!["name"]);

    let close = nac::tools::terminal_close::definition();
    assert_eq!(close.function.name, "terminal_close");
    let props = close.function.parameters.get("properties").unwrap();
    assert_eq!(keys(props), vec!["name", "archive"]);
    assert!(matches!(props.get("archive").unwrap().get("default"), Some(Json::Bool(false))));

    let resize = nac::tools::terminal_resize::definition();
    assert_eq!(resize.function.name, "terminal_resize");
    assert_eq!(required_names(&resize.function.parameters), vec!["name", "cols", "rows"]);

    let read = nac::tools::terminal_read::definition();
    assert_eq!(read.function.name, "terminal_read");
    let props = read.function.parameters.get("properties").unwrap();
    assert_eq!(keys(props), vec!["name", "lines", "offset_from_bottom"]);
    assert_eq!(txt(props.get("lines").unwrap(), "type"), "integer");

    let send = nac::tools::terminal_send::definition();
    assert_eq!(send.def_type, "function");
    assert_eq!(send.function.name, "terminal_send");
    let props = send.function.parameters.get("properties").unwrap();
    assert_eq!(keys(props), vec!["name", "input", "special_key", "modifiers"]);
    let keys_enum = props.get("special_key").unwrap().get("enum").unwrap().as_array().unwrap();
    assert_eq!(keys_enum.len(), 24);
    assert_eq!(keys_enum[0].as_str(), Some("enter"));
    assert_eq!(keys_enum[23].as_str(), Some("f12"));
    let mods = props.get("modifiers").unwrap();
    assert_eq!(txt(mods, "type"), "array");
    let mods_enum = mods.get("items").unwrap().get("enum").unwrap().as_array().unwrap();
    let names: Vec<&str> = mods_enum.iter().map(|v| v.as_str().unwrap()).collect();
    assert_eq!(names, vec!["ctrl", "alt", "shift"]);
}

#[test]
fn send_payloads() {
    let mods = |names: Vec<&str>| Json::Array(names.into_iter().map(s).collect());
    // Literal input goes as it stands, even beside a key.
    let args = obj(vec![("name", s("t")), ("input", s("ls <x>")), ("special_key", s("enter"))]);
    assert_eq!(send_payload(&args).unwrap(), b"ls <x>".to_vec());
    // A special key with modifiers.
    let args = obj(vec![("special_key", s("up")), ("modifiers", mods(vec!["ctrl", "shift"]))]);
    assert_eq!(send_payload(&args).unwrap(), b"\x1b[1;6A".to_vec());
    let args = obj(vec![("special_key", s("enter"))]);
    assert_eq!(send_payload(&args).unwrap(), b"\r".to_vec());
    // Errors.
    let e = send_payload(&obj(vec![("name", s("t"))])).unwrap_err();
    assert_eq!(e.content, "Error: Either 'input' or 'special_key' must be provided");
    assert!(e.is_error);
    let e = send_payload(&obj(vec![("special_key", s("hyper"))])).unwrap_err();
    assert_eq!(e.content, "Error: Unknown special key 'hyper'");
    let e = send_payload(&obj(vec![("input", s("x")), ("modifiers", s("ctrl"))])).unwrap_err();
    assert_eq!(e.content, "Error: Argument 'modifiers' must be an array of strings");
    let e = send_payload(&obj(vec![("input", s("x")), ("modifiers", Json::Array(vec![n(1)]))])).unwrap_err();
    assert_eq!(e.content, "Error: Argument 'modifiers' must be an array of strings");
    // The list itself.
    assert_eq!(require_string_array(&obj(vec![]), "modifiers").unwrap(), Vec::<String>::new());
    assert_eq!(
        require_string_array(&obj(vec![("m", mods(vec!["alt", "ctrl"]))]), "m").unwrap(),
        vec!["alt".to_string(), "ctrl".to_string()]
    );
}

#[test]
fn resize_tool_size() {
    assert_eq!(requested_size(&obj(vec![("cols", n(100)), ("rows", n(70000))])).unwrap(), (100, 4464));
    assert_eq!(requested_size(&obj(vec![("rows", n(5))])).unwrap_err().content, "Error: 'cols' argument required");
    assert_eq!(requested_size(&obj(vec![("cols", n(5))])).unwrap_err().content, "Error: 'rows' argument required");
}

#[test]
fn wait_decisions() {
    let sec = 1_000_000_000u128;
    // Time is up only once the timeout is reached.
    assert!(expired_answer("t", &WaitKind::CommandComplete, 2 * sec - 1, 1, 2).is_none());
    let body = expired_answer("t", &WaitKind::Idle(3), 2 * sec, 2, 2).unwrap();
    assert_eq!(
        keys(&body),
        vec!["name", "wait_type", "status", "waited_seconds", "timeout_seconds", "required_idle_seconds"]
    );
    assert_eq!(txt(&body, "wait_type"), "idle");
    assert_eq!(txt(&body, "status"), "timeout");
    let body = expired_answer("t", &WaitKind::OutputContains("ok".to_string()), 5 * sec, 5, 5).unwrap();
    assert_eq!(txt(&body, "search_text"), "ok");

    let fresh = IdleWatch { last_hash: None, last_change: 0 };
    // A command wait.
    let kind = WaitKind::CommandComplete;
    assert!(matches!(after_poll("t", &kind, fresh, Observation::Running(Some(true)), 10, 0), WaitAction::Poll(w) if w == fresh));
    assert!(matches!(after_poll("t", &kind, fresh, Observation::Running(Some(false)), 10, 0), WaitAction::FetchExitCode));
    match after_poll("t", &kind, fresh, Observation::Running(None), 10, 0) {
        WaitAction::Fail(e) => assert_eq!(e.content, "Error: Terminal session 't' not found during wait"),
        _ => panic!("a gone session fails the wait"),
    }
    let done = command_done("t", 4, Some(-1));
    assert_eq!(keys(&done), vec!["name", "wait_type", "status", "waited_seconds", "exit_code"]);
    assert!(matches!(done.get("exit_code"), Some(Json::Number(JsonNumber::Negative(-1)))));
    assert!(matches!(command_done("t", 4, None).get("exit_code"), Some(Json::Null)));

    // An output wait.
    let kind = WaitKind::OutputContains("done".to_string());
    assert!(matches!(
        after_poll("t", &kind, fresh, Observation::Screen(Some("working".to_string())), 10, 0),
        WaitAction::Poll(_)
    ));
    match after_poll("t", &kind, fresh, Observation::Screen(Some("all done\n$".to_string())), 10, 7) {
        WaitAction::Answer(body) => {
            assert_eq!(txt(&body, "status"), "success");
            assert_eq!(txt(&body, "found_text"), "done");
            assert!(matches!(body.get("waited_seconds"), Some(Json::Number(JsonNumber::Unsigned(7)))));
        }
        _ => panic!("the text is on the screen"),
    }

    // An idle wait: the first read starts the quiet time, an unchanged screen
    // ends it once long enough.
    let kind = WaitKind::Idle(2);
    let watch = match after_poll("t", &kind, fresh, Observation::Screen(Some("$".to_string())), sec, 1) {
        WaitAction::Poll(w) => w,
        _ => panic!("the first read keeps waiting"),
    };
    assert_eq!(watch.last_change, sec);
    assert!(matches!(
        after_poll("t", &kind, watch, Observation::Screen(Some("$".to_string())), 2 * sec, 2),
        WaitAction::Poll(w) if w == watch
    ));
    match after_poll("t", &kind, watch, Observation::Screen(Some("$".to_string())), 3 * sec + 5, 3) {
        WaitAction::Answer(body) => {
            assert!(matches!(body.get("idle_seconds"), Some(Json::Number(JsonNumber::Unsigned(2)))));
            assert!(matches!(body.get("required_idle_seconds"), Some(Json::Number(JsonNumber::Unsigned(2)))));
        }
        _ => panic!("quiet for two seconds"),
    }
    match after_poll("t", &kind, watch, Observation::Screen(Some("$ ls".to_string())), 5 * sec, 5) {
        WaitAction::Poll(w) => assert_eq!(w.last_change, 5 * sec),
        _ => panic!("a change restarts the quiet time"),
    }
}
