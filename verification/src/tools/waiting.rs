//! The decisions of a wait on a terminal session. The caller polls the
//! session and reads the clock; these functions say, from what it saw, whether
//! the time is up, whether to poll again, and what to answer.
use vstd::prelude::*;

use crate::json::{member, text, Json};
use crate::text::{has_infix, str_contains};
use crate::tools::operations::{
    compute_hash, default_hash, exit_code_json, has_keys, idle_next, idle_step, is_string, member_at, number,
    number_json, reached, session_lost_while_waiting, wait_success_response, wait_timeout_response, whole_seconds,
    IdleStep, IdleWatch, WaitKind,
};
use crate::tools::ToolResult;

verus! {

/// The name of a wait's type.
pub open spec fn wait_type_name(kind: WaitKind) -> Seq<char> {
    match kind {
        WaitKind::CommandComplete => "command_complete"@,
        WaitKind::OutputContains(_) => "output_contains"@,
        WaitKind::Idle(_) => "idle"@,
    }
}

/// The name of a wait's type.
pub fn wait_type(kind: &WaitKind) -> (r: &'static str)
    ensures
        r@ == wait_type_name(*kind),
{
    match kind {
        WaitKind::CommandComplete => "command_complete",
        WaitKind::OutputContains(_) => "output_contains",
        WaitKind::Idle(_) => "idle",
    }
}

/// Whether `body` starts as every answer of a wait does: the session's name,
/// the wait type, the status and the seconds waited, followed by members
/// named `more`.
pub open spec fn is_wait_answer(
    body: Json,
    name: Seq<char>,
    kind: WaitKind,
    status: Seq<char>,
    waited: u64,
    more: Seq<Seq<char>>,
) -> bool {
    &&& has_keys(body, seq!["name"@, "wait_type"@, "status"@, "waited_seconds"@] + more)
    &&& is_string(member_at(body, 0), name)
    &&& is_string(member_at(body, 1), wait_type_name(kind))
    &&& is_string(member_at(body, 2), status)
    &&& member_at(body, 3) == number_json(waited)
}

/// Whether `body` is the answer of a wait that ran out of time: status
/// "timeout", the seconds allowed, and the searched text or the idle time
/// required when the wait has one.
pub open spec fn is_timeout_answer(body: Json, name: Seq<char>, kind: WaitKind, waited: u64, timeout: u64) -> bool {
    &&& member_at(body, 4) == number_json(timeout)
    &&& match kind {
        WaitKind::CommandComplete => is_wait_answer(body, name, kind, "timeout"@, waited, seq!["timeout_seconds"@]),
        WaitKind::OutputContains(t) => {
            &&& is_wait_answer(body, name, kind, "timeout"@, waited, seq!["timeout_seconds"@, "search_text"@])
            &&& is_string(member_at(body, 5), t@)
        },
        WaitKind::Idle(secs) => {
            &&& is_wait_answer(body, name, kind, "timeout"@, waited, seq!["timeout_seconds"@, "required_idle_seconds"@])
            &&& member_at(body, 5) == number_json(secs)
        },
    }
}

/// The answer of a wait whose time is up, once `elapsed_nanos` (nanoseconds
/// since it began) reaches `timeout_secs` seconds; `None` while there is time
/// left. `waited_secs` is the time waited as the answer reports it.
pub fn expired_answer(name: &str, kind: &WaitKind, elapsed_nanos: u128, waited_secs: u64, timeout_secs: u64) -> (r: Option<Json>)
    ensures
        (r is Some) == (elapsed_nanos >= timeout_secs * 1_000_000_000),
        r matches Some(body) ==> is_timeout_answer(body, name@, *kind, waited_secs, timeout_secs),
{
    if !reached(elapsed_nanos, timeout_secs) {
        return None;
    }
    proof {
        reveal_strlit("search_text");
        reveal_strlit("required_idle_seconds");
    }
    let extra = match kind {
        WaitKind::CommandComplete => None,
        WaitKind::OutputContains(t) => Some(member("search_text", text(t.as_str()))),
        WaitKind::Idle(secs) => Some(member("required_idle_seconds", number(*secs))),
    };
    let body = wait_timeout_response(name, wait_type(kind), waited_secs, timeout_secs, extra);
    proof {
        match kind {
            WaitKind::CommandComplete => {
                assert(seq!["name"@, "wait_type"@, "status"@, "waited_seconds"@, "timeout_seconds"@]
                    + Seq::<Seq<char>>::empty() =~= seq!["name"@, "wait_type"@, "status"@, "waited_seconds"@]
                    + seq!["timeout_seconds"@]);
            },
            WaitKind::OutputContains(t) => {
                assert(seq!["name"@, "wait_type"@, "status"@, "waited_seconds"@, "timeout_seconds"@] + seq![
                    "search_text"@,
                ] =~= seq!["name"@, "wait_type"@, "status"@, "waited_seconds"@] + seq![
                    "timeout_seconds"@,
                    "search_text"@,
                ]);
            },
            WaitKind::Idle(secs) => {
                assert(seq!["name"@, "wait_type"@, "status"@, "waited_seconds"@, "timeout_seconds"@] + seq![
                    "required_idle_seconds"@,
                ] =~= seq!["name"@, "wait_type"@, "status"@, "waited_seconds"@] + seq![
                    "timeout_seconds"@,
                    "required_idle_seconds"@,
                ]);
            },
        }
    }
    Some(body)
}

/// What one poll of the waited session found: whether its command is still
/// running, or its screen; `None` when the session is gone.
pub enum Observation {
    Running(Option<bool>),
    Screen(Option<String>),
}

/// Whether a poll observes what a wait of kind `kind` looks at: the
/// command's state for a command wait, the screen for the others.
pub open spec fn observes(kind: WaitKind, observation: Observation) -> bool {
    match kind {
        WaitKind::CommandComplete => observation is Running,
        _ => observation is Screen,
    }
}

/// What a wait does after a poll.
pub enum WaitAction {
    /// Pause, then poll again, remembering this.
    Poll(IdleWatch),
    /// The command finished: ask for its exit code, then answer with `command_done`.
    FetchExitCode,
    /// The condition holds: answer with this body.
    Answer(Json),
    /// Fail with this answer.
    Fail(ToolResult),
}

/// Whether `body` is the answer of an output wait that found its text.
pub open spec fn is_found_answer(body: Json, name: Seq<char>, kind: WaitKind, waited: u64, found: Seq<char>) -> bool {
    &&& is_wait_answer(body, name, kind, "success"@, waited, seq!["found_text"@])
    &&& is_string(member_at(body, 4), found)
}

/// Whether `body` is the answer of an idle wait whose screen stayed the same
/// for `quiet_nanos` nanoseconds, where `secs` seconds were required.
pub open spec fn is_idle_answer(body: Json, name: Seq<char>, kind: WaitKind, waited: u64, quiet_nanos: u128, secs: u64) -> bool {
    &&& is_wait_answer(body, name, kind, "success"@, waited, seq!["idle_seconds"@, "required_idle_seconds"@])
    &&& member_at(body, 4) == number_json((quiet_nanos / 1_000_000_000) as u64)
    &&& member_at(body, 5) == number_json(secs)
}

/// What a wait does after a poll at `now_nanos` (nanoseconds since it began)
/// found `observation`, with `watch` what an idle wait remembers and
/// `waited_secs` the time waited as an answer reports it. A gone session
/// fails the wait. A command wait asks for the exit code once the command is
/// no longer running; an output wait answers once the screen holds its text;
/// an idle wait follows `idle_next` on the screen's hash. Otherwise it polls
/// again.
pub fn after_poll(
    name: &str,
    kind: &WaitKind,
    watch: IdleWatch,
    observation: Observation,
    now_nanos: u128,
    waited_secs: u64,
) -> (r: WaitAction)
    requires
        observes(*kind, observation),
        watch.last_change <= now_nanos,
        now_nanos / 1_000_000_000 <= u64::MAX,
    ensures
        match observation {
            Observation::Running(None) | Observation::Screen(None) => r matches WaitAction::Fail(e) && e.is_error
                && e.content@ == "Error: Terminal session '"@ + name@ + "' not found during wait"@,
            Observation::Running(Some(running)) => if running {
                r == WaitAction::Poll(watch)
            } else {
                r is FetchExitCode
            },
            Observation::Screen(Some(screen)) => match *kind {
                WaitKind::OutputContains(t) => if has_infix(screen@, t@) {
                    r matches WaitAction::Answer(body) && is_found_answer(body, name@, *kind, waited_secs, t@)
                } else {
                    r == WaitAction::Poll(watch)
                },
                WaitKind::Idle(secs) => match idle_next(watch, default_hash(screen@), now_nanos, secs) {
                    IdleStep::Continue(next) => r == WaitAction::Poll(next),
                    IdleStep::Idle(quiet) => r matches WaitAction::Answer(body) && is_idle_answer(
                        body,
                        name@,
                        *kind,
                        waited_secs,
                        quiet,
                        secs,
                    ),
                },
                WaitKind::CommandComplete => false,
            },
        },
{
    match observation {
        Observation::Running(None) => WaitAction::Fail(session_lost_while_waiting(name)),
        Observation::Screen(None) => WaitAction::Fail(session_lost_while_waiting(name)),
        Observation::Running(Some(running)) => {
            if running {
                WaitAction::Poll(watch)
            } else {
                WaitAction::FetchExitCode
            }
        },
        Observation::Screen(Some(screen)) => {
            proof {
                reveal_strlit("found_text");
                reveal_strlit("idle_seconds");
                reveal_strlit("required_idle_seconds");
            }
            match kind {
                WaitKind::OutputContains(t) => {
                    if str_contains(screen.as_str(), t.as_str()) {
                        let body = wait_success_response(
                            name,
                            "output_contains",
                            waited_secs,
                            vec![member("found_text", text(t.as_str()))],
                        );
                        proof {
                            assert(seq!["name"@, "wait_type"@, "status"@, "waited_seconds"@] + seq!["found_text"@]
                                =~= seq!["name"@, "wait_type"@, "status"@, "waited_seconds"@, "found_text"@]);
                        }
                        WaitAction::Answer(body)
                    } else {
                        WaitAction::Poll(watch)
                    }
                },
                WaitKind::Idle(secs) => {
                    match idle_step(watch, compute_hash(screen.as_str()), now_nanos, *secs) {
                        IdleStep::Continue(next) => WaitAction::Poll(next),
                        IdleStep::Idle(quiet) => {
                            let quiet_secs = whole_seconds(quiet);
                            let body = wait_success_response(
                                name,
                                "idle",
                                waited_secs,
                                vec![member("idle_seconds", number(quiet_secs)), member("required_idle_seconds", number(*secs))],
                            );
                            WaitAction::Answer(body)
                        },
                    }
                },
                WaitKind::CommandComplete => WaitAction::Poll(watch),
            }
        },
    }
}

/// Whether `body` is the answer of a command wait whose command finished with
/// `exit_code` (`None` when the session does not know it).
pub open spec fn is_done_answer(body: Json, name: Seq<char>, waited: u64, exit_code: Option<i32>) -> bool {
    &&& is_wait_answer(body, name, WaitKind::CommandComplete, "success"@, waited, seq!["exit_code"@])
    &&& match exit_code {
        None => member_at(body, 4) is Null,
        Some(c) => if c >= 0 {
            member_at(body, 4) == Json::Number(crate::json::JsonNumber::Unsigned(c as u64))
        } else {
            member_at(body, 4) == Json::Number(crate::json::JsonNumber::Negative(c as i64))
        },
    }
}

/// The answer of a command wait whose command finished with `exit_code`.
pub fn command_done(name: &str, waited_secs: u64, exit_code: Option<i32>) -> (r: Json)
    ensures
        is_done_answer(r, name@, waited_secs, exit_code),
{
    proof {
        reveal_strlit("exit_code");
    }
    let body = wait_success_response(
        name,
        "command_complete",
        waited_secs,
        vec![member("exit_code", exit_code_json(exit_code))],
    );
    proof {
        assert(seq!["name"@, "wait_type"@, "status"@, "waited_seconds"@] + seq!["exit_code"@]
            =~= seq!["name"@, "wait_type"@, "status"@, "waited_seconds"@, "exit_code"@]);
    }
    body
}

} // verus!
