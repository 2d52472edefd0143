//! The registry of named terminal sessions and their ownership.
//!
//! Each session is reached through a sender `C` to the thread that runs it. A
//! session is either free or checked out by one owner; only that owner may
//! operate it, and an owner that stays idle past the session's timeout loses it.
//! Times are instants on a monotonic clock, in nanoseconds.
use vstd::prelude::*;

use crate::terminal::runner::{CommandState, TerminalResponse};
use crate::text::{debug_option, debug_text, str_eq, string_views};

verus! {

/// Default idle time after which an owner loses a session: five minutes.
pub const DEFAULT_AUTO_UNOWN_TIMEOUT: u64 = 300_000_000_000;

/// What the registry knows of one session.
pub struct HandleState {
    pub name: Seq<char>,
    pub owner: Option<Seq<char>>,
    pub last_activity: u64,
    pub auto_unown_timeout: u64,
}

pub open spec fn string_opt(o: Option<String>) -> Option<Seq<char>> {
    match o {
        Some(s) => Some(s@),
        None => None,
    }
}

/// A session of the registry: its name, the sender that reaches its runner,
/// its owner if it is checked out, its last activity and its idle timeout.
pub struct TerminalHandle<C> {
    pub name: String,
    pub sender: C,
    pub owner: Option<String>,
    pub last_activity: u64,
    pub auto_unown_timeout: u64,
}

impl<C> View for TerminalHandle<C> {
    type V = HandleState;

    open spec fn view(&self) -> HandleState {
        HandleState {
            name: self.name@,
            owner: string_opt(self.owner),
            last_activity: self.last_activity,
            auto_unown_timeout: self.auto_unown_timeout,
        }
    }
}

/// Clones an optional string.
fn clone_opt(o: &Option<String>) -> (r: Option<String>)
    ensures
        string_opt(r) == string_opt(*o),
{
    match o {
        Some(s) => Some(s.clone()),
        None => None,
    }
}

/// Whether `owner` may check out a session with the current owner `current`.
pub open spec fn may_check_out(current: Option<Seq<char>>, owner: Seq<char>) -> bool {
    current is None || current == Some(owner)
}

/// Whether a session is owned and idle for longer than its timeout at `now`.
pub open spec fn idle_expired(h: HandleState, now: u64) -> bool {
    h.owner is Some && (if now >= h.last_activity { now - h.last_activity } else { 0 }) > h.auto_unown_timeout
}

impl<C> TerminalHandle<C> {
    /// A free session named `name` reached through `sender`, active at `now`,
    /// with the default timeout.
    pub fn new(name: String, sender: C, now: u64) -> (h: Self)
        ensures
            h@ == (HandleState {
                name: name@,
                owner: None,
                last_activity: now,
                auto_unown_timeout: DEFAULT_AUTO_UNOWN_TIMEOUT,
            }),
            h.sender == sender,
    {
        TerminalHandle {
            name,
            sender,
            owner: None,
            last_activity: now,
            auto_unown_timeout: DEFAULT_AUTO_UNOWN_TIMEOUT,
        }
    }

    /// Checks the session out for `owner`: succeeds when it is free or already
    /// owned by `owner` (and then records activity at `now`); fails, changing
    /// nothing, when another owner holds it.
    pub fn try_checkout(&mut self, owner: &str, now: u64) -> (ok: bool)
        ensures
            ok == may_check_out(old(self)@.owner, owner@),
            ok ==> final(self)@ == (HandleState {
                owner: Some(owner@),
                last_activity: now,
                ..old(self)@
            }),
            !ok ==> final(self)@ == old(self)@,
            final(self).sender == old(self).sender,
    {
        let may = match &self.owner {
            None => true,
            Some(existing) => str_eq(existing.as_str(), owner),
        };
        if may {
            self.owner = Some(String::from_str(owner));
            self.last_activity = now;
        }
        may
    }

    /// Releases the session when `owner` holds it; otherwise changes nothing.
    pub fn checkin(&mut self, owner: &str) -> (ok: bool)
        ensures
            ok == (old(self)@.owner == Some(owner@)),
            ok ==> final(self)@ == (HandleState { owner: None, ..old(self)@ }),
            !ok ==> final(self)@ == old(self)@,
            final(self).sender == old(self).sender,
    {
        let holds = match &self.owner {
            None => false,
            Some(existing) => str_eq(existing.as_str(), owner),
        };
        if holds {
            self.owner = None;
        }
        holds
    }

    /// The current owner, if any.
    pub fn get_owner(&self) -> (r: Option<String>)
        ensures
            string_opt(r) == self@.owner,
    {
        clone_opt(&self.owner)
    }

    /// Records activity at `now`.
    pub fn update_activity(&mut self, now: u64)
        ensures
            final(self)@ == (HandleState { last_activity: now, ..old(self)@ }),
            final(self).sender == old(self).sender,
    {
        self.last_activity = now;
    }

    /// The instant of the last activity.
    pub fn get_last_activity(&self) -> (r: u64)
        ensures
            r == self@.last_activity,
    {
        self.last_activity
    }

    /// Sets the idle time after which the owner loses the session.
    pub fn set_auto_unown_timeout(&mut self, timeout: u64)
        ensures
            final(self)@ == (HandleState { auto_unown_timeout: timeout, ..old(self)@ }),
            final(self).sender == old(self).sender,
    {
        self.auto_unown_timeout = timeout;
    }

    /// The idle time after which the owner loses the session.
    pub fn get_auto_unown_timeout(&self) -> (r: u64)
        ensures
            r == self@.auto_unown_timeout,
    {
        self.auto_unown_timeout
    }

    /// Whether the session is owned and has been idle longer than its timeout at `now`.
    pub fn should_auto_unown(&self, now: u64) -> (r: bool)
        ensures
            r == idle_expired(self@, now),
    {
        if self.owner.is_none() {
            return false;
        }
        now.saturating_sub(self.last_activity) > self.auto_unown_timeout
    }

    /// Releases the session whoever holds it, giving the previous owner.
    pub fn force_unown(&mut self) -> (prev: Option<String>)
        ensures
            string_opt(prev) == old(self)@.owner,
            final(self)@ == (HandleState { owner: None, ..old(self)@ }),
            final(self).sender == old(self).sender,
    {
        self.owner.take()
    }
}

/// Everything a listing shows of a terminal.
#[derive(Debug)]
pub struct TerminalInfo {
    /// Terminal session name
    pub name: String,
    /// Current owner thread ID (if checked out)
    pub owner: Option<String>,
    /// Current command execution state
    pub command_state: CommandState,
    /// Current command being executed (if running)
    pub current_command: Option<String>,
    /// Last exit code (if command completed)
    pub last_exit_code: Option<i32>,
    /// Terminal dimensions (cols, rows)
    pub size: (u16, u16),
    /// Whether terminal is in alternate screen mode
    pub is_alternate_screen: bool,
    /// Session age in seconds
    pub age_seconds: u64,
}

impl TerminalInfo {
    /// The listing entry of a terminal whose runner gave no information:
    /// idle, size 0x0, primary screen, age 0, and `note` in place of the command.
    pub fn unavailable(name: String, owner: Option<String>, note: String) -> (r: Self)
        ensures
            r.name@ == name@,
            string_opt(r.owner) == string_opt(owner),
            r.command_state == CommandState::Idle,
            string_opt(r.current_command) == Some(note@),
            r.last_exit_code is None,
            r.size == (0u16, 0u16),
            !r.is_alternate_screen,
            r.age_seconds == 0,
    {
        TerminalInfo {
            name,
            owner,
            command_state: CommandState::Idle,
            current_command: Some(note),
            last_exit_code: None,
            size: (0, 0),
            is_alternate_screen: false,
            age_seconds: 0,
        }
    }
}

/// The text of a listing entry whose runner answered with the error `e`.
pub open spec fn error_note(e: Seq<char>) -> Seq<char> {
    "[Error: "@ + e + "]"@
}

/// The listing entry of the terminal `name` held by `owner`, from what its
/// runner answered to an information request: `None` when the request could not
/// be sent, `Some(None)` when no answer came back.
pub fn listing_entry(name: String, owner: Option<String>, reply: Option<Option<TerminalResponse>>) -> (r: TerminalInfo)
    ensures
        r.name@ == name@,
        string_opt(r.owner) == string_opt(owner),
        match reply {
            Some(Some(TerminalResponse::TerminalInfo { command_state, current_command, last_exit_code, size, is_alternate_screen, age_seconds })) => {
                &&& r.command_state == command_state
                &&& string_opt(r.current_command) == string_opt(current_command)
                &&& r.last_exit_code == last_exit_code
                &&& r.size == size
                &&& r.is_alternate_screen == is_alternate_screen
                &&& r.age_seconds == age_seconds
            },
            _ => {
                &&& r.command_state == CommandState::Idle
                &&& r.last_exit_code is None
                &&& r.size == (0u16, 0u16)
                &&& !r.is_alternate_screen
                &&& r.age_seconds == 0
                &&& string_opt(r.current_command) == Some(
                    match reply {
                        None => "[Disconnected]"@,
                        Some(Some(TerminalResponse::Error(e))) => error_note(e@),
                        _ => "[Unknown state]"@,
                    },
                )
            },
        },
{
    match reply {
        Some(Some(TerminalResponse::TerminalInfo { command_state, current_command, last_exit_code, size, is_alternate_screen, age_seconds })) => {
            TerminalInfo { name, owner, command_state, current_command, last_exit_code, size, is_alternate_screen, age_seconds }
        },
        Some(Some(TerminalResponse::Error(e))) => {
            let mut note = String::from_str("[Error: ");
            note.append(e.as_str());
            note.append("]");
            proof {
                reveal_strlit("[Error: ");
                reveal_strlit("]");
            }
            TerminalInfo::unavailable(name, owner, note)
        },
        None => TerminalInfo::unavailable(name, owner, String::from_str("[Disconnected]")),
        _ => TerminalInfo::unavailable(name, owner, String::from_str("[Unknown state]")),
    }
}

/// The message of an answer of the wrong kind.
pub open spec fn unexpected_reply() -> Seq<char> {
    "Unexpected response"@
}

fn reply_error(reply: Option<TerminalResponse>) -> (r: String)
    ensures
        r@ == match reply {
            Some(TerminalResponse::Error(e)) => e@,
            _ => unexpected_reply(),
        },
{
    match reply {
        Some(TerminalResponse::Error(e)) => e,
        _ => String::from_str("Unexpected response"),
    }
}

/// The screen content of a read, from the runner's answer.
pub fn content_from_reply(reply: Option<TerminalResponse>) -> (r: Result<String, String>)
    ensures
        match r {
            Ok(c) => reply matches Some(TerminalResponse::Content(x)) && c@ == x@,
            Err(e) => !(reply matches Some(TerminalResponse::Content(_))) && e@ == match reply {
                Some(TerminalResponse::Error(m)) => m@,
                _ => unexpected_reply(),
            },
        },
{
    match reply {
        Some(TerminalResponse::Content(c)) => Ok(c),
        other => Err(reply_error(other)),
    }
}

/// The size (columns, rows) of a terminal, from the runner's answer.
pub fn size_from_reply(reply: Option<TerminalResponse>) -> (r: Result<(u16, u16), String>)
    ensures
        match r {
            Ok(v) => reply matches Some(TerminalResponse::Size(c, w)) && v == (c, w),
            Err(e) => !(reply matches Some(TerminalResponse::Size(_, _))) && e@ == match reply {
                Some(TerminalResponse::Error(m)) => m@,
                _ => unexpected_reply(),
            },
        },
{
    match reply {
        Some(TerminalResponse::Size(cols, rows)) => Ok((cols, rows)),
        other => Err(reply_error(other)),
    }
}

/// Whether a terminal shows its alternate screen, from the runner's answer.
pub fn alternate_screen_from_reply(reply: Option<TerminalResponse>) -> (r: Result<bool, String>)
    ensures
        match r {
            Ok(v) => reply matches Some(TerminalResponse::AlternateScreen(x)) && v == x,
            Err(e) => !(reply matches Some(TerminalResponse::AlternateScreen(_))) && e@ == match reply {
                Some(TerminalResponse::Error(m)) => m@,
                _ => unexpected_reply(),
            },
        },
{
    match reply {
        Some(TerminalResponse::AlternateScreen(is_alt)) => Ok(is_alt),
        other => Err(reply_error(other)),
    }
}

/// Where a terminal's command stands, from the runner's answer.
pub fn command_state_from_reply(reply: Option<TerminalResponse>) -> (r: Result<CommandState, String>)
    ensures
        match r {
            Ok(v) => reply matches Some(TerminalResponse::CommandState { state, .. }) && v == state,
            Err(e) => !(reply matches Some(TerminalResponse::CommandState { .. })) && e@ == match reply {
                Some(TerminalResponse::Error(m)) => m@,
                _ => unexpected_reply(),
            },
        },
{
    match reply {
        Some(TerminalResponse::CommandState { state, .. }) => Ok(state),
        other => Err(reply_error(other)),
    }
}

/// Whether a command runs in a terminal, from the runner's answer.
pub fn command_running_from_reply(reply: Option<TerminalResponse>) -> (r: Result<bool, String>)
    ensures
        match r {
            Ok(v) => reply matches Some(TerminalResponse::IsCommandRunning(x)) && v == x,
            Err(e) => !(reply matches Some(TerminalResponse::IsCommandRunning(_))) && e@ == match reply {
                Some(TerminalResponse::Error(m)) => m@,
                _ => unexpected_reply(),
            },
        },
{
    match reply {
        Some(TerminalResponse::IsCommandRunning(is_running)) => Ok(is_running),
        other => Err(reply_error(other)),
    }
}

/// The exit code of a terminal's last command, from the runner's answer.
pub fn last_exit_code_from_reply(reply: Option<TerminalResponse>) -> (r: Result<Option<i32>, String>)
    ensures
        match r {
            Ok(v) => reply matches Some(TerminalResponse::LastExitCode(x)) && v == x,
            Err(e) => !(reply matches Some(TerminalResponse::LastExitCode(_))) && e@ == match reply {
                Some(TerminalResponse::Error(m)) => m@,
                _ => unexpected_reply(),
            },
        },
{
    match reply {
        Some(TerminalResponse::LastExitCode(code)) => Ok(code),
        other => Err(reply_error(other)),
    }
}

/// Why a registry operation was refused.
#[derive(Debug)]
pub enum ManagerError {
    /// A checkout found the session held by another owner.
    AlreadyOwned { name: String, current_owner: Option<String> },
    /// An operation or a checkin came from someone who does not hold the session.
    NotOwned { name: String, owner: String, current_owner: Option<String> },
}

/// The message of a refusal, as users see it.
pub open spec fn manager_error_message(e: ManagerError) -> Seq<char> {
    match e {
        ManagerError::AlreadyOwned { name, current_owner } => "Terminal '"@ + name@ + "' is already owned by "@
            + debug_text(string_opt(current_owner)),
        ManagerError::NotOwned { name, owner, current_owner } => "Terminal '"@ + name@ + "' is not owned by '"@ + owner@
            + "' (current owner: "@ + debug_text(string_opt(current_owner)) + ")"@,
    }
}

impl ManagerError {
    /// The message of the refusal, as users see it.
    pub fn message(&self) -> (r: String)
        ensures
            r@ == manager_error_message(*self),
    {
        match self {
            ManagerError::AlreadyOwned { name, current_owner } => {
                let mut s = String::from_str("Terminal '");
                s.append(name.as_str());
                s.append("' is already owned by ");
                let d = debug_option(current_owner);
                s.append(d.as_str());
                s
            },
            ManagerError::NotOwned { name, owner, current_owner } => {
                let mut s = String::from_str("Terminal '");
                s.append(name.as_str());
                s.append("' is not owned by '");
                s.append(owner.as_str());
                s.append("' (current owner: ");
                let d = debug_option(current_owner);
                s.append(d.as_str());
                s.append(")");
                s
            },
        }
    }
}

/// The first index at or after `i` of a session named `name`, or the length.
pub open spec fn position_from(v: Seq<HandleState>, name: Seq<char>, i: int) -> int
    decreases v.len() - i,
{
    if i < 0 || i >= v.len() {
        v.len() as int
    } else if v[i].name == name {
        i
    } else {
        position_from(v, name, i + 1)
    }
}

/// The index of the session named `name`, or the length when there is none.
pub open spec fn position(v: Seq<HandleState>, name: Seq<char>) -> int {
    position_from(v, name, 0)
}

/// Whether a session named `name` exists.
pub open spec fn has_session(v: Seq<HandleState>, name: Seq<char>) -> bool {
    exists|i: int| 0 <= i < v.len() && #[trigger] v[i].name == name
}

/// The owner of the session named `name` (when it exists).
pub open spec fn owner_of(v: Seq<HandleState>, name: Seq<char>) -> Option<Seq<char>> {
    v[position(v, name)].owner
}

/// No two sessions share a name.
pub open spec fn distinct_names(v: Seq<HandleState>) -> bool {
    forall|i: int, j: int| 0 <= i < v.len() && 0 <= j < v.len() && i != j ==> #[trigger] v[i].name != #[trigger] v[j].name
}

/// The names of the sessions, in order.
pub open spec fn names_of(v: Seq<HandleState>) -> Seq<Seq<char>> {
    v.map_values(|h: HandleState| h.name)
}

/// The registry after adding `h`, which replaces a session of the same name.
pub open spec fn inserted(v: Seq<HandleState>, h: HandleState) -> Seq<HandleState> {
    if has_session(v, h.name) {
        v.update(position(v, h.name), h)
    } else {
        v.push(h)
    }
}

/// The registry after removing the session named `name`, if there is one.
pub open spec fn taken(v: Seq<HandleState>, name: Seq<char>) -> Seq<HandleState> {
    if has_session(v, name) {
        v.remove(position(v, name))
    } else {
        v
    }
}

/// The registry after checking out `name` for `owner` at `now`.
pub open spec fn checked_out(v: Seq<HandleState>, name: Seq<char>, owner: Seq<char>, now: u64) -> Seq<HandleState> {
    let p = position(v, name);
    if p < v.len() && may_check_out(v[p].owner, owner) {
        v.update(p, HandleState { owner: Some(owner), last_activity: now, ..v[p] })
    } else {
        v
    }
}

/// The registry after `owner` checks `name` in.
pub open spec fn checked_in(v: Seq<HandleState>, name: Seq<char>, owner: Seq<char>) -> Seq<HandleState> {
    let p = position(v, name);
    if p < v.len() && v[p].owner == Some(owner) {
        v.update(p, HandleState { owner: None, ..v[p] })
    } else {
        v
    }
}

/// A session released when `owner` holds it, else unchanged.
pub open spec fn released_if_owned(h: HandleState, owner: Seq<char>) -> HandleState {
    if h.owner == Some(owner) {
        HandleState { owner: None, ..h }
    } else {
        h
    }
}

/// A session released when its owner has been idle too long at `now`, else unchanged.
pub open spec fn released_if_expired(h: HandleState, now: u64) -> HandleState {
    if idle_expired(h, now) {
        HandleState { owner: None, ..h }
    } else {
        h
    }
}

/// The registry after every session that `owner` holds is released.
pub open spec fn released_all_owned(v: Seq<HandleState>, owner: Seq<char>) -> Seq<HandleState> {
    v.map_values(|h: HandleState| released_if_owned(h, owner))
}

/// The registry after every session idle past its timeout at `now` is released.
pub open spec fn released_all_expired(v: Seq<HandleState>, now: u64) -> Seq<HandleState> {
    v.map_values(|h: HandleState| released_if_expired(h, now))
}

pub proof fn lemma_position_from(v: Seq<HandleState>, name: Seq<char>, i: int)
    requires
        0 <= i <= v.len(),
    ensures
        i <= position_from(v, name, i) <= v.len(),
        position_from(v, name, i) < v.len() ==> v[position_from(v, name, i)].name == name,
        forall|k: int| i <= k < position_from(v, name, i) ==> #[trigger] v[k].name != name,
    decreases v.len() - i,
{
    if i < v.len() && v[i].name != name {
        lemma_position_from(v, name, i + 1);
    }
}

/// The position of a name is where the session of that name stands, and the
/// length exactly when there is none.
pub proof fn lemma_position(v: Seq<HandleState>, name: Seq<char>)
    ensures
        0 <= position(v, name) <= v.len(),
        position(v, name) < v.len() <==> has_session(v, name),
        position(v, name) < v.len() ==> v[position(v, name)].name == name,
        forall|k: int| 0 <= k < position(v, name) ==> #[trigger] v[k].name != name,
{
    lemma_position_from(v, name, 0);
    if has_session(v, name) {
        let k = choose|k: int| 0 <= k < v.len() && #[trigger] v[k].name == name;
        assert(v[k].name == name);
    }
}

/// The states of a list of sessions.
pub open spec fn views<C>(v: Seq<TerminalHandle<C>>) -> Seq<HandleState> {
    v.map_values(|h: TerminalHandle<C>| h@)
}

/// The views of the first strings of a list of pairs.
pub open spec fn first_views(v: Seq<(String, String)>) -> Seq<Seq<char>> {
    v.map_values(|p: (String, String)| p.0@)
}

/// The views of the second strings of a list of pairs.
pub open spec fn second_views(v: Seq<(String, String)>) -> Seq<Seq<char>> {
    v.map_values(|p: (String, String)| p.1@)
}

/// The owners of a list of sessions that are all held.
pub open spec fn owners_of(v: Seq<HandleState>) -> Seq<Seq<char>> {
    v.map_values(|h: HandleState| h.owner.unwrap())
}

/// Whether a session is held by `owner`.
pub open spec fn owned_by(owner: Seq<char>) -> spec_fn(HandleState) -> bool {
    |h: HandleState| h.owner == Some(owner)
}

/// Whether a session's owner has been idle past its timeout at `now`.
pub open spec fn expired_at(now: u64) -> spec_fn(HandleState) -> bool {
    |h: HandleState| idle_expired(h, now)
}

proof fn lemma_take_succ<A>(s: Seq<A>, i: int)
    requires
        0 <= i < s.len(),
    ensures
        s.take(i + 1) == s.take(i).push(s[i]),
{
    assert(s.take(i + 1) =~= s.take(i).push(s[i]));
}

proof fn lemma_map_push<A, B>(s: Seq<A>, x: A, f: spec_fn(A) -> B)
    ensures
        s.push(x).map_values(f) == s.map_values(f).push(f(x)),
{
    assert(s.push(x).map_values(f) =~= s.map_values(f).push(f(x)));
}

/// The index of the session named `name` in `sessions`, or their number.
fn find_in<C>(sessions: &Vec<TerminalHandle<C>>, name: &str) -> (i: usize)
    ensures
        i as int == position(views(sessions@), name@),
        i <= sessions@.len(),
{
    let ghost v = views(sessions@);
    let mut i: usize = 0;
    while i < sessions.len()
        invariant
            i <= sessions@.len(),
            v == views(sessions@),
            position(v, name@) == position_from(v, name@, i as int),
        decreases sessions.len() - i,
    {
        if str_eq(sessions[i].name.as_str(), name) {
            return i;
        }
        i = i + 1;
    }
    i
}

/// The senders of a list of sessions.
pub open spec fn senders_of<C>(v: Seq<TerminalHandle<C>>) -> Seq<C> {
    v.map_values(|h: TerminalHandle<C>| h.sender)
}

/// The registry of terminal sessions, each under a name of its own.
pub struct TerminalManager<C> {
    sessions: Vec<TerminalHandle<C>>,
}

impl<C> View for TerminalManager<C> {
    type V = Seq<HandleState>;

    closed spec fn view(&self) -> Seq<HandleState> {
        self.sessions@.map_values(|h: TerminalHandle<C>| h@)
    }
}

impl<C> TerminalManager<C> {
    #[verifier::type_invariant]
    spec fn inv(self) -> bool {
        distinct_names(self.sessions@.map_values(|h: TerminalHandle<C>| h@))
    }

    /// The senders of the sessions, in the order of the view.
    pub closed spec fn senders(&self) -> Seq<C> {
        senders_of(self.sessions@)
    }

    /// The sender of the session at `i`.
    pub closed spec fn sender_at(&self, i: int) -> C {
        self.senders()[i]
    }

    /// An empty registry.
    pub fn new() -> (m: Self)
        ensures
            m@ == Seq::<HandleState>::empty(),
            m.senders() == Seq::<C>::empty(),
    {
        let m = TerminalManager { sessions: Vec::new() };
        assert(m@ =~= Seq::<HandleState>::empty());
        assert(m.senders() =~= Seq::<C>::empty());
        m
    }

    /// The index of the session named `name`, or the number of sessions.
    fn find(&self, name: &str) -> (i: usize)
        ensures
            i as int == position(self@, name@),
            i <= self@.len(),
    {
        find_in(&self.sessions, name)
    }

    /// Whether a session named `name` exists.
    pub fn contains(&self, name: &str) -> (r: bool)
        ensures
            r == has_session(self@, name@),
    {
        proof {
            lemma_position(self@, name@);
        }
        self.find(name) < self.sessions.len()
    }

    /// The number of sessions.
    pub fn len(&self) -> (n: usize)
        ensures
            n == self@.len(),
    {
        self.sessions.len()
    }

    /// Whether there are no sessions.
    pub fn is_empty(&self) -> (r: bool)
        ensures
            r == (self@.len() == 0),
    {
        self.sessions.len() == 0
    }

    /// The names of all sessions.
    pub fn list_names(&self) -> (names: Vec<String>)
        ensures
            string_views(names@) == names_of(self@),
    {
        let mut names: Vec<String> = Vec::new();
        let mut i: usize = 0;
        while i < self.sessions.len()
            invariant
                i <= self.sessions@.len(),
                self@ == self.sessions@.map_values(|h: TerminalHandle<C>| h@),
                string_views(names@) == names_of(self@).take(i as int),
            decreases self.sessions.len() - i,
        {
            let ghost before = names@;
            let n = self.sessions[i].name.clone();
            names.push(n);
            proof {
                lemma_take_succ(names_of(self@), i as int);
                lemma_map_push(before, n, |s: String| s@);
            }
            i = i + 1;
        }
        assert(names_of(self@).take(i as int) =~= names_of(self@));
        names
    }

    /// Adds a session, replacing one of the same name. Gives whether one was replaced.
    pub fn insert(&mut self, handle: TerminalHandle<C>) -> (existed: bool)
        ensures
            existed == has_session(old(self)@, handle@.name),
            final(self)@ == inserted(old(self)@, handle@),
            final(self).senders() == if existed {
                old(self).senders().update(position(old(self)@, handle@.name), handle.sender)
            } else {
                old(self).senders().push(handle.sender)
            },
    {
        proof {
            use_type_invariant(&*self);
        }
        let ghost start = self@;
        let ghost start_senders = self.senders();
        let mut sessions: Vec<TerminalHandle<C>> = Vec::new();
        std::mem::swap(&mut sessions, &mut self.sessions);
        assert(views(sessions@) == start);
        let ghost hv = handle@;
        let ghost hs = handle.sender;
        proof {
            lemma_position(start, hv.name);
        }
        let i = find_in(&sessions, handle.name.as_str());
        let existed = i < sessions.len();
        if existed {
            sessions.set(i, handle);
            assert(views(sessions@) =~= start.update(i as int, hv));
            assert(senders_of(sessions@) =~= start_senders.update(i as int, hs));
        } else {
            sessions.push(handle);
            assert(views(sessions@) =~= start.push(hv));
            assert(senders_of(sessions@) =~= start_senders.push(hs));
        }
        self.sessions = sessions;
        existed
    }

    /// Removes the session named `name` and gives it, if it exists.
    pub fn take(&mut self, name: &str) -> (r: Option<TerminalHandle<C>>)
        ensures
            r is Some == has_session(old(self)@, name@),
            r matches Some(h) ==> h@ == old(self)@[position(old(self)@, name@)],
            r matches Some(h) ==> h.sender == old(self).senders()[position(old(self)@, name@)],
            final(self)@ == taken(old(self)@, name@),
            final(self).senders() == if r is Some {
                old(self).senders().remove(position(old(self)@, name@))
            } else {
                old(self).senders()
            },
    {
        proof {
            use_type_invariant(&*self);
        }
        let ghost start = self@;
        let ghost start_senders = self.senders();
        let mut sessions: Vec<TerminalHandle<C>> = Vec::new();
        std::mem::swap(&mut sessions, &mut self.sessions);
        assert(views(sessions@) == start);
        proof {
            lemma_position(start, name@);
        }
        let i = find_in(&sessions, name);
        let r = if i < sessions.len() {
            let h = sessions.remove(i);
            assert(views(sessions@) =~= start.remove(i as int));
            assert(senders_of(sessions@) =~= start_senders.remove(i as int));
            Some(h)
        } else {
            None
        };
        self.sessions = sessions;
        r
    }

    /// Removes the session named `name` and gives it, if it exists.
    pub fn remove(&mut self, name: &str) -> (r: Option<TerminalHandle<C>>)
        ensures
            r is Some == has_session(old(self)@, name@),
            r matches Some(h) ==> h@ == old(self)@[position(old(self)@, name@)],
            r matches Some(h) ==> h.sender == old(self).senders()[position(old(self)@, name@)],
            final(self)@ == taken(old(self)@, name@),
            final(self).senders() == if r is Some {
                old(self).senders().remove(position(old(self)@, name@))
            } else {
                old(self).senders()
            },
    {
        self.take(name)
    }

    /// Checks the session `name` out for `owner` at `now`: `Ok(true)` when it was
    /// free or already `owner`'s, `Ok(false)` when there is no such session, and
    /// the already-owned error, changing nothing, when another owner holds it.
    pub fn checkout_terminal(&mut self, name: &str, owner: String, now: u64) -> (r: Result<bool, ManagerError>)
        ensures
            final(self).senders() == old(self).senders(),
            final(self)@ == checked_out(old(self)@, name@, owner@, now),
            !has_session(old(self)@, name@) ==> r matches Ok(false),
            has_session(old(self)@, name@) && may_check_out(owner_of(old(self)@, name@), owner@) ==> r matches Ok(true),
            has_session(old(self)@, name@) && !may_check_out(owner_of(old(self)@, name@), owner@) ==> (r matches Err(
                ManagerError::AlreadyOwned { name: n, current_owner: c },
            ) && n@ == name@ && string_opt(c) == owner_of(old(self)@, name@)),
    {
        proof {
            use_type_invariant(&*self);
        }
        let ghost start = self@;
        let ghost start_senders = self.senders();
        let mut sessions: Vec<TerminalHandle<C>> = Vec::new();
        std::mem::swap(&mut sessions, &mut self.sessions);
        assert(views(sessions@) == start);
        proof {
            lemma_position(start, name@);
        }
        let i = find_in(&sessions, name);
        if i >= sessions.len() {
            self.sessions = sessions;
            return Ok(false);
        }
        let ok = sessions[i].try_checkout(owner.as_str(), now);
        assert(views(sessions@) =~= start.update(i as int, sessions@[i as int]@));
        assert(senders_of(sessions@) =~= start_senders);
        self.sessions = sessions;
        if ok {
            Ok(true)
        } else {
            Err(ManagerError::AlreadyOwned { name: String::from_str(name), current_owner: self.sessions[i].get_owner() })
        }
    }

    /// `owner` checks the session `name` in: `Ok(true)` when `owner` held it (it
    /// is now free), `Ok(false)` when there is no such session, and the
    /// not-owned error, changing nothing, otherwise.
    pub fn checkin_terminal(&mut self, name: &str, owner: &str) -> (r: Result<bool, ManagerError>)
        ensures
            final(self).senders() == old(self).senders(),
            final(self)@ == checked_in(old(self)@, name@, owner@),
            !has_session(old(self)@, name@) ==> r matches Ok(false),
            has_session(old(self)@, name@) && owner_of(old(self)@, name@) == Some(owner@) ==> r matches Ok(true),
            has_session(old(self)@, name@) && owner_of(old(self)@, name@) != Some(owner@) ==> (r matches Err(
                ManagerError::NotOwned { name: n, owner: o, current_owner: c },
            ) && n@ == name@ && o@ == owner@ && string_opt(c) == owner_of(old(self)@, name@)),
    {
        proof {
            use_type_invariant(&*self);
        }
        let ghost start = self@;
        let ghost start_senders = self.senders();
        let mut sessions: Vec<TerminalHandle<C>> = Vec::new();
        std::mem::swap(&mut sessions, &mut self.sessions);
        assert(views(sessions@) == start);
        proof {
            lemma_position(start, name@);
        }
        let i = find_in(&sessions, name);
        if i >= sessions.len() {
            self.sessions = sessions;
            return Ok(false);
        }
        let ok = sessions[i].checkin(owner);
        assert(views(sessions@) =~= start.update(i as int, sessions@[i as int]@));
        assert(senders_of(sessions@) =~= start_senders);
        self.sessions = sessions;
        if ok {
            Ok(true)
        } else {
            Err(
                ManagerError::NotOwned {
                    name: String::from_str(name),
                    owner: String::from_str(owner),
                    current_owner: self.sessions[i].get_owner(),
                },
            )
        }
    }

    /// The sender of the session `name` for an operation by `owner`: `Ok(None)`
    /// when there is no such session, the not-owned error when `owner` does not
    /// hold it, else the sender. The registry is unchanged.
    pub fn owned_sender(&self, name: &str, owner: &str) -> (r: Result<Option<&C>, ManagerError>)
        ensures
            !has_session(self@, name@) ==> r matches Ok(None),
            has_session(self@, name@) && owner_of(self@, name@) == Some(owner@) ==> (r matches Ok(Some(c)) && *c
                == self.sender_at(position(self@, name@))),
            has_session(self@, name@) && owner_of(self@, name@) != Some(owner@) ==> (r matches Err(
                ManagerError::NotOwned { name: n, owner: o, current_owner: cur },
            ) && n@ == name@ && o@ == owner@ && string_opt(cur) == owner_of(self@, name@)),
    {
        proof {
            lemma_position(self@, name@);
        }
        let i = self.find(name);
        if i >= self.sessions.len() {
            return Ok(None);
        }
        let current = self.sessions[i].get_owner();
        let holds = match &current {
            Some(existing) => str_eq(existing.as_str(), owner),
            None => false,
        };
        if holds {
            Ok(Some(&self.sessions[i].sender))
        } else {
            Err(ManagerError::NotOwned { name: String::from_str(name), owner: String::from_str(owner), current_owner: current })
        }
    }

    /// Sets the idle timeout of the session `name`. Gives whether it exists.
    pub fn set_terminal_timeout(&mut self, name: &str, timeout: u64) -> (r: bool)
        ensures
            final(self).senders() == old(self).senders(),
            r == has_session(old(self)@, name@),
            r ==> final(self)@ == old(self)@.update(
                position(old(self)@, name@),
                HandleState { auto_unown_timeout: timeout, ..old(self)@[position(old(self)@, name@)] },
            ),
            !r ==> final(self)@ == old(self)@,
    {
        proof {
            use_type_invariant(&*self);
        }
        let ghost start = self@;
        let ghost start_senders = self.senders();
        let mut sessions: Vec<TerminalHandle<C>> = Vec::new();
        std::mem::swap(&mut sessions, &mut self.sessions);
        assert(views(sessions@) == start);
        proof {
            lemma_position(start, name@);
        }
        let i = find_in(&sessions, name);
        if i >= sessions.len() {
            self.sessions = sessions;
            return false;
        }
        sessions[i].set_auto_unown_timeout(timeout);
        assert(views(sessions@) =~= start.update(i as int, sessions@[i as int]@));
        assert(senders_of(sessions@) =~= start_senders);
        self.sessions = sessions;
        true
    }

    /// Releases the session `name` whoever holds it, giving the previous owner.
    pub fn force_unown_terminal(&mut self, name: &str) -> (prev: Option<String>)
        ensures
            has_session(old(self)@, name@) ==> string_opt(prev) == owner_of(old(self)@, name@) && final(self)@
                == old(self)@.update(
                position(old(self)@, name@),
                HandleState { owner: None, ..old(self)@[position(old(self)@, name@)] },
            ),
            !has_session(old(self)@, name@) ==> prev is None && final(self)@ == old(self)@,
            final(self).senders() == old(self).senders(),
    {
        proof {
            use_type_invariant(&*self);
        }
        let ghost start = self@;
        let ghost start_senders = self.senders();
        let mut sessions: Vec<TerminalHandle<C>> = Vec::new();
        std::mem::swap(&mut sessions, &mut self.sessions);
        assert(views(sessions@) == start);
        proof {
            lemma_position(start, name@);
        }
        let i = find_in(&sessions, name);
        if i >= sessions.len() {
            self.sessions = sessions;
            return None;
        }
        let prev = sessions[i].force_unown();
        assert(views(sessions@) =~= start.update(i as int, sessions@[i as int]@));
        assert(senders_of(sessions@) =~= start_senders);
        self.sessions = sessions;
        prev
    }

    /// Checks in every session that `owner` holds; gives their names in order.
    pub fn checkin_all_by_owner(&mut self, owner: &str) -> (names: Vec<String>)
        ensures
            final(self).senders() == old(self).senders(),
            final(self)@ == released_all_owned(old(self)@, owner@),
            string_views(names@) == names_of(old(self)@.filter(owned_by(owner@))),
    {
        proof {
            use_type_invariant(&*self);
        }
        let ghost start = self@;
        let ghost start_senders = self.senders();
        let mut sessions: Vec<TerminalHandle<C>> = Vec::new();
        std::mem::swap(&mut sessions, &mut self.sessions);
        assert(views(sessions@) == start);
        let mut names: Vec<String> = Vec::new();
        let mut i: usize = 0;
        while i < sessions.len()
            invariant
                i <= sessions@.len(),
                start.len() == sessions@.len(),
                forall|k: int| 0 <= k < i ==> #[trigger] sessions@[k]@ == released_if_owned(start[k], owner@),
                forall|k: int| i <= k < start.len() ==> #[trigger] sessions@[k]@ == start[k],
                start_senders.len() == sessions@.len(),
                forall|k: int| 0 <= k < sessions@.len() ==> #[trigger] sessions@[k].sender == start_senders[k],
                string_views(names@) == names_of(start.take(i as int).filter(owned_by(owner@))),
            decreases sessions.len() - i,
        {
            let ghost before = sessions@;
            let ghost names_before = names@;
            let released = sessions[i].checkin(owner);
            if released {
                let n = sessions[i].name.clone();
                names.push(n);
                proof {
                    lemma_map_push(names_before, n, |s: String| s@);
                    lemma_map_push(start.take(i as int).filter(owned_by(owner@)), start[i as int], |h: HandleState| h.name);
                }
            }
            proof {
                lemma_take_succ(start, i as int);
                start.take(i as int).lemma_filter_push(start[i as int], owned_by(owner@));
                assert forall|k: int| 0 <= k < i + 1 implies #[trigger] sessions@[k]@ == released_if_owned(start[k], owner@) by {
                    if k < i {
                        assert(sessions@[k] == before[k]);
                    }
                }
            }
            i = i + 1;
        }
        proof {
            assert(views(sessions@) =~= released_all_owned(start, owner@));
            assert(senders_of(sessions@) =~= start_senders);
            assert(start.take(i as int) =~= start);
        }
        proof {
            assert(forall|k: int| 0 <= k < views(sessions@).len() ==> #[trigger] views(sessions@)[k].name == start[k].name);
        }
        self.sessions = sessions;
        names
    }

    /// The names of the sessions that `owner` holds, in order.
    pub fn find_terminals_by_owner(&self, owner: &str) -> (names: Vec<String>)
        ensures
            string_views(names@) == names_of(self@.filter(owned_by(owner@))),
    {
        let ghost v = self@;
        let mut names: Vec<String> = Vec::new();
        let mut i: usize = 0;
        while i < self.sessions.len()
            invariant
                i <= self.sessions@.len(),
                v == self.sessions@.map_values(|h: TerminalHandle<C>| h@),
                string_views(names@) == names_of(v.take(i as int).filter(owned_by(owner@))),
            decreases self.sessions.len() - i,
        {
            let owned = match &self.sessions[i].owner {
                Some(current) => str_eq(current.as_str(), owner),
                None => false,
            };
            let ghost names_before = names@;
            if owned {
                let n = self.sessions[i].name.clone();
                names.push(n);
                proof {
                    lemma_map_push(names_before, n, |s: String| s@);
                    lemma_map_push(v.take(i as int).filter(owned_by(owner@)), v[i as int], |h: HandleState| h.name);
                }
            }
            proof {
                lemma_take_succ(v, i as int);
                v.take(i as int).lemma_filter_push(v[i as int], owned_by(owner@));
            }
            i = i + 1;
        }
        assert(v.take(i as int) =~= v);
        names
    }

    /// Releases every session whose owner has been idle past its timeout at
    /// `now`; gives the names of those sessions with their previous owners.
    pub fn check_auto_unown(&mut self, now: u64) -> (released: Vec<(String, String)>)
        ensures
            final(self).senders() == old(self).senders(),
            final(self)@ == released_all_expired(old(self)@, now),
            first_views(released@) == names_of(old(self)@.filter(expired_at(now))),
            second_views(released@) == owners_of(old(self)@.filter(expired_at(now))),
    {
        proof {
            use_type_invariant(&*self);
        }
        let ghost start = self@;
        let ghost start_senders = self.senders();
        let mut sessions: Vec<TerminalHandle<C>> = Vec::new();
        std::mem::swap(&mut sessions, &mut self.sessions);
        assert(views(sessions@) == start);
        let mut released: Vec<(String, String)> = Vec::new();
        let mut i: usize = 0;
        while i < sessions.len()
            invariant
                i <= sessions@.len(),
                start.len() == sessions@.len(),
                forall|k: int| 0 <= k < i ==> #[trigger] sessions@[k]@ == released_if_expired(start[k], now),
                forall|k: int| i <= k < start.len() ==> #[trigger] sessions@[k]@ == start[k],
                start_senders.len() == sessions@.len(),
                forall|k: int| 0 <= k < sessions@.len() ==> #[trigger] sessions@[k].sender == start_senders[k],
                first_views(released@) == names_of(start.take(i as int).filter(expired_at(now))),
                second_views(released@) == owners_of(start.take(i as int).filter(expired_at(now))),
            decreases sessions.len() - i,
        {
            let ghost before = sessions@;
            let ghost released_before = released@;
            if sessions[i].should_auto_unown(now) {
                let prev = sessions[i].force_unown();
                match prev {
                    Some(p) => {
                        let entry = (sessions[i].name.clone(), p);
                        released.push(entry);
                        proof {
                            lemma_map_push(released_before, entry, |p: (String, String)| p.0@);
                            lemma_map_push(start.take(i as int).filter(expired_at(now)), start[i as int], |h: HandleState| h.name);
                            lemma_map_push(released_before, entry, |p: (String, String)| p.1@);
                            lemma_map_push(start.take(i as int).filter(expired_at(now)), start[i as int], |h: HandleState| h.owner.unwrap());
                        }
                    },
                    None => {},
                }
            }
            proof {
                lemma_take_succ(start, i as int);
                start.take(i as int).lemma_filter_push(start[i as int], expired_at(now));
                assert forall|k: int| 0 <= k < i + 1 implies #[trigger] sessions@[k]@ == released_if_expired(start[k], now) by {
                    if k < i {
                        assert(sessions@[k] == before[k]);
                    }
                }
            }
            i = i + 1;
        }
        proof {
            assert(views(sessions@) =~= released_all_expired(start, now));
            assert(senders_of(sessions@) =~= start_senders);
            assert(start.take(i as int) =~= start);
        }
        proof {
            assert(forall|k: int| 0 <= k < views(sessions@).len() ==> #[trigger] views(sessions@)[k].name == start[k].name);
        }
        self.sessions = sessions;
        released
    }

    /// The sessions, in order, for the operations that reach every runner.
    pub fn handles(&self) -> (r: &Vec<TerminalHandle<C>>)
        ensures
            r@.map_values(|h: TerminalHandle<C>| h@) == self@,
    {
        &self.sessions
    }
}

/// The position of a name depends only on the names of the sessions.
proof fn lemma_position_same_names(v: Seq<HandleState>, w: Seq<HandleState>, name: Seq<char>, i: int)
    requires
        v.len() == w.len(),
        0 <= i <= v.len(),
        forall|k: int| 0 <= k < v.len() ==> #[trigger] v[k].name == w[k].name,
    ensures
        position_from(v, name, i) == position_from(w, name, i),
    decreases v.len() - i,
{
    if i < v.len() {
        assert(v[i].name == w[i].name);
        lemma_position_same_names(v, w, name, i + 1);
    }
}

/// Changing a session without renaming it keeps every position and name.
proof fn lemma_update_keeps_names(v: Seq<HandleState>, p: int, h: HandleState, name: Seq<char>)
    requires
        0 <= p < v.len(),
        h.name == v[p].name,
    ensures
        position(v.update(p, h), name) == position(v, name),
        has_session(v.update(p, h), name) == has_session(v, name),
        names_of(v.update(p, h)) == names_of(v),
{
    let w = v.update(p, h);
    assert forall|k: int| 0 <= k < v.len() implies #[trigger] v[k].name == w[k].name by {}
    lemma_position_same_names(v, w, name, 0);
    lemma_position(v, name);
    lemma_position(w, name);
    assert(names_of(w) =~= names_of(v));
}

/// A session held by one owner is refused to every other owner: neither a
/// checkout nor a checkin by someone else changes anything.
pub proof fn law_ownership_is_exclusive(v: Seq<HandleState>, name: Seq<char>, holder: Seq<char>, other: Seq<char>, now: u64)
    requires
        has_session(v, name),
        owner_of(v, name) == Some(holder),
        other != holder,
    ensures
        !may_check_out(owner_of(v, name), other),
        checked_out(v, name, other, now) == v,
        checked_in(v, name, other) == v,
{
    lemma_position(v, name);
}

/// A checkout that is allowed makes its caller the owner, records the
/// activity, and keeps the names of all sessions.
pub proof fn law_checkout_grants(v: Seq<HandleState>, name: Seq<char>, owner: Seq<char>, now: u64)
    requires
        has_session(v, name),
        may_check_out(owner_of(v, name), owner),
    ensures
        has_session(checked_out(v, name, owner, now), name),
        owner_of(checked_out(v, name, owner, now), name) == Some(owner),
        checked_out(v, name, owner, now)[position(v, name)].last_activity == now,
        names_of(checked_out(v, name, owner, now)) == names_of(v),
{
    lemma_position(v, name);
    let p = position(v, name);
    lemma_update_keeps_names(v, p, HandleState { owner: Some(owner), last_activity: now, ..v[p] }, name);
}

/// The owner's checkin frees the session, so that any owner may check it out
/// next; the names of all sessions are kept.
pub proof fn law_checkin_frees(v: Seq<HandleState>, name: Seq<char>, owner: Seq<char>, next: Seq<char>)
    requires
        has_session(v, name),
        owner_of(v, name) == Some(owner),
    ensures
        has_session(checked_in(v, name, owner), name),
        owner_of(checked_in(v, name, owner), name) is None,
        may_check_out(owner_of(checked_in(v, name, owner), name), next),
        names_of(checked_in(v, name, owner)) == names_of(v),
{
    lemma_position(v, name);
    let p = position(v, name);
    lemma_update_keeps_names(v, p, HandleState { owner: None, ..v[p] }, name);
}

/// Checking a session out and back in leaves it free for the next owner, with
/// every other session untouched.
pub proof fn law_checkout_checkin_round_trip(
    v: Seq<HandleState>,
    name: Seq<char>,
    owner: Seq<char>,
    next: Seq<char>,
    now: u64,
)
    requires
        has_session(v, name),
        may_check_out(owner_of(v, name), owner),
    ensures
        owner_of(checked_in(checked_out(v, name, owner, now), name, owner), name) is None,
        may_check_out(owner_of(checked_in(checked_out(v, name, owner, now), name, owner), name), next),
        forall|k: int|
            0 <= k < v.len() && k != position(v, name) ==> #[trigger] checked_in(checked_out(v, name, owner, now), name, owner)[k]
                == v[k],
        checked_in(checked_out(v, name, owner, now), name, owner).len() == v.len(),
{
    law_checkout_grants(v, name, owner, now);
    let w = checked_out(v, name, owner, now);
    lemma_position(v, name);
    let p = position(v, name);
    lemma_update_keeps_names(v, p, HandleState { owner: Some(owner), last_activity: now, ..v[p] }, name);
    law_checkin_frees(w, name, owner, next);
}

/// After all of an owner's sessions are checked in, that owner holds none,
/// and every session it did not hold is unchanged.
pub proof fn law_checkin_all_releases_owner(v: Seq<HandleState>, owner: Seq<char>)
    ensures
        forall|k: int|
            0 <= k < v.len() ==> #[trigger] released_all_owned(v, owner)[k].owner != Some(owner),
        forall|k: int|
            0 <= k < v.len() && v[k].owner != Some(owner) ==> #[trigger] released_all_owned(v, owner)[k]
                == v[k],
        names_of(released_all_owned(v, owner)) == names_of(v),
{
    let w = released_all_owned(v, owner);
    assert(names_of(w) =~= names_of(v));
}

/// After the idle check at `now`, no session is held past its timeout, and a
/// session whose owner was not idle too long is unchanged.
pub proof fn law_auto_unown_leaves_none_expired(v: Seq<HandleState>, now: u64)
    ensures
        forall|k: int|
            0 <= k < v.len() ==> !idle_expired(#[trigger] released_all_expired(v, now)[k], now),
        forall|k: int|
            0 <= k < v.len() && !idle_expired(v[k], now) ==> #[trigger] released_all_expired(v, now)[k]
                == v[k],
        names_of(released_all_expired(v, now)) == names_of(v),
{
    let w = released_all_expired(v, now);
    assert(names_of(w) =~= names_of(v));
}

/// An added session can be found under its name, as it was added, and the
/// names stay distinct.
pub proof fn law_insert_then_found(v: Seq<HandleState>, h: HandleState)
    requires
        distinct_names(v),
    ensures
        has_session(inserted(v, h), h.name),
        inserted(v, h)[position(inserted(v, h), h.name)] == h,
        distinct_names(inserted(v, h)),
{
    lemma_position(v, h.name);
    let w = inserted(v, h);
    if has_session(v, h.name) {
        lemma_update_keeps_names(v, position(v, h.name), h, h.name);
    } else {
        assert(w[v.len() as int].name == h.name);
    }
    lemma_position(w, h.name);
}

proof fn lemma_remove_has(v: Seq<HandleState>, p: int, other: Seq<char>)
    requires
        0 <= p < v.len(),
        v[p].name != other,
    ensures
        has_session(v.remove(p), other) == has_session(v, other),
{
    let w = v.remove(p);
    if has_session(v, other) {
        let k = choose|k: int| 0 <= k < v.len() && #[trigger] v[k].name == other;
        if k < p {
            assert(w[k].name == other);
        } else {
            assert(w[k - 1].name == other);
        }
    }
    if has_session(w, other) {
        let k = choose|k: int| 0 <= k < w.len() && #[trigger] w[k].name == other;
        if k < p {
            assert(v[k].name == other);
        } else {
            assert(v[k + 1].name == other);
        }
    }
}

proof fn lemma_remove_distinct(v: Seq<HandleState>, p: int)
    requires
        0 <= p < v.len(),
        distinct_names(v),
    ensures
        distinct_names(v.remove(p)),
        !has_session(v.remove(p), v[p].name),
{
    let w = v.remove(p);
    assert forall|i: int, j: int| 0 <= i < w.len() && 0 <= j < w.len() && i != j implies #[trigger] w[i].name
        != #[trigger] w[j].name by {
        let vi = if i < p { i } else { i + 1 };
        let vj = if j < p { j } else { j + 1 };
        assert(w[i] == v[vi]);
        assert(w[j] == v[vj]);
    }
    if has_session(w, v[p].name) {
        let k = choose|k: int| 0 <= k < w.len() && #[trigger] w[k].name == v[p].name;
        let vk = if k < p { k } else { k + 1 };
        assert(w[k] == v[vk]);
    }
}

/// A removed session can no longer be found, and the others stay.
pub proof fn law_take_then_absent(v: Seq<HandleState>, name: Seq<char>, other: Seq<char>)
    requires
        distinct_names(v),
        other != name,
    ensures
        !has_session(taken(v, name), name),
        distinct_names(taken(v, name)),
        has_session(taken(v, name), other) == has_session(v, other),
{
    lemma_position(v, name);
    if has_session(v, name) {
        let p = position(v, name);
        lemma_remove_has(v, p, other);
        lemma_remove_distinct(v, p);
    }
}

} // verus!
