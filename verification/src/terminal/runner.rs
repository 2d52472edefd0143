//! The messages that a terminal runner answers with.
use vstd::prelude::*;

verus! {

/// Where a terminal's current command stands.
#[derive(PartialEq, Eq, Structural, Clone, Copy, Debug)]
pub enum CommandState {
    Idle,
    Running,
    Completed,
}

/// Responses from the terminal runner thread.
#[derive(Debug)]
pub enum TerminalResponse {
    /// Terminal content as string
    Content(String),
    /// Terminal dimensions
    Size(u16, u16),
    /// Alternate screen status (true = alternate screen, false = primary screen)
    AlternateScreen(bool),
    /// Where the current command stands, with the last exit code
    CommandState { state: CommandState, exit_code: Option<i32> },
    /// Whether a command is running
    IsCommandRunning(bool),
    /// The exit code of the last completed command
    LastExitCode(Option<i32>),
    /// Everything a listing shows of a terminal
    TerminalInfo {
        command_state: CommandState,
        current_command: Option<String>,
        last_exit_code: Option<i32>,
        size: (u16, u16),
        is_alternate_screen: bool,
        age_seconds: u64,
    },
    /// Acknowledgment
    Ack,
    /// Error message
    Error(String),
}

/// Data sent from the PTY reader thread to be processed by the terminal.
#[derive(Debug)]
pub struct PtyOutput {
    pub data: Vec<u8>,
}

/// The name of a command state as listings show it.
pub open spec fn state_name(state: CommandState) -> Seq<char> {
    match state {
        CommandState::Idle => "idle"@,
        CommandState::Running => "running"@,
        CommandState::Completed => "completed"@,
    }
}

/// The name of a command state as listings show it.
pub fn command_state_name(state: CommandState) -> (r: &'static str)
    ensures
        r@ == state_name(state),
{
    match state {
        CommandState::Idle => "idle",
        CommandState::Running => "running",
        CommandState::Completed => "completed",
    }
}

} // verus!
