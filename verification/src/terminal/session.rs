//! The messages of the request/response runner of a terminal session.
use vstd::prelude::*;

verus! {

/// Responses from the terminal runner thread.
#[derive(Debug)]
pub enum TerminalResponse {
    /// Output processed count
    OutputProcessed(usize),
    /// Terminal dimensions
    Size(u16, u16),
    /// Acknowledgment
    Ack,
    /// Error message
    Error(String),
}

/// Data sent from the PTY reader thread to be processed by the terminal.
#[derive(Debug)]
pub struct PtyOutput {
    pub data: Vec<u8>,
}

} // verus!
