//! The terminal tools: argument handling and the computations behind them.
pub mod operations;
pub mod terminal;
pub mod terminal_close;
pub mod terminal_create;
pub mod terminal_read;
pub mod terminal_resize;
pub mod terminal_send;
pub mod waiting;

use vstd::prelude::*;

verus! {

/// The answer of a tool: a text and whether it reports a failure.
#[derive(Debug)]
pub struct ToolResult {
    pub content: String,
    pub is_error: bool,
}

/// A failed tool answer carrying `message`.
pub fn tool_error(message: String) -> (r: ToolResult)
    ensures
        r.content@ == message@,
        r.is_error,
{
    ToolResult { content: message, is_error: true }
}

} // verus!
