//! Terminal sessions: the messages of a session's runner and the registry of
//! sessions with their ownership.
pub mod manager;
pub mod runner;
pub mod screen;
pub mod session;
