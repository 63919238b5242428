//! Verified core of a per-workspace session manager that talks a
//! newline-delimited JSON request/response/notification protocol to a spawned
//! `codex app-server` process.
//!
//! The library holds the logic that can be proved: the line codec (framing,
//! escaping, blank-line handling), inbound message classification and routing,
//! the per-session pending-request table and id generator, the handshake and
//! health-probe decision rules, and the PATH resolver for the spawned child.
//! Process spawning, pipe I/O and the async loops around them live outside the
//! library and only carry plain values in and out.

pub mod commands;
pub mod doctor;
pub mod handshake;
pub mod inbound;
pub mod protocol;
pub mod resolver;
pub mod session;
pub mod strings;
pub mod text;
