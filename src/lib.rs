//! A terminal session multiplexer, verified: the JSON-RPC dispatcher's
//! decisions, the session lifecycle and registry, the OSC 7 / OSC 52 scanner,
//! the output pump's per-read decisions and the SSH transport's decisions,
//! each with a contract. Process I/O, pseudo-terminals and SSH connections are
//! driven by the binary around this library.

pub mod codec;
pub mod error;
pub mod osc;
pub mod protocol;
pub mod pump;
pub mod registry;
pub mod shell;
pub mod ssh;
pub mod status;
pub mod text;
pub mod urldecode;
