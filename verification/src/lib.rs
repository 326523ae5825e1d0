//! Bridge between Model Context Protocol clients and local FGP daemons, and the
//! health watchdog that supervises those daemons.
//!
//! The bridge (`bridge`, `catalog`, `invocation`, `rpc`, `tool_name`) turns
//! JSON-RPC requests into calls of daemon methods and the answers of the
//! daemons into responses. The watchdog (`monitor`) follows the state of each
//! service, tells the user of the changes that matter, and restarts crashed
//! services within a limit.
//!
//! Nothing in this crate opens a socket, starts a process or sleeps. Where the
//! outside world is needed, a function returns what is to be done, and is
//! told afterwards how it went; `daemon` holds the values that carry the
//! answers of the daemons in.

pub mod bridge;
pub mod catalog;
pub mod daemon;
pub mod invocation;
pub mod json;
pub mod monitor;
pub mod notifications;
pub mod paths;
pub mod report;
pub mod rpc;
pub mod text;
pub mod tool_name;
