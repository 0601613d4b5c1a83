//! The Kilo Code executor: how its command line is built, how its JSON output shows in the
//! log and becomes conversation entries, the decisions of the task that feeds it its prompt
//! and forwards its output, and the decisions of the WebSocket loops that stream execution
//! logs to clients.

pub mod text;
pub mod json;
pub mod command;
pub mod kilo;
pub mod logs;
pub mod forward;
pub mod routes;
