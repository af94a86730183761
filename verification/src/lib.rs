//! Core of an interactive command-line chat agent: the conversation /
//! tool-use orchestration loop, the streaming-response decoder, and the
//! incremental markdown renderer, together with the message data model.
//!
//! All I/O (terminal, transport, tool execution) lives outside this crate;
//! the library receives the outcomes of those effects as plain values and
//! decides, with verified logic, what happens next.

pub mod codegen_status;
pub mod context_add;
pub mod decoder;
pub mod dispatcher;
pub mod driver;
pub mod message;
pub mod metric;
pub mod prompt;
pub mod renderer;
pub mod session_laws;
pub mod text;
