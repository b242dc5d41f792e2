//! Core logic of an interactive terminal chat client: the conversation
//! store, the streaming-session state machine, the incremental markdown
//! flush detector, the raw-keystroke input buffer and the slash-command
//! dispatcher. Network transport, terminal I/O and rendering live outside
//! this crate and talk to it through plain values.

pub mod chunk;
pub mod command;
pub mod decode;
pub mod session;
pub mod store;
pub mod terminal;
