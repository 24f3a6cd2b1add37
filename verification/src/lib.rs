//! The decisions of a desktop command gateway.
//!
//! The gateway stands between a user interface and the host: it looks for a
//! local chat service, runs an agent script and the tools around it, and
//! forwards chat messages. This library holds what the gateway decides, and
//! leaves to its caller what only the host can do. Each operation comes in
//! two halves: one says what is to be done (which program to run with which
//! arguments, which request to post), the other says what the caller is told
//! once that has been tried.
//!
//! - `agent`, `tooling` and `chat` make the plans of the operations;
//! - `reply` and `chat` turn outcomes into answers;
//! - `process`, `report`, `status` and `error` hold the values that pass
//!   between the two halves;
//! - `text` trims and joins;
//! - `laws` states what holds of the operations whatever they are given.

pub mod agent;
pub mod chat;
pub mod error;
pub mod laws;
pub mod platform;
pub mod process;
pub mod reply;
pub mod report;
pub mod status;
pub mod text;
pub mod tooling;
