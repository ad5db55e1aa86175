//! The handlers of requests.

pub mod admin;
pub mod chat;
pub mod conversations;
pub mod git;
pub mod memory;
pub mod plugins;
pub mod scheduler;
pub mod tool_dispatch;
pub mod tool_table;
pub mod tools;
