//! Chats: what a conversation keeps, how a prompt is put together, and how a
//! reply is taken in.

pub mod answers;
pub mod coder;
pub mod context;
pub mod course;
pub mod edits;
pub mod execute;
pub mod files;
pub mod grep;
pub mod modes;
pub mod outline;
pub mod patch;
pub mod prompt;
pub mod search;
pub mod session;
pub mod stream;
pub mod team;
pub mod team_tools;
pub mod turns;
