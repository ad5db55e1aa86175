//! Rook: the daemon behind a desktop assistant. It answers chats with a language
//! model, lets the model call tools, remembers what it is told in a graph, and
//! indexes the files that are worked on.
//!
//! This is what it decides. What it reads and writes, and whom it asks, is left
//! to its caller: a function here takes what was read and gives what is to be
//! done, step by step where one thing follows from another.

pub mod computer_use;
pub mod error_log;
pub mod indexer;
pub mod ipc;
pub mod json;
pub mod laws;
pub mod links;
pub mod llm;
pub mod order;
pub mod outside;
pub mod stamps;
pub mod startup;
pub mod strmap;
pub mod text;
