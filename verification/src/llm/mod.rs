//! The language model: its wire types and the decisions of its client.

pub mod cheap_model;
pub mod client;
pub mod orchestrator;
pub mod schema;
pub mod types;
