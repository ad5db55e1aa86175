//! The service that the user interface talks to.

pub mod guards;
pub mod handlers;
pub mod protocol;
pub mod sanitizing;
pub mod server;
