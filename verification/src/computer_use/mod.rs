//! The use of a desktop by its accessibility tree: snapshots of windows, the
//! actions on their elements, and a log of what was done.

pub mod actions;
pub mod context;
pub mod uia;
