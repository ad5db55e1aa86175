//! What is noted of files, pages, windows and tasks, so that they are found
//! again.

pub mod browser_indexer;
pub mod file_indexer;
pub mod indexing;
pub mod notes;
pub mod structure;
pub mod task_tracker;
pub mod ui_indexer;
