//! What the library promises as a whole: laws that relate what goes into an operation to what
//! comes out of it.

pub mod git_in_guest;
pub mod host_values;
pub mod images;
pub mod launching;
pub mod layering;
pub mod listing;
pub mod loading;
pub mod networking;
pub mod paths;
pub mod records;
pub mod running;
pub mod runtime;
pub mod snapshots;
pub mod starting;
pub mod tables;
pub mod texts;
pub mod volumes;
pub mod worktrees;
