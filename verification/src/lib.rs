//! Sandboxes for git worktrees: the rules, parsers and decisions behind the `sodagun` command line.

pub mod commands;
pub mod config;
pub mod context;
pub mod digest;
pub mod error;
pub mod git_access;
pub mod git_meta;
pub mod guest;
pub mod host;
pub mod ident;
pub mod laws;
pub mod network;
pub mod path;
pub mod project;
pub mod table;
pub mod text;
pub mod util;
pub mod values;
pub mod workspace;
