//! What the commands decide.

pub mod build_plan;
pub mod git;
pub mod launch;
pub mod launch_run;
pub mod sandbox;
pub mod snapshot;
pub mod start;
