//! Network policies: from configuration to the policy that a sandbox enforces.

pub mod flag;
pub mod policy;
pub mod rule;
pub mod sdk;
