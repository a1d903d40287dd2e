//! Architecture-independent analyses.

pub mod control_flow;
pub mod evaluators;
pub mod static_single_assignment;
pub mod xrefs;
