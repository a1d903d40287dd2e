//! Analyses of the 64-bit general-purpose instruction set.

pub mod data_flow;
pub mod evaluators;
