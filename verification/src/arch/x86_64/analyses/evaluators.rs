//! Evaluators for the 64-bit general-purpose instruction set.

pub mod symbolizer;
