//! Evaluators: analyses that run instruction by instruction.

pub mod const_evaluator;
