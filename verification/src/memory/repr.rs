//! Representations of memory and the cursors that read from them.

pub mod cursor;
pub mod flat;
pub mod process;
