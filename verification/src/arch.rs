//! What analyses know of single architectures.

pub mod pic17;
pub mod x86_64;
