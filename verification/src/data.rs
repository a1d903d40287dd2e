//! Descriptions of the data that analysed programs work on.

pub mod types;
