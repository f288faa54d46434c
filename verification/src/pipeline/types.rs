//! Pipeline data types.

pub mod chunk;
