//! Output writing strategies.

pub mod write_strategy;
