//! Input formats.

pub mod kps;
pub mod sequential_mcap;
