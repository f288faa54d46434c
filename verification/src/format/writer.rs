//! Writers for output file formats.

pub mod mcap;
