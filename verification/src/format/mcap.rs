//! Reading MCAP files.

pub mod reader;
