//! File formats: MCAP constants, the byte layout of MCAP records, and the
//! MCAP writer.

pub mod lerobot;
pub mod mcap;
pub mod mcap_constants;
pub mod mcap_records;
pub mod writer;
