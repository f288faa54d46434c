//! Data types shared with the processing pipeline.

pub mod types;
