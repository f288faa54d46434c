//! Input and output: readers, writers and their configuration.

pub mod formats;
pub mod kps;
pub mod channel_iterator;
pub mod writer;
