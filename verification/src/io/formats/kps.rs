//! KPS format support shared by the writers.

pub mod writers;
