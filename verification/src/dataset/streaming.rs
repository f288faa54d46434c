//! Streaming conversion with a bounded memory footprint.

pub mod config;
pub mod backpressure;
pub mod converter;
