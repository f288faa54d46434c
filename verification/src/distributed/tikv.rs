//! TiKV client support.

pub mod circuit;
pub mod config;
pub mod error;
