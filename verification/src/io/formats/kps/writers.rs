//! Types shared by the KPS writers.

pub mod base;
