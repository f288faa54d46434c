//! Roboflow: conversion of robotics recordings (MCAP, bag) into trainable
//! datasets, with the file-format writers, dataset schemas, configuration
//! handling and fault-tolerance state machines verified with Verus.

pub mod bytes;
pub mod clock;
pub mod codec;
pub mod compression;
pub mod dataset;
pub mod distributed;
pub mod errors;
pub mod format;
pub mod io;
pub mod keyed;
pub mod pipeline;
pub mod select;
pub mod text;

pub use codec::CodecValue;
