//! KPS dataset conversion: configuration, schemas and writers.

pub mod config;
pub mod hdf5_schema;
pub mod hdf5_writer;
pub mod writers;
pub mod parquet_writer;
pub mod robot_calibration;
