//! LeRobot output: dataset metadata and the HDF5 episode writer.

pub mod hdf5_writer;
pub mod info;
