//! KPS writers: audio files and original-message HDF5 files.

pub mod audio_writer;
pub mod original_hdf5;
