//! KPS dataset writers.
//!
//! This build has neither the Parquet nor the HDF5 writer; the factory
//! reports which one a configuration asks for.

pub mod parquet;
pub mod v12_hdf5;

use vstd::prelude::*;
use crate::errors::{is_parse_error, RoboflowError};
use crate::io::kps::config::{KpsConfig, OutputFormat};

verus! {

/// A KPS writer implementation.
#[derive(Debug, Clone, Copy, PartialEq, Eq, Structural)]
pub enum KpsWriterKind {
    /// Streaming Parquet writer
    Parquet,
    /// Streaming HDF5 writer
    Hdf5,
}

/// The writer a list of output formats asks for: Parquet when none is
/// listed or Parquet is listed, else HDF5 when it is listed.
pub open spec fn requested_writer(formats: Seq<OutputFormat>) -> Option<KpsWriterKind> {
    if formats.len() == 0 || formats.contains(OutputFormat::Parquet) {
        Some(KpsWriterKind::Parquet)
    } else if formats.contains(OutputFormat::Hdf5) {
        Some(KpsWriterKind::Hdf5)
    } else {
        None
    }
}

fn contains_format(formats: &Vec<OutputFormat>, f: OutputFormat) -> (r: bool)
    ensures
        r == formats@.contains(f),
{
    let mut i: usize = 0;
    while i < formats.len()
        invariant
            0 <= i <= formats@.len(),
            forall|k: int| 0 <= k < i ==> formats@[k] != f,
        decreases formats.len() - i,
    {
        if formats[i] == f {
            return true;
        }
        i = i + 1;
    }
    false
}

/// The writer that `config` asks for, if any.
pub fn requested_kps_writer(config: &KpsConfig) -> (r: Option<KpsWriterKind>)
    ensures
        r == requested_writer(config.output.formats@),
{
    let formats = &config.output.formats;
    if formats.len() == 0 || contains_format(formats, OutputFormat::Parquet) {
        Some(KpsWriterKind::Parquet)
    } else if contains_format(formats, OutputFormat::Hdf5) {
        Some(KpsWriterKind::Hdf5)
    } else {
        None
    }
}

/// Why a KPS writer for the output `formats` cannot be created: the writer
/// they ask for is not built in, or they name no valid format.
pub open spec fn kps_writer_message(formats: Seq<OutputFormat>) -> Seq<char> {
    match requested_writer(formats) {
        Some(KpsWriterKind::Parquet) => "Parquet support not enabled. Add feature 'dataset-parquet' to Cargo.toml"@,
        Some(KpsWriterKind::Hdf5) => "HDF5 support not enabled. Add feature 'dataset-hdf5' to Cargo.toml"@,
        None => "No valid output format specified"@,
    }
}

/// Create a KPS dataset writer for `config` in `output_dir`.
///
/// The writer is chosen from the configured output formats (Parquet is
/// preferred); neither writer is built in, so the error says which one
/// was asked for, or that no valid format was given.
pub fn create_kps_writer(output_dir: &str, episode_id: usize, config: &KpsConfig) -> (r: Result<
    KpsWriterKind,
    RoboflowError,
>)
    ensures
        r matches Err(e) && is_parse_error(e, "DatasetWriter"@, kps_writer_message(config.output.formats@)),
{
    match requested_kps_writer(config) {
        Some(KpsWriterKind::Parquet) => Err(
            RoboflowError::parse(
                "DatasetWriter",
                "Parquet support not enabled. Add feature 'dataset-parquet' to Cargo.toml",
            ),
        ),
        Some(KpsWriterKind::Hdf5) => Err(
            RoboflowError::parse(
                "DatasetWriter",
                "HDF5 support not enabled. Add feature 'dataset-hdf5' to Cargo.toml",
            ),
        ),
        None => Err(RoboflowError::parse("DatasetWriter", "No valid output format specified")),
    }
}

} // verus!
