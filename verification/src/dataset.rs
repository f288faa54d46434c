//! Dataset formats and conversion.
//!
//! A dataset is written in one of two formats, KPS or LeRobot, each with
//! its own configuration; [`DatasetConfig`] holds either.

pub mod kps;
pub mod lerobot;
pub mod streaming;

use vstd::prelude::*;
use crate::errors::{is_parse_error, RoboflowError};
use crate::text::owned;
use crate::io::kps::config::{KpsConfig, OutputConfig};
use crate::dataset::lerobot::config::{LerobotConfig, VideoConfig};
use crate::dataset::kps::writers::{create_kps_writer, kps_writer_message, KpsWriterKind};

verus! {

/// Dataset output format.
#[derive(Debug, Clone, Copy, PartialEq, Eq, Structural)]
pub enum DatasetFormat {
    /// KPS format
    Kps,
    /// LeRobot format
    Lerobot,
}

/// Configuration of a dataset in either format.
#[derive(Debug, Clone)]
pub enum DatasetConfig {
    /// KPS configuration
    Kps(KpsConfig),
    /// LeRobot configuration
    Lerobot(LerobotConfig),
}

/// The writer to create for a dataset.
#[derive(Debug, Clone, PartialEq, Eq)]
pub enum DatasetWriterPlan {
    /// A KPS writer of the given kind.
    Kps { output_dir: String, kind: KpsWriterKind },
    /// A LeRobot writer in `output_dir`.
    Lerobot { output_dir: String },
}

impl DatasetConfig {
    /// A KPS dataset configuration.
    pub fn kps(config: KpsConfig) -> (r: Self)
        ensures
            r == DatasetConfig::Kps(config),
    {
        DatasetConfig::Kps(config)
    }

    /// A LeRobot dataset configuration.
    pub fn lerobot(config: LerobotConfig) -> (r: Self)
        ensures
            r == DatasetConfig::Lerobot(config),
    {
        DatasetConfig::Lerobot(config)
    }

    /// A configuration with the given name, fps and robot type, no
    /// mappings, and the format's default output settings (HDF5, raw
    /// images, no frame limit) or video settings (libx264, CRF 18, preset
    /// "fast", no profile).
    pub fn new(format: DatasetFormat, name: &str, fps: u32, robot_type: Option<String>) -> (r: Self)
        ensures
            r.format_spec() == format,
            r.name_spec() == name@,
            r.fps_spec() == fps,
            r.robot_type_spec() == robot_type,
            match r {
                DatasetConfig::Kps(c) => c.mappings@.len() == 0 && c.output.formats@ == seq![
                    crate::io::kps::config::OutputFormat::Hdf5,
                ] && c.output.image_format == crate::io::kps::config::ImageFormat::Raw
                    && c.output.max_frames is None,
                DatasetConfig::Lerobot(c) => c.mappings@.len() == 0 && c.dataset.env_type is None
                    && c.annotation_file is None && c.video.codec@ == "libx264"@ && c.video.crf
                    == 18 && c.video.preset@ == "fast"@ && c.video.profile is None,
            },
    {
        let name = owned(name);
        match format {
            DatasetFormat::Kps => DatasetConfig::Kps(
                KpsConfig {
                    dataset: crate::io::kps::config::DatasetConfig { name, fps, robot_type },
                    mappings: Vec::new(),
                    output: OutputConfig::default(),
                },
            ),
            DatasetFormat::Lerobot => DatasetConfig::Lerobot(
                LerobotConfig {
                    dataset: crate::dataset::lerobot::config::DatasetConfig {
                        name,
                        fps,
                        robot_type,
                        env_type: None,
                    },
                    mappings: Vec::new(),
                    video: VideoConfig::default(),
                    annotation_file: None,
                },
            ),
        }
    }

    pub open spec fn format_spec(&self) -> DatasetFormat {
        match self {
            DatasetConfig::Kps(_) => DatasetFormat::Kps,
            DatasetConfig::Lerobot(_) => DatasetFormat::Lerobot,
        }
    }

    pub open spec fn name_spec(&self) -> Seq<char> {
        match self {
            DatasetConfig::Kps(c) => c.dataset.name@,
            DatasetConfig::Lerobot(c) => c.dataset.name@,
        }
    }

    pub open spec fn fps_spec(&self) -> u32 {
        match self {
            DatasetConfig::Kps(c) => c.dataset.fps,
            DatasetConfig::Lerobot(c) => c.dataset.fps,
        }
    }

    pub open spec fn robot_type_spec(&self) -> Option<String> {
        match self {
            DatasetConfig::Kps(c) => c.dataset.robot_type,
            DatasetConfig::Lerobot(c) => c.dataset.robot_type,
        }
    }

    /// The dataset format.
    pub fn format(&self) -> (r: DatasetFormat)
        ensures
            r == self.format_spec(),
    {
        match self {
            DatasetConfig::Kps(_) => DatasetFormat::Kps,
            DatasetConfig::Lerobot(_) => DatasetFormat::Lerobot,
        }
    }

    /// The dataset name.
    pub fn name(&self) -> (r: &str)
        ensures
            r@ == self.name_spec(),
    {
        match self {
            DatasetConfig::Kps(c) => c.dataset.name.as_str(),
            DatasetConfig::Lerobot(c) => c.dataset.name.as_str(),
        }
    }

    /// Frames per second.
    pub fn fps(&self) -> (r: u32)
        ensures
            r == self.fps_spec(),
    {
        match self {
            DatasetConfig::Kps(c) => c.dataset.fps,
            DatasetConfig::Lerobot(c) => c.dataset.fps,
        }
    }

    /// The robot type, if set.
    pub fn robot_type(&self) -> (r: Option<&str>)
        ensures
            match (r, self.robot_type_spec()) {
                (Some(a), Some(b)) => a@ == b@,
                (None, None) => true,
                _ => false,
            },
    {
        let rt = match self {
            DatasetConfig::Kps(c) => &c.dataset.robot_type,
            DatasetConfig::Lerobot(c) => &c.dataset.robot_type,
        };
        match rt {
            Some(s) => Some(s.as_str()),
            None => None,
        }
    }

    /// The KPS configuration, if this is one.
    pub fn as_kps(&self) -> (r: Option<&KpsConfig>)
        ensures
            match self {
                DatasetConfig::Kps(c) => r == Some(c),
                DatasetConfig::Lerobot(_) => r is None,
            },
    {
        match self {
            DatasetConfig::Kps(c) => Some(c),
            _ => None,
        }
    }

    /// The LeRobot configuration, if this is one.
    pub fn as_lerobot(&self) -> (r: Option<&LerobotConfig>)
        ensures
            match self {
                DatasetConfig::Lerobot(c) => r == Some(c),
                DatasetConfig::Kps(_) => r is None,
            },
    {
        match self {
            DatasetConfig::Lerobot(c) => Some(c),
            _ => None,
        }
    }
}

/// The writer for `config` in `output_dir`: KPS writers come from
/// `create_kps_writer` (episode 0); a LeRobot writer is created there.
pub fn create_writer(output_dir: &str, config: &DatasetConfig) -> (r: Result<
    DatasetWriterPlan,
    RoboflowError,
>)
    ensures
        match config {
            DatasetConfig::Kps(c) => r matches Err(e) && is_parse_error(
                e,
                "DatasetWriter"@,
                kps_writer_message(c.output.formats@),
            ),
            DatasetConfig::Lerobot(_) => r matches Ok(DatasetWriterPlan::Lerobot { output_dir: d })
                && d@ == output_dir@,
        },
{
    match config {
        DatasetConfig::Kps(kps_config) => {
            match create_kps_writer(output_dir, 0, kps_config) {
                Ok(kind) => Ok(DatasetWriterPlan::Kps { output_dir: owned(output_dir), kind }),
                Err(e) => Err(e),
            }
        },
        DatasetConfig::Lerobot(_) => Ok(DatasetWriterPlan::Lerobot { output_dir: owned(output_dir) }),
    }
}

/// The writer for a dataset of `format` whose configuration is `config`;
/// the configuration must be of that format.
pub fn create_dataset_writer(format: DatasetFormat, output_dir: &str, config: &DatasetConfig) -> (r:
    Result<DatasetWriterPlan, RoboflowError>)
    ensures
        format == DatasetFormat::Kps && config.format_spec() != DatasetFormat::Kps ==> (r matches Err(
            e,
        ) && is_parse_error(e, "DatasetWriter"@, "Expected KpsConfig for KPS format"@)),
        format == DatasetFormat::Lerobot && config.format_spec() != DatasetFormat::Lerobot ==> (
        r matches Err(e) && is_parse_error(
            e,
            "DatasetWriter"@,
            "Expected LerobotConfig for LeRobot format"@,
        )),
        format == DatasetFormat::Kps ==> match config {
            DatasetConfig::Kps(c) => r matches Err(e) && is_parse_error(
                e,
                "DatasetWriter"@,
                kps_writer_message(c.output.formats@),
            ),
            DatasetConfig::Lerobot(_) => true,
        },
        format == DatasetFormat::Lerobot && config.format_spec() == DatasetFormat::Lerobot ==> (
        r matches Ok(DatasetWriterPlan::Lerobot { output_dir: d }) && d@ == output_dir@),
{
    match format {
        DatasetFormat::Kps => match config {
            DatasetConfig::Kps(_) => create_writer(output_dir, config),
            _ => Err(RoboflowError::parse("DatasetWriter", "Expected KpsConfig for KPS format")),
        },
        DatasetFormat::Lerobot => match config {
            DatasetConfig::Lerobot(_) => create_writer(output_dir, config),
            _ => Err(
                RoboflowError::parse("DatasetWriter", "Expected LerobotConfig for LeRobot format"),
            ),
        },
    }
}

} // verus!
