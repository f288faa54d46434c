//! Kps conversion configuration.
//!
//! The configuration is read from TOML: a `[dataset]` table, `[[mappings]]`
//! from topics to features, and an optional `[output]` table.

use vstd::prelude::*;
use crate::select::{derefs, last_per_key, last_per_key_refs, select, select_refs};
use crate::text::str_eq;

verus! {

/// Kps conversion configuration.
#[derive(Debug, Clone)]
pub struct KpsConfig {
    /// Dataset metadata
    pub dataset: DatasetConfig,
    /// Topic to feature mappings
    pub mappings: Vec<Mapping>,
    /// Output format options
    pub output: OutputConfig,
}

/// Dataset metadata.
#[derive(Debug, Clone)]
pub struct DatasetConfig {
    /// Dataset name
    pub name: String,
    /// Frames per second
    pub fps: u32,
    /// Robot type
    pub robot_type: Option<String>,
}

/// Mapping from a topic to a feature.
#[derive(Debug)]
pub struct Mapping {
    /// Source topic
    pub topic: String,
    /// Target feature name
    pub feature: String,
    /// What the topic carries
    pub mapping_type: MappingType,
}

impl Clone for Mapping {
    fn clone(&self) -> (r: Self)
        ensures
            r == *self,
    {
        Mapping {
            topic: self.topic.clone(),
            feature: self.feature.clone(),
            mapping_type: self.mapping_type,
        }
    }
}

/// What a mapped topic carries.
#[derive(Debug, Clone, Copy, PartialEq, Eq, Structural)]
pub enum MappingType {
    /// Image data
    Image,
    /// State data (the default)
    State,
    /// Action data
    Action,
    /// Timestamp data
    Timestamp,
    /// Other sensor data (IMU, force, ...)
    OtherSensor,
    /// Audio data
    Audio,
}

impl Default for MappingType {
    /// Mappings carry state unless said otherwise.
    fn default() -> (r: Self)
        ensures
            r == MappingType::State,
    {
        MappingType::State
    }
}

/// Output format options.
#[derive(Debug, Clone)]
pub struct OutputConfig {
    /// Output formats to write
    pub formats: Vec<OutputFormat>,
    /// How images are stored
    pub image_format: ImageFormat,
    /// Optional limit on the number of frames
    pub max_frames: Option<usize>,
}

impl Default for OutputConfig {
    /// HDF5 output, raw images, no frame limit.
    fn default() -> (r: Self)
        ensures
            r.formats@ == seq![OutputFormat::Hdf5],
            r.image_format == ImageFormat::Raw,
            r.max_frames is None,
    {
        OutputConfig {
            formats: vec![OutputFormat::Hdf5],
            image_format: ImageFormat::Raw,
            max_frames: None,
        }
    }
}

/// Dataset output format.
#[derive(Debug, Clone, Copy, PartialEq, Eq, Structural)]
pub enum OutputFormat {
    /// HDF5 files
    Hdf5,
    /// Parquet files
    Parquet,
}

/// Image storage format.
#[derive(Debug, Clone, Copy, PartialEq, Eq, Structural)]
pub enum ImageFormat {
    /// MP4 video
    Mp4,
    /// Raw frames
    Raw,
}

/// A mapping's topic.
pub open spec fn topic_of(m: Mapping) -> Seq<char> {
    m.topic@
}

/// An image mapping.
pub open spec fn is_image(m: Mapping) -> bool {
    m.mapping_type == MappingType::Image
}

/// A state-like mapping: state, action or other sensor data.
pub open spec fn is_state_like(m: Mapping) -> bool {
    m.mapping_type == MappingType::State || m.mapping_type == MappingType::Action
        || m.mapping_type == MappingType::OtherSensor
}

fn same_topic(a: &Mapping, b: &Mapping) -> (e: bool)
    ensures
        e == (a.topic@ == b.topic@),
{
    str_eq(a.topic.as_str(), b.topic.as_str())
}

fn image_mapping(m: &Mapping) -> (b: bool)
    ensures
        b == is_image(*m),
{
    m.mapping_type == MappingType::Image
}

fn state_like_mapping(m: &Mapping) -> (b: bool)
    ensures
        b == is_state_like(*m),
{
    m.mapping_type == MappingType::State || m.mapping_type == MappingType::Action
        || m.mapping_type == MappingType::OtherSensor
}

impl KpsConfig {
    /// The mappings keyed by topic: for each topic the last mapping that
    /// names it, in the order of those mappings.
    pub fn mappings_by_topic(&self) -> (r: Vec<Mapping>)
        ensures
            r@ == last_per_key(self.mappings@, |m: Mapping| topic_of(m)),
    {
        let refs = last_per_key_refs(&self.mappings, same_topic, Ghost(|m: Mapping| topic_of(m)));
        let mut out: Vec<Mapping> = Vec::new();
        let mut i: usize = 0;
        while i < refs.len()
            invariant
                0 <= i <= refs@.len(),
                out@ == derefs(refs@).take(i as int),
            decreases refs.len() - i,
        {
            out.push(refs[i].clone());
            assert(out@ =~= derefs(refs@).take(i + 1));
            i = i + 1;
        }
        assert(derefs(refs@).take(refs@.len() as int) =~= derefs(refs@));
        out
    }

    /// The image mappings, in order.
    pub fn image_mappings(&self) -> (r: Vec<&Mapping>)
        ensures
            derefs(r@) == select(self.mappings@, |m: Mapping| is_image(m)),
    {
        select_refs(&self.mappings, image_mapping, Ghost(|m: Mapping| is_image(m)))
    }

    /// The state, action and other sensor mappings, in order.
    pub fn state_mappings(&self) -> (r: Vec<&Mapping>)
        ensures
            derefs(r@) == select(self.mappings@, |m: Mapping| is_state_like(m)),
    {
        select_refs(&self.mappings, state_like_mapping, Ghost(|m: Mapping| is_state_like(m)))
    }
}

} // verus!
