//! Configuration of LeRobot dataset conversion.
//!
//! The configuration is read from TOML: a `[dataset]` table (name, fps,
//! optional robot and environment types), `[[mappings]]` from topics to
//! features, an optional `[video]` table and an optional annotation file.

use vstd::prelude::*;
use crate::select::{derefs, last_per_key, last_per_key_refs, select, select_refs};
use crate::text::{has_prefix, owned, starts_with_str, str_eq};

verus! {

/// LeRobot dataset configuration.
#[derive(Debug, Clone)]
pub struct LerobotConfig {
    /// Dataset metadata
    pub dataset: DatasetConfig,
    /// Topic to feature mappings
    pub mappings: Vec<Mapping>,
    /// Video encoding settings
    pub video: VideoConfig,
    /// Optional annotation file path
    pub annotation_file: Option<String>,
}

/// Dataset metadata.
#[derive(Debug, Clone)]
pub struct DatasetConfig {
    /// Dataset name
    pub name: String,
    /// Frames per second
    pub fps: u32,
    /// Robot type
    pub robot_type: Option<String>,
    /// Environment type
    pub env_type: Option<String>,
}

/// Mapping from a topic to a feature.
#[derive(Debug)]
pub struct Mapping {
    /// Source topic
    pub topic: String,
    /// Target feature name (e.g. "observation.images.cam_high")
    pub feature: String,
    /// What the topic carries
    pub mapping_type: MappingType,
}

/// What a mapped topic carries.
#[derive(Debug, Clone, Copy, PartialEq, Eq, Structural)]
pub enum MappingType {
    /// Image data
    Image,
    /// State data (the default)
    State,
    /// Action data
    Action,
    /// Timestamp data
    Timestamp,
}

impl Default for MappingType {
    /// Mappings carry state unless said otherwise.
    fn default() -> (r: Self)
        ensures
            r == MappingType::State,
    {
        MappingType::State
    }
}

/// Video encoding settings.
#[derive(Debug, Clone)]
pub struct VideoConfig {
    /// Codec (default "libx264")
    pub codec: String,
    /// Constant rate factor (default 18)
    pub crf: u32,
    /// Encoder preset (default "fast")
    pub preset: String,
    /// Optional named encoding profile
    pub profile: Option<String>,
}

impl Default for VideoConfig {
    /// libx264, CRF 18, preset "fast", no profile.
    fn default() -> (r: Self)
        ensures
            r.codec@ == "libx264"@,
            r.crf == 18,
            r.preset@ == "fast"@,
            r.profile is None,
    {
        VideoConfig {
            codec: owned("libx264"),
            crf: 18,
            preset: owned("fast"),
            profile: None,
        }
    }
}

impl Clone for Mapping {
    fn clone(&self) -> (r: Self)
        ensures
            r == *self,
    {
        Mapping {
            topic: self.topic.clone(),
            feature: self.feature.clone(),
            mapping_type: self.mapping_type,
        }
    }
}

/// A mapping's topic.
pub open spec fn topic_of(m: Mapping) -> Seq<char> {
    m.topic@
}

/// A camera feature: its name starts with `observation.images.`.
pub open spec fn is_camera(m: Mapping) -> bool {
    has_prefix(m.feature@, "observation.images."@)
}

/// The state feature `observation.state`.
pub open spec fn is_state(m: Mapping) -> bool {
    m.feature@ == "observation.state"@
}

/// An action feature: its name starts with `action.`.
pub open spec fn is_action(m: Mapping) -> bool {
    has_prefix(m.feature@, "action."@)
}

fn same_topic(a: &Mapping, b: &Mapping) -> (e: bool)
    ensures
        e == (a.topic@ == b.topic@),
{
    str_eq(a.topic.as_str(), b.topic.as_str())
}

fn camera_mapping(m: &Mapping) -> (b: bool)
    ensures
        b == is_camera(*m),
{
    starts_with_str(m.feature.as_str(), "observation.images.")
}

fn state_mapping(m: &Mapping) -> (b: bool)
    ensures
        b == is_state(*m),
{
    str_eq(m.feature.as_str(), "observation.state")
}

fn action_mapping(m: &Mapping) -> (b: bool)
    ensures
        b == is_action(*m),
{
    starts_with_str(m.feature.as_str(), "action.")
}

impl LerobotConfig {
    /// The mappings keyed by topic: for each topic the last mapping that
    /// names it, in the order of those mappings.
    pub fn mappings_by_topic(&self) -> (r: Vec<Mapping>)
        ensures
            r@ == last_per_key(self.mappings@, |m: Mapping| topic_of(m)),
    {
        let refs = last_per_key_refs(
            &self.mappings,
            same_topic,
            Ghost(|m: Mapping| topic_of(m)),
        );
        let mut out: Vec<Mapping> = Vec::new();
        let mut i: usize = 0;
        while i < refs.len()
            invariant
                0 <= i <= refs@.len(),
                out@ == derefs(refs@).take(i as int),
            decreases refs.len() - i,
        {
            out.push(refs[i].clone());
            assert(out@ =~= derefs(refs@).take(i + 1));
            i = i + 1;
        }
        assert(derefs(refs@).take(refs@.len() as int) =~= derefs(refs@));
        out
    }

    /// The camera mappings (features under `observation.images.`), in order.
    pub fn camera_mappings(&self) -> (r: Vec<&Mapping>)
        ensures
            derefs(r@) == select(self.mappings@, |m: Mapping| is_camera(m)),
    {
        select_refs(
            &self.mappings,
            camera_mapping,
            Ghost(|m: Mapping| is_camera(m)),
        )
    }

    /// The state mappings (feature `observation.state`), in order.
    pub fn state_mappings(&self) -> (r: Vec<&Mapping>)
        ensures
            derefs(r@) == select(self.mappings@, |m: Mapping| is_state(m)),
    {
        select_refs(
            &self.mappings,
            state_mapping,
            Ghost(|m: Mapping| is_state(m)),
        )
    }

    /// The action mappings (features under `action.`), in order.
    pub fn action_mappings(&self) -> (r: Vec<&Mapping>)
        ensures
            derefs(r@) == select(self.mappings@, |m: Mapping| is_action(m)),
    {
        select_refs(
            &self.mappings,
            action_mapping,
            Ghost(|m: Mapping| is_action(m)),
        )
    }
}

} // verus!
