//! Streaming dataset converter with bounded memory footprint.
//!
//! The converter holds the output directory, the dataset format with its
//! configuration, and the streaming configuration; it decides the writer
//! and the topic to feature routing of a conversion.

use vstd::prelude::*;
use super::config::StreamingConfig;
use crate::dataset::{create_dataset_writer, DatasetConfig, DatasetFormat, DatasetWriterPlan};
use crate::dataset::lerobot::config::LerobotConfig;
use crate::dataset::kps::writers::kps_writer_message;
use crate::errors::{is_parse_error, RoboflowError};
use crate::io::kps::config::{KpsConfig, MappingType as KpsMappingType};
use crate::dataset::lerobot::config::MappingType as LerobotMappingType;
use crate::select::{last_per_key, last_per_key_refs};
use crate::text::{owned, str_eq};

verus! {

/// Streaming dataset converter.
///
/// Converts input files (MCAP/Bag) directly to dataset formats using
/// a streaming architecture with bounded memory footprint.
#[derive(Debug)]
pub struct StreamingDatasetConverter {
    /// Output directory
    output_dir: String,
    /// Dataset format
    format: DatasetFormat,
    /// Dataset configuration, of `format`
    dataset: DatasetConfig,
    /// Streaming configuration
    config: StreamingConfig,
}

/// Where messages of a topic go: the feature and the kind of data
/// ("image", "state", "action" or "timestamp").
#[derive(Debug)]
pub struct TopicMapping {
    /// Source topic
    pub topic: String,
    /// Target feature
    pub feature: String,
    /// Kind of data
    pub mapping_type: &'static str,
}

/// The routing name of a KPS mapping type: image, action, or state for
/// every other type.
pub open spec fn kps_type_name(t: KpsMappingType) -> Seq<char> {
    match t {
        KpsMappingType::Image => "image"@,
        KpsMappingType::Action => "action"@,
        _ => "state"@,
    }
}

/// The routing name of a LeRobot mapping type.
pub open spec fn lerobot_type_name(t: LerobotMappingType) -> Seq<char> {
    match t {
        LerobotMappingType::Image => "image"@,
        LerobotMappingType::State => "state"@,
        LerobotMappingType::Action => "action"@,
        LerobotMappingType::Timestamp => "timestamp"@,
    }
}

/// Each LeRobot mapping type is routed under its own name, and distinct
/// types under distinct names: images as "image", states as "state",
/// actions as "action", timestamps as "timestamp". A KPS mapping is routed
/// as "image" exactly when it maps an image and as "action" exactly when it
/// maps an action; every other KPS type is routed as "state".
pub proof fn law_route_type_names(a: LerobotMappingType, b: LerobotMappingType, k: KpsMappingType)
    ensures
        a == LerobotMappingType::Image ==> lerobot_type_name(a) == "image"@,
        a == LerobotMappingType::State ==> lerobot_type_name(a) == "state"@,
        a == LerobotMappingType::Action ==> lerobot_type_name(a) == "action"@,
        a == LerobotMappingType::Timestamp ==> lerobot_type_name(a) == "timestamp"@,
        a != b ==> lerobot_type_name(a) != lerobot_type_name(b),
        (kps_type_name(k) == "image"@) <==> k == KpsMappingType::Image,
        (kps_type_name(k) == "action"@) <==> k == KpsMappingType::Action,
        k != KpsMappingType::Image && k != KpsMappingType::Action ==> kps_type_name(k) == "state"@,
{
    reveal_strlit("image");
    reveal_strlit("state");
    reveal_strlit("action");
    reveal_strlit("timestamp");
    assert("image"@ != "state"@ && "image"@ != "action"@ && "image"@ != "timestamp"@) by {
        assert("image"@[0] != "state"@[0] && "image"@[0] != "action"@[0] && "image"@[0] != "timestamp"@[0]);
    }
    assert("state"@ != "action"@ && "state"@ != "timestamp"@ && "action"@ != "timestamp"@) by {
        assert("state"@[1] != "timestamp"@[1]);
        assert("state"@[0] != "action"@[0] && "action"@[0] != "timestamp"@[0]);
    }
}

fn kps_type_str(t: KpsMappingType) -> (r: &'static str)
    ensures
        r@ == kps_type_name(t),
{
    match t {
        KpsMappingType::Image => "image",
        KpsMappingType::Action => "action",
        _ => "state",
    }
}

fn lerobot_type_str(t: LerobotMappingType) -> (r: &'static str)
    ensures
        r@ == lerobot_type_name(t),
{
    match t {
        LerobotMappingType::Image => "image",
        LerobotMappingType::State => "state",
        LerobotMappingType::Action => "action",
        LerobotMappingType::Timestamp => "timestamp",
    }
}

/// The routing entry of a KPS mapping.
pub open spec fn kps_route(m: crate::io::kps::config::Mapping) -> (Seq<char>, Seq<char>, Seq<char>) {
    (m.topic@, m.feature@, kps_type_name(m.mapping_type))
}

/// The routing entry of a LeRobot mapping.
pub open spec fn lerobot_route(m: crate::dataset::lerobot::config::Mapping) -> (Seq<char>, Seq<char>, Seq<char>) {
    (m.topic@, m.feature@, lerobot_type_name(m.mapping_type))
}

/// A routing entry's characters.
pub open spec fn route_view(t: TopicMapping) -> (Seq<char>, Seq<char>, Seq<char>) {
    (t.topic@, t.feature@, t.mapping_type@)
}

fn same_kps_topic(a: &crate::io::kps::config::Mapping, b: &crate::io::kps::config::Mapping) -> (e: bool)
    ensures
        e == (a.topic@ == b.topic@),
{
    str_eq(a.topic.as_str(), b.topic.as_str())
}

fn same_lerobot_topic(
    a: &crate::dataset::lerobot::config::Mapping,
    b: &crate::dataset::lerobot::config::Mapping,
) -> (e: bool)
    ensures
        e == (a.topic@ == b.topic@),
{
    str_eq(a.topic.as_str(), b.topic.as_str())
}

impl StreamingDatasetConverter {
    pub closed spec fn output_dir_spec(&self) -> Seq<char> {
        self.output_dir@
    }

    pub closed spec fn format_spec(&self) -> DatasetFormat {
        self.format
    }

    pub closed spec fn dataset_spec(&self) -> DatasetConfig {
        self.dataset
    }

    pub closed spec fn config_spec(&self) -> StreamingConfig {
        self.config
    }

    /// The dataset configuration agrees with the format.
    pub closed spec fn wf(&self) -> bool {
        self.dataset.format_spec() == self.format
    }

    /// Create a new streaming converter for KPS format.
    pub fn new_kps(output_dir: &str, kps_config: KpsConfig, config: StreamingConfig) -> (r: Result<
        Self,
        RoboflowError,
    >)
        ensures
            r matches Ok(c) && c.wf() && c.output_dir_spec() == output_dir@ && c.format_spec()
                == DatasetFormat::Kps && c.dataset_spec() == DatasetConfig::Kps(kps_config)
                && c.config_spec() == config,
    {
        Ok(
            StreamingDatasetConverter {
                output_dir: owned(output_dir),
                format: DatasetFormat::Kps,
                dataset: DatasetConfig::Kps(kps_config),
                config,
            },
        )
    }

    /// Create a new streaming converter for LeRobot format, streaming at the
    /// dataset's fps (which must not be 0).
    pub fn new_lerobot(output_dir: &str, lerobot_config: LerobotConfig) -> (r: Result<
        Self,
        RoboflowError,
    >)
        requires
            lerobot_config.dataset.fps > 0,
        ensures
            r matches Ok(c) && c.wf() && c.output_dir_spec() == output_dir@ && c.format_spec()
                == DatasetFormat::Lerobot && c.dataset_spec() == DatasetConfig::Lerobot(
                lerobot_config,
            ) && c.config_spec().fps == lerobot_config.dataset.fps
                && c.config_spec().completion_window_frames == 5
                && c.config_spec().max_buffered_frames == 300
                && c.config_spec().max_buffered_memory_mb == 500,
    {
        let fps = lerobot_config.dataset.fps;
        Ok(
            StreamingDatasetConverter {
                output_dir: owned(output_dir),
                format: DatasetFormat::Lerobot,
                dataset: DatasetConfig::Lerobot(lerobot_config),
                config: StreamingConfig::with_fps(fps),
            },
        )
    }

    /// Set the completion window (in frames).
    pub fn with_completion_window(self, frames: usize) -> (r: Self)
        ensures
            r.config_spec() == (StreamingConfig { completion_window_frames: frames, ..self.config_spec() }),
            r.output_dir_spec() == self.output_dir_spec(),
            r.format_spec() == self.format_spec(),
            r.dataset_spec() == self.dataset_spec(),
            r.wf() == self.wf(),
    {
        let StreamingDatasetConverter { output_dir, format, dataset, config } = self;
        StreamingDatasetConverter {
            output_dir,
            format,
            dataset,
            config: config.with_completion_window(frames),
        }
    }

    /// Set the maximum buffered frames.
    pub fn with_max_buffered_frames(self, max: usize) -> (r: Self)
        ensures
            r.config_spec() == (StreamingConfig { max_buffered_frames: max, ..self.config_spec() }),
            r.output_dir_spec() == self.output_dir_spec(),
            r.format_spec() == self.format_spec(),
            r.dataset_spec() == self.dataset_spec(),
            r.wf() == self.wf(),
    {
        let StreamingDatasetConverter { output_dir, format, dataset, config } = self;
        StreamingDatasetConverter {
            output_dir,
            format,
            dataset,
            config: config.with_max_buffered_frames(max),
        }
    }

    /// Set the maximum buffered memory (in MB).
    pub fn with_max_memory_mb(self, mb: usize) -> (r: Self)
        ensures
            r.config_spec() == (StreamingConfig { max_buffered_memory_mb: mb, ..self.config_spec() }),
            r.output_dir_spec() == self.output_dir_spec(),
            r.format_spec() == self.format_spec(),
            r.dataset_spec() == self.dataset_spec(),
            r.wf() == self.wf(),
    {
        let StreamingDatasetConverter { output_dir, format, dataset, config } = self;
        StreamingDatasetConverter { output_dir, format, dataset, config: config.with_max_memory_mb(mb) }
    }

    /// The streaming configuration.
    pub fn config(&self) -> (r: &StreamingConfig)
        ensures
            *r == self.config_spec(),
    {
        &self.config
    }

    /// The output directory.
    pub fn output_dir(&self) -> (r: &str)
        ensures
            r@ == self.output_dir_spec(),
    {
        self.output_dir.as_str()
    }

    /// The dataset configuration.
    pub fn dataset_config(&self) -> (r: &DatasetConfig)
        ensures
            *r == self.dataset_spec(),
    {
        &self.dataset
    }

    /// The writer for this conversion.
    pub fn create_writer(&self) -> (r: Result<DatasetWriterPlan, RoboflowError>)
        requires
            self.wf(),
        ensures
            match self.dataset_spec() {
                DatasetConfig::Kps(c) => r matches Err(e) && is_parse_error(
                    e,
                    "DatasetWriter"@,
                    kps_writer_message(c.output.formats@),
                ),
                DatasetConfig::Lerobot(_) => true,
            },
            self.format_spec() == DatasetFormat::Lerobot ==> (r matches Ok(
                DatasetWriterPlan::Lerobot { output_dir: d },
            ) && d@ == self.output_dir_spec()),
    {
        create_dataset_writer(self.format, self.output_dir.as_str(), &self.dataset)
    }

    /// Where each topic's messages go: for each topic, the last mapping that
    /// names it, with its feature and kind of data.
    pub fn build_topic_mappings(&self) -> (r: Vec<TopicMapping>)
        ensures
            r@.map_values(|t: TopicMapping| route_view(t)) == match self.dataset_spec() {
                DatasetConfig::Kps(c) => last_per_key(
                    c.mappings@,
                    |m: crate::io::kps::config::Mapping| m.topic@,
                ).map_values(|m: crate::io::kps::config::Mapping| kps_route(m)),
                DatasetConfig::Lerobot(c) => last_per_key(
                    c.mappings@,
                    |m: crate::dataset::lerobot::config::Mapping| m.topic@,
                ).map_values(|m: crate::dataset::lerobot::config::Mapping| lerobot_route(m)),
            },
    {
        let mut out: Vec<TopicMapping> = Vec::new();
        match &self.dataset {
            DatasetConfig::Kps(c) => {
                let refs = last_per_key_refs(
                    &c.mappings,
                    same_kps_topic,
                    Ghost(|m: crate::io::kps::config::Mapping| m.topic@),
                );
                let ghost want = crate::select::derefs(refs@).map_values(
                    |m: crate::io::kps::config::Mapping| kps_route(m),
                );
                let mut i: usize = 0;
                while i < refs.len()
                    invariant
                        0 <= i <= refs@.len(),
                        want == crate::select::derefs(refs@).map_values(
                            |m: crate::io::kps::config::Mapping| kps_route(m),
                        ),
                        out@.map_values(|t: TopicMapping| route_view(t)) == want.take(i as int),
                    decreases refs.len() - i,
                {
                    let m = refs[i];
                    let t = TopicMapping {
                        topic: m.topic.clone(),
                        feature: m.feature.clone(),
                        mapping_type: kps_type_str(m.mapping_type),
                    };
                    assert(route_view(t) == want[i as int]);
                    let ghost before = out@;
                    out.push(t);
                    assert(out@.map_values(|t: TopicMapping| route_view(t)) =~= before.map_values(
                        |t: TopicMapping| route_view(t),
                    ).push(route_view(t)));
                    assert(out@.map_values(|t: TopicMapping| route_view(t)) =~= want.take(i + 1));
                    i = i + 1;
                }
                assert(want.take(refs@.len() as int) =~= want);
            },
            DatasetConfig::Lerobot(c) => {
                let refs = last_per_key_refs(
                    &c.mappings,
                    same_lerobot_topic,
                    Ghost(|m: crate::dataset::lerobot::config::Mapping| m.topic@),
                );
                let ghost want = crate::select::derefs(refs@).map_values(
                    |m: crate::dataset::lerobot::config::Mapping| lerobot_route(m),
                );
                let mut i: usize = 0;
                while i < refs.len()
                    invariant
                        0 <= i <= refs@.len(),
                        want == crate::select::derefs(refs@).map_values(
                            |m: crate::dataset::lerobot::config::Mapping| lerobot_route(m),
                        ),
                        out@.map_values(|t: TopicMapping| route_view(t)) == want.take(i as int),
                    decreases refs.len() - i,
                {
                    let m = refs[i];
                    let t = TopicMapping {
                        topic: m.topic.clone(),
                        feature: m.feature.clone(),
                        mapping_type: lerobot_type_str(m.mapping_type),
                    };
                    assert(route_view(t) == want[i as int]);
                    let ghost before = out@;
                    out.push(t);
                    assert(out@.map_values(|t: TopicMapping| route_view(t)) =~= before.map_values(
                        |t: TopicMapping| route_view(t),
                    ).push(route_view(t)));
                    assert(out@.map_values(|t: TopicMapping| route_view(t)) =~= want.take(i + 1));
                    i = i + 1;
                }
                assert(want.take(refs@.len() as int) =~= want);
            },
        }
        out
    }
}

} // verus!
