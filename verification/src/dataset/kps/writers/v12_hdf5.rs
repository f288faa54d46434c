//! Schema of the v1.2 KPS HDF5 layout.
//!
//! Mapped features become `state/<group>/<name>` (observations) or
//! `action/<group>/<name>` datasets; metadata and IMU datasets are always
//! present.

use vstd::prelude::*;
use vstd::string::StringExecFns;
use crate::io::kps::config::KpsConfig;
use crate::select::{derefs, select};
use crate::format::lerobot::info::{category_and_name, find_dot};
use crate::text::{
    chars_of, has_prefix, owned, split_char, split_on, starts_with_str, str_eq, string_views,
};

verus! {

/// HDF5 dataset specification.
#[derive(Debug, Clone)]
pub struct DatasetSpec {
    /// Full path within the HDF5 file
    pub path: String,
    /// Shape; 0 stands for a variable frame count
    pub shape: Vec<usize>,
    /// Data type
    pub dtype: DataType,
    /// Description
    pub description: String,
}

/// HDF5 data type of a v1.2 dataset.
#[derive(Debug, Clone, Copy, PartialEq, Eq, Structural)]
pub enum DataType {
    Float32,
    Float64,
    Int32,
    Int64,
    UInt8,
    String,
}

/// Size in bytes of one element (0 for variable-length strings).
pub open spec fn type_size(t: DataType) -> usize {
    match t {
        DataType::Float32 | DataType::Int32 => 4,
        DataType::Float64 | DataType::Int64 => 8,
        DataType::UInt8 => 1,
        DataType::String => 0,
    }
}

impl DataType {
    /// Size in bytes of one element (0 for variable-length strings).
    pub fn size(&self) -> (r: usize)
        ensures
            r == type_size(*self),
    {
        match self {
            DataType::Float32 | DataType::Int32 => 4,
            DataType::Float64 | DataType::Int64 => 8,
            DataType::UInt8 => 1,
            DataType::String => 0,
        }
    }
}

/// A dataset's path, shape, type and description.
pub type DatasetView = (Seq<char>, Seq<usize>, DataType, Seq<char>);

/// The view of a dataset specification.
pub open spec fn dataset_view(d: DatasetSpec) -> DatasetView {
    (d.path@, d.shape@, d.dtype, d.description@)
}

/// The views of a list of dataset specifications.
pub open spec fn views(s: Seq<DatasetSpec>) -> Seq<DatasetView> {
    s.map_values(|d: DatasetSpec| dataset_view(d))
}

fn dataset(path: &str, shape: Vec<usize>, dtype: DataType, description: &str) -> (d: DatasetSpec)
    ensures
        dataset_view(d) == (path@, shape@, dtype, description@),
{
    DatasetSpec { path: owned(path), shape, dtype, description: owned(description) }
}

/// The metadata datasets: timestamps, episode and frame indices, reward.
pub open spec fn metadata_views() -> Seq<DatasetView> {
    seq![
        ("metadata/timestamps"@, seq![0usize], DataType::Int64, "Timestamp for each frame (nanoseconds)"@),
        ("metadata/episode_index"@, seq![0usize], DataType::Int32, "Episode index for each frame"@),
        ("metadata/frame_index"@, seq![0usize], DataType::Int32, "Frame index within episode"@),
        ("metadata/reward"@, seq![0usize], DataType::Float32, "Reward value (if available)"@),
    ]
}

/// The IMU datasets.
pub open spec fn other_sensor_views() -> Seq<DatasetView> {
    seq![
        ("other_sensors/imu/angular_velocity"@, seq![0usize, 3usize], DataType::Float32, "IMU angular velocity [wx, wy, wz] in rad/s"@),
        ("other_sensors/imu/linear_acceleration"@, seq![0usize, 3usize], DataType::Float32, "IMU linear acceleration [ax, ay, az] in m/s²"@),
        ("other_sensors/imu/orientation"@, seq![0usize, 4usize], DataType::Float32, "IMU orientation as quaternion [x, y, z, w]"@),
    ]
}

/// The dataset of a mapped feature `category.group.name` (or
/// `category.name`, in the `joint` group): under `state` for observations,
/// under `action` for actions; other features have none.
pub open spec fn feature_view(feature: Seq<char>) -> Option<DatasetView> {
    let p = split_on(feature, '.');
    if p.len() < 2 {
        None
    } else if p[0] != "observation"@ && p[0] != "action"@ {
        None
    } else {
        let base = if p[0] == "observation"@ {
            "state"@
        } else {
            "action"@
        };
        let group = if p.len() >= 3 {
            p[1]
        } else {
            "joint"@
        };
        let name = if p.len() >= 3 {
            p[2]
        } else {
            p[1]
        };
        Some(
            (
                base + "/"@ + group + "/"@ + name,
                seq![0usize, 7usize],
                DataType::Float32,
                group + " "@ + name + " data"@,
            ),
        )
    }
}

/// The datasets of the mapped features, in mapping order.
pub open spec fn mapped_views(features: Seq<Seq<char>>) -> Seq<DatasetView>
    decreases features.len(),
{
    if features.len() == 0 {
        Seq::empty()
    } else {
        match feature_view(features.last()) {
            Some(v) => mapped_views(features.drop_last()).push(v),
            None => mapped_views(features.drop_last()),
        }
    }
}

/// The features of a list of mappings.
pub open spec fn feature_names(ms: Seq<crate::io::kps::config::Mapping>) -> Seq<Seq<char>> {
    ms.map_values(|m: crate::io::kps::config::Mapping| m.feature@)
}

/// The dataset of a mapped feature, if it has one.
fn feature_dataset(feature: &str) -> (r: Option<DatasetSpec>)
    ensures
        match r {
            Some(d) => feature_view(feature@) == Some(dataset_view(d)),
            None => feature_view(feature@) is None,
        },
{
    let parts = split_char(feature, '.');
    if parts.len() < 2 {
        return None;
    }
    proof {
        reveal_strlit("observation");
        reveal_strlit("action");
        reveal_strlit("state");
        reveal_strlit("joint");
    }
    let base = if str_eq(parts[0].as_str(), "observation") {
        "state"
    } else if str_eq(parts[0].as_str(), "action") {
        "action"
    } else {
        return None;
    };
    let group: &str = if parts.len() >= 3 {
        parts[1].as_str()
    } else {
        "joint"
    };
    let name: &str = if parts.len() >= 3 {
        parts[2].as_str()
    } else {
        parts[1].as_str()
    };
    let mut path = owned(base);
    path.append("/");
    path.append(group);
    path.append("/");
    path.append(name);
    let mut description = owned(group);
    description.append(" ");
    description.append(name);
    description.append(" data");
    proof {
        assert(string_views(parts@)[0] == parts@[0]@);
        assert(string_views(parts@)[1] == parts@[1]@);
        if parts@.len() >= 3 {
            assert(string_views(parts@)[2] == parts@[2]@);
        }
    }
    Some(DatasetSpec { path, shape: vec![0, 7], dtype: DataType::Float32, description })
}

/// Complete v1.2 HDF5 schema.
#[derive(Debug, Clone)]
pub struct V12Hdf5Schema {
    /// Dataset specifications
    pub datasets: Vec<DatasetSpec>,
}

impl V12Hdf5Schema {
    /// The schema for a configuration: one dataset per mapped observation
    /// or action feature, in mapping order, then the metadata and IMU
    /// datasets.
    pub fn from_config(config: &KpsConfig) -> (r: Self)
        ensures
            views(r.datasets@) =~~= mapped_views(feature_names(config.mappings@)) + metadata_views()
                + other_sensor_views(),
    {
        let mut datasets: Vec<DatasetSpec> = Vec::new();
        let mut i: usize = 0;
        while i < config.mappings.len()
            invariant
                0 <= i <= config.mappings@.len(),
                views(datasets@) =~~= mapped_views(feature_names(config.mappings@.take(i as int))),
            decreases config.mappings.len() - i,
        {
            let ghost before = datasets@;
            proof {
                assert(feature_names(config.mappings@.take(i + 1)).drop_last() =~= feature_names(
                    config.mappings@.take(i as int),
                ));
                assert(feature_names(config.mappings@.take(i + 1)).last() == config.mappings@[i as int].feature@);
            }
            match feature_dataset(config.mappings[i].feature.as_str()) {
                Some(d) => {
                    datasets.push(d);
                    assert(views(datasets@) =~~= views(before).push(dataset_view(d)));
                },
                None => {},
            }
            i = i + 1;
        }
        proof {
            assert(config.mappings@.take(config.mappings@.len() as int) =~= config.mappings@);
        }
        let ghost a = datasets@;
        let mut meta = Self::metadata_datasets();
        let mut imu = Self::other_sensors_datasets();
        datasets.append(&mut meta);
        let ghost b = datasets@;
        datasets.append(&mut imu);
        proof {
            assert(views(b) =~~= views(a) + metadata_views());
            assert(views(datasets@) =~~= views(b) + other_sensor_views());
        }
        V12Hdf5Schema { datasets }
    }

    /// The metadata datasets.
    pub fn metadata_datasets() -> (r: Vec<DatasetSpec>)
        ensures
            views(r@) =~~= metadata_views(),
    {
        let mut out: Vec<DatasetSpec> = Vec::new();
        out.push(dataset("metadata/timestamps", vec![0], DataType::Int64, "Timestamp for each frame (nanoseconds)"));
        out.push(dataset("metadata/episode_index", vec![0], DataType::Int32, "Episode index for each frame"));
        out.push(dataset("metadata/frame_index", vec![0], DataType::Int32, "Frame index within episode"));
        out.push(dataset("metadata/reward", vec![0], DataType::Float32, "Reward value (if available)"));
        assert(views(out@) =~~= metadata_views());
        out
    }

    /// The IMU datasets.
    pub fn other_sensors_datasets() -> (r: Vec<DatasetSpec>)
        ensures
            views(r@) =~~= other_sensor_views(),
    {
        let mut out: Vec<DatasetSpec> = Vec::new();
        out.push(dataset("other_sensors/imu/angular_velocity", vec![0, 3], DataType::Float32, "IMU angular velocity [wx, wy, wz] in rad/s"));
        out.push(dataset("other_sensors/imu/linear_acceleration", vec![0, 3], DataType::Float32, "IMU linear acceleration [ax, ay, az] in m/s²"));
        out.push(dataset("other_sensors/imu/orientation", vec![0, 4], DataType::Float32, "IMU orientation as quaternion [x, y, z, w]"));
        assert(views(out@) =~~= other_sensor_views());
        out
    }

    /// The first dataset with the given path, if any.
    pub fn get_dataset(&self, path: &str) -> (r: Option<&DatasetSpec>)
        ensures
            match r {
                Some(d) => exists|i: int|
                    0 <= i < self.datasets@.len() && self.datasets@[i] == *d && d.path@ == path@
                        && forall|k: int| 0 <= k < i ==> #[trigger] self.datasets@[k].path@ != path@,
                None => forall|k: int| 0 <= k < self.datasets@.len() ==> #[trigger] self.datasets@[k].path@ != path@,
            },
    {
        let mut i: usize = 0;
        while i < self.datasets.len()
            invariant
                0 <= i <= self.datasets@.len(),
                forall|k: int| 0 <= k < i ==> #[trigger] self.datasets@[k].path@ != path@,
            decreases self.datasets.len() - i,
        {
            if str_eq(self.datasets[i].path.as_str(), path) {
                return Some(&self.datasets[i]);
            }
            i = i + 1;
        }
        None
    }

    /// The datasets whose path starts with `group`, in order.
    pub fn get_group_datasets(&self, group: &str) -> (r: Vec<&DatasetSpec>)
        ensures
            derefs(r@) == select(self.datasets@, |d: DatasetSpec| has_prefix(d.path@, group@)),
    {
        let ghost p = |d: DatasetSpec| has_prefix(d.path@, group@);
        let mut r: Vec<&DatasetSpec> = Vec::new();
        let mut i: usize = 0;
        while i < self.datasets.len()
            invariant
                0 <= i <= self.datasets@.len(),
                p == (|d: DatasetSpec| has_prefix(d.path@, group@)),
                derefs(r@) == select(self.datasets@.take(i as int), p),
            decreases self.datasets.len() - i,
        {
            proof {
                assert(self.datasets@.take(i + 1).drop_last() =~= self.datasets@.take(i as int));
            }
            let d = &self.datasets[i];
            let ghost before = r@;
            if starts_with_str(d.path.as_str(), group) {
                r.push(d);
                assert(derefs(r@) =~= derefs(before).push(*d));
            }
            i = i + 1;
        }
        proof {
            assert(self.datasets@.take(self.datasets@.len() as int) =~= self.datasets@);
        }
        r
    }
}

/// `s` with each '.' replaced by '/'.
pub open spec fn dots_to_slashes(s: Seq<char>) -> Seq<char> {
    s.map_values(|c: char| if c == '.' { '/' } else { c })
}

/// The v1.2 dataset path of a feature `category.rest`: under `state` for
/// an observation, under `action` for an action, followed by the rest with
/// its dots as slashes; none for any other category or a feature without a
/// dot.
pub open spec fn v12_feature_path(f: Seq<char>) -> Option<Seq<char>> {
    match category_and_name(f) {
        Some((c, rest)) => if c == "observation"@ {
            Some("state/"@ + dots_to_slashes(rest))
        } else if c == "action"@ {
            Some("action/"@ + dots_to_slashes(rest))
        } else {
            None
        },
        None => None,
    }
}

/// The v1.2 dataset path that a feature is written to, if it has one.
pub fn map_feature_to_v12_path(feature: &str) -> (r: Option<String>)
    ensures
        match (r, v12_feature_path(feature@)) {
            (Some(p), Some(v)) => p@ == v,
            (None, None) => true,
            _ => false,
        },
{
    let i = match find_dot(feature) {
        Some(i) => i,
        None => return None,
    };
    let category = feature.substring_char(0, i);
    let mut out = if str_eq(category, "observation") {
        owned("state/")
    } else if str_eq(category, "action") {
        owned("action/")
    } else {
        proof {
            assert(feature@.take(i as int) =~= category@);
        }
        return None;
    };
    let ghost head = out@;
    let cs = chars_of(feature);
    let n = cs.len();
    let mut j = i + 1;
    while j < n
        invariant
            cs@ == feature@,
            n == cs@.len(),
            i + 1 <= j <= n,
            out@ == head + dots_to_slashes(feature@.subrange(i + 1, j as int)),
        decreases n - j,
    {
        if cs[j] == '.' {
            out.append("/");
        } else {
            out.append(feature.substring_char(j, j + 1));
        }
        proof {
            reveal_strlit("/");
            assert(feature@.subrange(j as int, j + 1) =~= seq![feature@[j as int]]);
            assert(dots_to_slashes(feature@.subrange(i + 1, j + 1)) =~= dots_to_slashes(
                feature@.subrange(i + 1, j as int),
            ).push(if feature@[j as int] == '.' { '/' } else { feature@[j as int] }));
        }
        j = j + 1;
    }
    proof {
        assert(feature@.take(i as int) =~= category@);
        assert(feature@.skip(i + 1) =~= feature@.subrange(i + 1, n as int));
    }
    Some(out)
}

} // verus!
