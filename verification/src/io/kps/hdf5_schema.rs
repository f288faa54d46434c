//! HDF5 schema of KPS datasets: joint groups with their names and
//! dimensions, and the datasets of the action, state and root groups.

use vstd::prelude::*;
use vstd::string::StringExecFns;
use crate::keyed::{distinct_keys, entry_map, get_entry, set_entry};
use crate::text::{owned, string_views};

verus! {

/// Joint group definitions with default names and dimensions.
#[derive(Debug, Clone, Default)]
pub struct JointGroupConfig {
    /// URDF joint names for this group
    pub names: Vec<String>,
    /// Dimension (number of joints)
    pub dimension: usize,
}

/// The name `joint_<i>`.
pub open spec fn indexed_joint_name(i: nat) -> Seq<char> {
    "joint_"@ + crate::text::decimal(i)
}

impl JointGroupConfig {
    /// Create a new joint group config; its dimension is the number of names.
    pub fn new(names: Vec<String>) -> (r: Self)
        ensures
            r.names == names,
            r.dimension == names@.len(),
    {
        let dimension = names.len();
        JointGroupConfig { names, dimension }
    }

    /// A config of the given dimension with names `joint_0`, `joint_1`, ...
    pub fn with_dimension(dimension: usize) -> (r: Self)
        ensures
            r.dimension == dimension,
            string_views(r.names@) == Seq::new(dimension as nat, |i: int| indexed_joint_name(i as nat)),
    {
        let mut names: Vec<String> = Vec::new();
        let mut i: usize = 0;
        while i < dimension
            invariant
                0 <= i <= dimension,
                string_views(names@) == Seq::new(i as nat, |k: int| indexed_joint_name(k as nat)),
            decreases dimension - i,
        {
            let mut n = owned("joint_");
            crate::text::push_decimal(&mut n, i as u64);
            let ghost before = names@;
            assert(n@ == indexed_joint_name(i as nat));
            names.push(n);
            assert(string_views(names@) =~= string_views(before).push(n@));
            assert(string_views(names@) =~= Seq::new((i + 1) as nat, |k: int| indexed_joint_name(k as nat)));
            i = i + 1;
        }
        JointGroupConfig { names, dimension }
    }
}

/// Default joint names for dual arm configuration.
pub fn default_arm_joint_names() -> (r: Vec<String>)
    ensures
        string_views(r@) == seq!["l_arm_pitch"@, "l_arm_roll"@, "l_arm_yaw"@, "l_forearm"@, "l_hand_yaw"@, "l_hand_pitch"@, "l_hand_roll"@, "r_arm_pitch"@, "r_arm_roll"@, "r_arm_yaw"@, "r_forearm"@, "r_hand_yaw"@, "r_hand_pitch"@, "r_hand_roll"@],
{
    let r = vec![owned("l_arm_pitch"), owned("l_arm_roll"), owned("l_arm_yaw"), owned("l_forearm"), owned("l_hand_yaw"), owned("l_hand_pitch"), owned("l_hand_roll"), owned("r_arm_pitch"), owned("r_arm_roll"), owned("r_arm_yaw"), owned("r_forearm"), owned("r_hand_yaw"), owned("r_hand_pitch"), owned("r_hand_roll")];
    assert(string_views(r@) =~= seq!["l_arm_pitch"@, "l_arm_roll"@, "l_arm_yaw"@, "l_forearm"@, "l_hand_yaw"@, "l_hand_pitch"@, "l_hand_roll"@, "r_arm_pitch"@, "r_arm_roll"@, "r_arm_yaw"@, "r_forearm"@, "r_hand_yaw"@, "r_hand_pitch"@, "r_hand_roll"@]);
    r
}

/// Default joint names for dual leg configuration.
pub fn default_leg_joint_names() -> (r: Vec<String>)
    ensures
        string_views(r@) == seq!["l_leg_roll"@, "l_leg_yaw"@, "l_leg_pitch"@, "l_knee"@, "l_foot_pitch"@, "l_foot_roll"@, "r_leg_roll"@, "r_leg_yaw"@, "r_leg_pitch"@, "r_knee"@, "r_foot_pitch"@, "r_foot_roll"@],
{
    let r = vec![owned("l_leg_roll"), owned("l_leg_yaw"), owned("l_leg_pitch"), owned("l_knee"), owned("l_foot_pitch"), owned("l_foot_roll"), owned("r_leg_roll"), owned("r_leg_yaw"), owned("r_leg_pitch"), owned("r_knee"), owned("r_foot_pitch"), owned("r_foot_roll")];
    assert(string_views(r@) =~= seq!["l_leg_roll"@, "l_leg_yaw"@, "l_leg_pitch"@, "l_knee"@, "l_foot_pitch"@, "l_foot_roll"@, "r_leg_roll"@, "r_leg_yaw"@, "r_leg_pitch"@, "r_knee"@, "r_foot_pitch"@, "r_foot_roll"@]);
    r
}

/// Default joint names for head configuration.
pub fn default_head_joint_names() -> (r: Vec<String>)
    ensures
        string_views(r@) == seq!["joint_head_yaw"@, "joint_head_pitch"@],
{
    let r = vec![owned("joint_head_yaw"), owned("joint_head_pitch")];
    assert(string_views(r@) =~= seq!["joint_head_yaw"@, "joint_head_pitch"@]);
    r
}

/// Default joint names for waist configuration.
pub fn default_waist_joint_names() -> (r: Vec<String>)
    ensures
        string_views(r@) == seq!["joint_waist_pitch"@, "joint_waist_roll"@, "joint_waist_yaw"@],
{
    let r = vec![owned("joint_waist_pitch"), owned("joint_waist_roll"), owned("joint_waist_yaw")];
    assert(string_views(r@) =~= seq!["joint_waist_pitch"@, "joint_waist_roll"@, "joint_waist_yaw"@]);
    r
}

/// Default names for dual end effector (gripper/dexhand).
pub fn default_effector_names() -> (r: Vec<String>)
    ensures
        string_views(r@) == seq!["l_gripper"@, "r_gripper"@],
{
    let r = vec![owned("l_gripper"), owned("r_gripper")];
    assert(string_views(r@) =~= seq!["l_gripper"@, "r_gripper"@]);
    r
}

/// Default names for dual end effector (6-DOF dexhand).
pub fn default_dexhand_names() -> (r: Vec<String>)
    ensures
        string_views(r@) == seq!["l_thumb_aux"@, "l_thumb"@, "l_index"@, "l_middle"@, "l_ring"@, "l_pinky"@, "r_thumb_aux"@, "r_thumb"@, "r_index"@, "r_middle"@, "r_ring"@, "r_pinky"@],
{
    let r = vec![owned("l_thumb_aux"), owned("l_thumb"), owned("l_index"), owned("l_middle"), owned("l_ring"), owned("l_pinky"), owned("r_thumb_aux"), owned("r_thumb"), owned("r_index"), owned("r_middle"), owned("r_ring"), owned("r_pinky")];
    assert(string_views(r@) =~= seq!["l_thumb_aux"@, "l_thumb"@, "l_index"@, "l_middle"@, "l_ring"@, "l_pinky"@, "r_thumb_aux"@, "r_thumb"@, "r_index"@, "r_middle"@, "r_ring"@, "r_pinky"@]);
    r
}

/// HDF5 dataset specification.
#[derive(Debug, Clone)]
pub struct DatasetSpec {
    /// Full path within HDF5 file (e.g., "action/joint/position")
    pub path: String,
    /// Shape as list of dimensions; 0 stands for a variable frame count
    pub shape: Vec<usize>,
    /// Data type
    pub dtype: DataType,
    /// Description
    pub description: String,
}

/// HDF5 data type.
#[derive(Debug, Clone, Copy, PartialEq, Eq, Structural)]
pub enum DataType {
    Float32,
    Float64,
    Int8,
    Int16,
    Int32,
    Int64,
    UInt8,
    UInt16,
    UInt32,
    UInt64,
    String,
}

/// The HDF5 name of a data type.
pub open spec fn dtype_name(t: DataType) -> Seq<char> {
    match t {
        DataType::Float32 => "float32"@,
        DataType::Float64 => "float64"@,
        DataType::Int8 => "int8"@,
        DataType::Int16 => "int16"@,
        DataType::Int32 => "int32"@,
        DataType::Int64 => "int64"@,
        DataType::UInt8 => "uint8"@,
        DataType::UInt16 => "uint16"@,
        DataType::UInt32 => "uint32"@,
        DataType::UInt64 => "uint64"@,
        DataType::String => "string"@,
    }
}

impl DataType {
    /// Get HDF5 datatype string.
    pub fn as_str(&self) -> (r: &'static str)
        ensures
            r@ == dtype_name(*self),
    {
        match self {
            DataType::Float32 => "float32",
            DataType::Float64 => "float64",
            DataType::Int8 => "int8",
            DataType::Int16 => "int16",
            DataType::Int32 => "int32",
            DataType::Int64 => "int64",
            DataType::UInt8 => "uint8",
            DataType::UInt16 => "uint16",
            DataType::UInt32 => "uint32",
            DataType::UInt64 => "uint64",
            DataType::String => "string",
        }
    }
}

/// A dataset's path, shape, type and description.
pub type DatasetView = (Seq<char>, Seq<usize>, DataType, Seq<char>);

/// The view of a dataset specification.
pub open spec fn dataset_view(d: DatasetSpec) -> DatasetView {
    (d.path@, d.shape@, d.dtype, d.description@)
}

/// The views of a list of dataset specifications.
pub open spec fn views(s: Seq<DatasetSpec>) -> Seq<DatasetView> {
    s.map_values(|d: DatasetSpec| dataset_view(d))
}

fn dataset(path: &str, shape: Vec<usize>, dtype: DataType, description: &str) -> (d: DatasetSpec)
    ensures
        dataset_view(d) == (path@, shape@, dtype, description@),
{
    DatasetSpec { path: owned(path), shape, dtype, description: owned(description) }
}

/// The timestamp dataset of a sensor: `<name>_timestamps`.
pub open spec fn sensor_timestamp_view(name: Seq<char>) -> DatasetView {
    (name + "_timestamps"@, seq![0usize], DataType::Int64, "Original timestamps for "@ + name)
}

fn sensor_timestamp_dataset(name: &str) -> (d: DatasetSpec)
    ensures
        dataset_view(d) == sensor_timestamp_view(name@),
{
    let mut path = owned(name);
    path.append("_timestamps");
    let mut description = owned("Original timestamps for ");
    description.append(name);
    DatasetSpec { path, shape: vec![0], dtype: DataType::Int64, description }
}

/// The root datasets: unified timestamps and the original timestamps of
/// the right and left hand cameras and the end effector.
pub open spec fn root_dataset_views() -> Seq<DatasetView> {
    seq![
        ("timestamps"@, seq![0usize], DataType::Int64, "Aligned unified timestamps (nanoseconds, Unix time)"@),
        sensor_timestamp_view("hand_right_color_mp4"@),
        sensor_timestamp_view("hand_left_color_mp4"@),
        sensor_timestamp_view("eef"@),
    ]
}

fn root_datasets() -> (r: Vec<DatasetSpec>)
    ensures
        views(r@) == root_dataset_views(),
{
    let mut out: Vec<DatasetSpec> = Vec::new();
    out.push(dataset("timestamps", vec![0], DataType::Int64, "Aligned unified timestamps (nanoseconds, Unix time)"));
    out.push(sensor_timestamp_dataset("hand_right_color_mp4"));
    out.push(sensor_timestamp_dataset("hand_left_color_mp4"));
    out.push(sensor_timestamp_dataset("eef"));
    assert(views(out@) =~~= root_dataset_views());
    out
}

/// The action datasets, for the effector, head, arm joint, leg and waist
/// dimensions.
pub open spec fn action_dataset_views(e: usize, h: usize, j: usize, l: usize, w: usize) -> Seq<DatasetView> {
    seq![
        ("action/effector/position"@, seq![0usize, e], DataType::Float32, "End effector joint angles (rad)"@),
        ("action/effector/names"@, seq![e], DataType::String, "End effector joint names"@),
        ("action/end/position"@, seq![0usize, 2usize, 3usize], DataType::Float32, "Left/right end effector positions [x,y,z] (m)"@),
        ("action/end/orientation"@, seq![0usize, 2usize, 4usize], DataType::Float32, "Left/right end effector orientations [x,y,z,w]"@),
        ("action/head/position"@, seq![0usize, h], DataType::Float32, "Head joint positions (rad)"@),
        ("action/head/velocity"@, seq![0usize, h], DataType::Float32, "Head joint velocities (rad/s)"@),
        ("action/head/names"@, seq![h], DataType::String, "Head joint names"@),
        ("action/joint/position"@, seq![0usize, j], DataType::Float32, "Dual arm joint positions, left[:, :7], right[:, 7:] (rad)"@),
        ("action/joint/velocity"@, seq![0usize, j], DataType::Float32, "Dual arm joint velocities (rad/s)"@),
        ("action/joint/names"@, seq![j], DataType::String, "Dual arm joint names matching URDF"@),
        ("action/leg/position"@, seq![0usize, l], DataType::Float32, "Dual leg joint positions, left[:, :6], right[:, 6:] (rad)"@),
        ("action/leg/velocity"@, seq![0usize, l], DataType::Float32, "Dual leg joint velocities (rad/s)"@),
        ("action/leg/names"@, seq![l], DataType::String, "Dual leg joint names matching URDF"@),
        ("action/robot/velocity"@, seq![0usize, 2usize], DataType::Float32, "Base velocity [linear, angular] in odom frame"@),
        ("action/robot/orientation"@, seq![0usize, 4usize], DataType::Float32, "Base orientation [x,y,z,w] quaternion in odom frame"@),
        ("action/waist/position"@, seq![0usize, w], DataType::Float32, "Waist joint positions (rad or m for lift)"@),
        ("action/waist/velocity"@, seq![0usize, w], DataType::Float32, "Waist joint velocities (rad/s or m/s for lift)"@),
        ("action/waist/names"@, seq![w], DataType::String, "Waist joint names matching URDF"@),
    ]
}

/// The state datasets, for the effector, head, arm joint, leg and waist
/// dimensions.
pub open spec fn state_dataset_views(e: usize, h: usize, j: usize, l: usize, w: usize) -> Seq<DatasetView> {
    seq![
        ("state/effector/position"@, seq![0usize, e], DataType::Float32, "End effector actual positions (rad or mm)"@),
        ("state/effector/force"@, seq![0usize, e], DataType::Float32, "End effector force/torque (Nm)"@),
        ("state/effector/names"@, seq![e], DataType::String, "End effector joint names"@),
        ("state/end/angular"@, seq![0usize, 2usize, 3usize], DataType::Float32, "Left/right end effector angular velocities [wx,wy,wz] (rad/s)"@),
        ("state/end/orientation"@, seq![0usize, 2usize, 4usize], DataType::Float32, "Left/right end effector orientations [x,y,z,w]"@),
        ("state/end/position"@, seq![0usize, 2usize, 3usize], DataType::Float32, "Left/right end effector positions [x,y,z] (m)"@),
        ("state/end/velocity"@, seq![0usize, 2usize, 3usize], DataType::Float32, "Left/right end effector spatial velocities [vx,vy,vz] (m/s)"@),
        ("state/end/wrench"@, seq![0usize, 2usize, 6usize], DataType::Float32, "Left/right end effector wrench [fx,fy,fz,mx,my,mz]"@),
        ("state/head/effort"@, seq![0usize, h], DataType::Float32, "Head joint effort (torque)"@),
        ("state/head/position"@, seq![0usize, h], DataType::Float32, "Head joint actual positions (rad)"@),
        ("state/head/velocity"@, seq![0usize, h], DataType::Float32, "Head joint actual velocities (rad/s)"@),
        ("state/head/names"@, seq![h], DataType::String, "Head joint names"@),
        ("state/joint/current_value"@, seq![0usize, j], DataType::Float32, "Dual arm joint current values"@),
        ("state/joint/effort"@, seq![0usize, j], DataType::Float32, "Dual arm joint actual torque"@),
        ("state/joint/position"@, seq![0usize, j], DataType::Float32, "Dual arm joint actual positions (rad)"@),
        ("state/joint/velocity"@, seq![0usize, j], DataType::Float32, "Dual arm joint actual velocities (rad/s)"@),
        ("state/joint/names"@, seq![j], DataType::String, "Dual arm joint names"@),
        ("state/leg/position"@, seq![0usize, l], DataType::Float32, "Dual leg joint actual positions (rad)"@),
        ("state/leg/velocity"@, seq![0usize, l], DataType::Float32, "Dual leg joint actual velocities (rad/s)"@),
        ("state/leg/names"@, seq![l], DataType::String, "Dual leg joint names"@),
        ("state/robot/orientation"@, seq![0usize, 4usize], DataType::Float32, "Base orientation [x,y,z,w] in odom frame"@),
        ("state/robot/orientation_drift"@, seq![0usize, 4usize], DataType::Float32, "Odom to map drift quaternion"@),
        ("state/robot/position"@, seq![0usize, 3usize], DataType::Float32, "Base position {x,y,z} in odom frame"@),
        ("state/robot/position_drift"@, seq![0usize, 3usize], DataType::Float32, "Odom to map drift position"@),
        ("state/waist/effort"@, seq![0usize, w], DataType::Float32, "Waist joint actual torque"@),
        ("state/waist/position"@, seq![0usize, w], DataType::Float32, "Waist joint actual positions (rad or m)"@),
        ("state/waist/velocity"@, seq![0usize, w], DataType::Float32, "Waist joint actual velocities (rad/s or m/s)"@),
        ("state/waist/names"@, seq![w], DataType::String, "Waist joint names"@),
    ]
}

/// The action datasets for the given dimensions.
fn action_datasets(e: usize, h: usize, j: usize, l: usize, w: usize) -> (r: Vec<DatasetSpec>)
    ensures
        views(r@) == action_dataset_views(e, h, j, l, w),
{
    let mut out: Vec<DatasetSpec> = Vec::new();
    out.push(dataset("action/effector/position", vec![0, e], DataType::Float32, "End effector joint angles (rad)"));
    out.push(dataset("action/effector/names", vec![e], DataType::String, "End effector joint names"));
    out.push(dataset("action/end/position", vec![0, 2, 3], DataType::Float32, "Left/right end effector positions [x,y,z] (m)"));
    out.push(dataset("action/end/orientation", vec![0, 2, 4], DataType::Float32, "Left/right end effector orientations [x,y,z,w]"));
    out.push(dataset("action/head/position", vec![0, h], DataType::Float32, "Head joint positions (rad)"));
    out.push(dataset("action/head/velocity", vec![0, h], DataType::Float32, "Head joint velocities (rad/s)"));
    out.push(dataset("action/head/names", vec![h], DataType::String, "Head joint names"));
    out.push(dataset("action/joint/position", vec![0, j], DataType::Float32, "Dual arm joint positions, left[:, :7], right[:, 7:] (rad)"));
    out.push(dataset("action/joint/velocity", vec![0, j], DataType::Float32, "Dual arm joint velocities (rad/s)"));
    out.push(dataset("action/joint/names", vec![j], DataType::String, "Dual arm joint names matching URDF"));
    out.push(dataset("action/leg/position", vec![0, l], DataType::Float32, "Dual leg joint positions, left[:, :6], right[:, 6:] (rad)"));
    out.push(dataset("action/leg/velocity", vec![0, l], DataType::Float32, "Dual leg joint velocities (rad/s)"));
    out.push(dataset("action/leg/names", vec![l], DataType::String, "Dual leg joint names matching URDF"));
    out.push(dataset("action/robot/velocity", vec![0, 2], DataType::Float32, "Base velocity [linear, angular] in odom frame"));
    out.push(dataset("action/robot/orientation", vec![0, 4], DataType::Float32, "Base orientation [x,y,z,w] quaternion in odom frame"));
    out.push(dataset("action/waist/position", vec![0, w], DataType::Float32, "Waist joint positions (rad or m for lift)"));
    out.push(dataset("action/waist/velocity", vec![0, w], DataType::Float32, "Waist joint velocities (rad/s or m/s for lift)"));
    out.push(dataset("action/waist/names", vec![w], DataType::String, "Waist joint names matching URDF"));
    assert(views(out@) =~~= action_dataset_views(e, h, j, l, w));
    out
}

/// The state datasets for the given dimensions.
fn state_datasets(e: usize, h: usize, j: usize, l: usize, w: usize) -> (r: Vec<DatasetSpec>)
    ensures
        views(r@) == state_dataset_views(e, h, j, l, w),
{
    let mut out: Vec<DatasetSpec> = Vec::new();
    out.push(dataset("state/effector/position", vec![0, e], DataType::Float32, "End effector actual positions (rad or mm)"));
    out.push(dataset("state/effector/force", vec![0, e], DataType::Float32, "End effector force/torque (Nm)"));
    out.push(dataset("state/effector/names", vec![e], DataType::String, "End effector joint names"));
    out.push(dataset("state/end/angular", vec![0, 2, 3], DataType::Float32, "Left/right end effector angular velocities [wx,wy,wz] (rad/s)"));
    out.push(dataset("state/end/orientation", vec![0, 2, 4], DataType::Float32, "Left/right end effector orientations [x,y,z,w]"));
    out.push(dataset("state/end/position", vec![0, 2, 3], DataType::Float32, "Left/right end effector positions [x,y,z] (m)"));
    out.push(dataset("state/end/velocity", vec![0, 2, 3], DataType::Float32, "Left/right end effector spatial velocities [vx,vy,vz] (m/s)"));
    out.push(dataset("state/end/wrench", vec![0, 2, 6], DataType::Float32, "Left/right end effector wrench [fx,fy,fz,mx,my,mz]"));
    out.push(dataset("state/head/effort", vec![0, h], DataType::Float32, "Head joint effort (torque)"));
    out.push(dataset("state/head/position", vec![0, h], DataType::Float32, "Head joint actual positions (rad)"));
    out.push(dataset("state/head/velocity", vec![0, h], DataType::Float32, "Head joint actual velocities (rad/s)"));
    out.push(dataset("state/head/names", vec![h], DataType::String, "Head joint names"));
    out.push(dataset("state/joint/current_value", vec![0, j], DataType::Float32, "Dual arm joint current values"));
    out.push(dataset("state/joint/effort", vec![0, j], DataType::Float32, "Dual arm joint actual torque"));
    out.push(dataset("state/joint/position", vec![0, j], DataType::Float32, "Dual arm joint actual positions (rad)"));
    out.push(dataset("state/joint/velocity", vec![0, j], DataType::Float32, "Dual arm joint actual velocities (rad/s)"));
    out.push(dataset("state/joint/names", vec![j], DataType::String, "Dual arm joint names"));
    out.push(dataset("state/leg/position", vec![0, l], DataType::Float32, "Dual leg joint actual positions (rad)"));
    out.push(dataset("state/leg/velocity", vec![0, l], DataType::Float32, "Dual leg joint actual velocities (rad/s)"));
    out.push(dataset("state/leg/names", vec![l], DataType::String, "Dual leg joint names"));
    out.push(dataset("state/robot/orientation", vec![0, 4], DataType::Float32, "Base orientation [x,y,z,w] in odom frame"));
    out.push(dataset("state/robot/orientation_drift", vec![0, 4], DataType::Float32, "Odom to map drift quaternion"));
    out.push(dataset("state/robot/position", vec![0, 3], DataType::Float32, "Base position {x,y,z} in odom frame"));
    out.push(dataset("state/robot/position_drift", vec![0, 3], DataType::Float32, "Odom to map drift position"));
    out.push(dataset("state/waist/effort", vec![0, w], DataType::Float32, "Waist joint actual torque"));
    out.push(dataset("state/waist/position", vec![0, w], DataType::Float32, "Waist joint actual positions (rad or m)"));
    out.push(dataset("state/waist/velocity", vec![0, w], DataType::Float32, "Waist joint actual velocities (rad/s or m/s)"));
    out.push(dataset("state/waist/names", vec![w], DataType::String, "Waist joint names"));
    assert(views(out@) =~~= state_dataset_views(e, h, j, l, w));
    out
}

/// Complete HDF5 schema for Kps format.
#[derive(Debug, Clone)]
pub struct KpsHdf5Schema {
    /// Joint group configurations, one entry per group name
    pub joint_groups: Vec<(String, JointGroupConfig)>,
    /// All dataset specifications
    pub datasets: Vec<DatasetSpec>,
}

/// The dimension of a group, or `d` when there is no such group.
pub open spec fn dim_or(groups: Map<Seq<char>, JointGroupConfig>, g: Seq<char>, d: usize) -> usize {
    if groups.contains_key(g) {
        groups[g].dimension
    } else {
        d
    }
}

/// The datasets of a schema built over the given joint groups.
pub open spec fn schema_dataset_views(groups: Map<Seq<char>, JointGroupConfig>) -> Seq<DatasetView> {
    let e = dim_or(groups, "effector"@, 2);
    let h = dim_or(groups, "head"@, 2);
    let j = dim_or(groups, "joint"@, 14);
    let l = dim_or(groups, "leg"@, 12);
    let w = dim_or(groups, "waist"@, 3);
    action_dataset_views(e, h, j, l, w) + state_dataset_views(e, h, j, l, w) + root_dataset_views()
}

fn group_dim(groups: &Vec<(String, JointGroupConfig)>, g: &str, d: usize) -> (r: usize)
    ensures
        r == dim_or(entry_map(groups@), g@, d),
{
    match get_entry(groups, g) {
        Some(c) => c.dimension,
        None => d,
    }
}

impl Default for KpsHdf5Schema {
    /// The schema with default joint configurations.
    fn default() -> (r: Self)
        ensures
            distinct_keys(r.joint_groups@),
            views(r.datasets@) == schema_dataset_views(entry_map(r.joint_groups@)),
    {
        Self::new()
    }
}

impl KpsHdf5Schema {
    /// Create a new schema with default joint configurations: groups
    /// joint (14 arm joints), leg (12), head (2), waist (3) and effector (2),
    /// and the action, state and root datasets for them.
    pub fn new() -> (r: Self)
        ensures
            distinct_keys(r.joint_groups@),
            dim_or(entry_map(r.joint_groups@), "joint"@, 0) == 14,
            dim_or(entry_map(r.joint_groups@), "leg"@, 0) == 12,
            dim_or(entry_map(r.joint_groups@), "head"@, 0) == 2,
            dim_or(entry_map(r.joint_groups@), "waist"@, 0) == 3,
            dim_or(entry_map(r.joint_groups@), "effector"@, 0) == 2,
            views(r.datasets@) == schema_dataset_views(entry_map(r.joint_groups@)),
    {
        proof {
            reveal_strlit("joint");
            reveal_strlit("leg");
            reveal_strlit("head");
            reveal_strlit("waist");
            reveal_strlit("effector");
            assert("joint"@[0] == 'j' && "leg"@[0] == 'l' && "head"@[0] == 'h' && "waist"@[0] == 'w'
                && "effector"@[0] == 'e');
        }
        let arm = default_arm_joint_names();
        let leg = default_leg_joint_names();
        let head = default_head_joint_names();
        let waist = default_waist_joint_names();
        let effector = default_effector_names();
        assert(string_views(arm@).len() == 14 && string_views(leg@).len() == 12 && string_views(
            head@,
        ).len() == 2 && string_views(waist@).len() == 3 && string_views(effector@).len() == 2);
        let mut joint_groups: Vec<(String, JointGroupConfig)> = Vec::new();
        set_entry(&mut joint_groups, owned("joint"), JointGroupConfig::new(arm));
        set_entry(&mut joint_groups, owned("leg"), JointGroupConfig::new(leg));
        set_entry(&mut joint_groups, owned("head"), JointGroupConfig::new(head));
        set_entry(&mut joint_groups, owned("waist"), JointGroupConfig::new(waist));
        set_entry(&mut joint_groups, owned("effector"), JointGroupConfig::new(effector));
        let e = group_dim(&joint_groups, "effector", 2);
        let h = group_dim(&joint_groups, "head", 2);
        let j = group_dim(&joint_groups, "joint", 14);
        let l = group_dim(&joint_groups, "leg", 12);
        let w = group_dim(&joint_groups, "waist", 3);
        let mut datasets = action_datasets(e, h, j, l, w);
        let mut state = state_datasets(e, h, j, l, w);
        let mut root = root_datasets();
        let ghost a = datasets@;
        let ghost s = state@;
        datasets.append(&mut state);
        let ghost b = datasets@;
        datasets.append(&mut root);
        proof {
            assert(views(b) =~= views(a) + views(s));
            assert(views(datasets@) =~= views(b) + root_dataset_views());
        }
        KpsHdf5Schema { joint_groups, datasets }
    }

    /// Replace a group's joint names (its dimension becomes their number);
    /// the datasets are kept as they are.
    pub fn with_urdf_joint_names(self, group: &str, names: Vec<String>) -> (r: Self)
        ensures
            entry_map(r.joint_groups@) == entry_map(self.joint_groups@).insert(
                group@,
                JointGroupConfig { names, dimension: names@.len() as usize },
            ),
            distinct_keys(self.joint_groups@) ==> distinct_keys(r.joint_groups@),
            r.datasets == self.datasets,
    {
        let dimension = names.len();
        let mut s = self;
        set_entry(&mut s.joint_groups, owned(group), JointGroupConfig { names, dimension });
        s
    }

    /// Get joint names for a group.
    pub fn get_joint_names(&self, group: &str) -> (r: Option<&[String]>)
        ensures
            match r {
                Some(n) => entry_map(self.joint_groups@).contains_key(group@) && n@ == entry_map(
                    self.joint_groups@,
                )[group@].names@,
                None => !entry_map(self.joint_groups@).contains_key(group@),
            },
    {
        match get_entry(&self.joint_groups, group) {
            Some(g) => Some(g.names.as_slice()),
            None => None,
        }
    }

    /// Get joint dimension for a group.
    pub fn get_joint_dimension(&self, group: &str) -> (r: Option<usize>)
        ensures
            match r {
                Some(d) => entry_map(self.joint_groups@).contains_key(group@) && d == entry_map(
                    self.joint_groups@,
                )[group@].dimension,
                None => !entry_map(self.joint_groups@).contains_key(group@),
            },
    {
        match get_entry(&self.joint_groups, group) {
            Some(g) => Some(g.dimension),
            None => None,
        }
    }

    /// Get all dataset specifications.
    pub fn datasets(&self) -> (r: &[DatasetSpec])
        ensures
            r@ == self.datasets@,
    {
        self.datasets.as_slice()
    }

    /// Add the original timestamp dataset of a sensor,
    /// `<sensor_name>_timestamps`.
    pub fn add_sensor_timestamp(&mut self, sensor_name: &str)
        ensures
            final(self).datasets@ == old(self).datasets@.push(final(self).datasets@.last()),
            dataset_view(final(self).datasets@.last()) == sensor_timestamp_view(sensor_name@),
            final(self).joint_groups == old(self).joint_groups,
    {
        let d = sensor_timestamp_dataset(sensor_name);
        self.datasets.push(d);
    }
}

} // verus!
