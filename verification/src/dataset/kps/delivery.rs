//! Delivery layout of KPS datasets: where a delivery goes and what it is
//! named.

use vstd::prelude::*;
use vstd::string::StringExecFns;
use crate::io::kps::config::KpsConfig;
use crate::text::{decimal, join, join_path, owned, push_decimal, starts_with_char};

verus! {

/// Configuration of a dataset delivery.
#[derive(Debug, Clone)]
pub struct DeliveryConfig {
    /// Directory the delivery is created in
    pub root: String,
    /// Robot name
    pub robot_name: String,
    /// End effector name
    pub end_effector: String,
    /// Scene name
    pub scene_name: String,
    /// Delivery format version
    pub version: String,
}

impl Default for DeliveryConfig {
    /// Root "F盘", robot "Robot", end effector "Gripper", scene "Scene1",
    /// version "v1.0".
    fn default() -> (r: Self)
        ensures
            r.root@ == "F盘"@,
            r.robot_name@ == "Robot"@,
            r.end_effector@ == "Gripper"@,
            r.scene_name@ == "Scene1"@,
            r.version@ == "v1.0"@,
    {
        DeliveryConfig {
            root: owned("F盘"),
            robot_name: owned("Robot"),
            end_effector: owned("Gripper"),
            scene_name: owned("Scene1"),
            version: owned("v1.0"),
        }
    }
}

impl DeliveryConfig {
    /// A delivery configuration of version "v1.0".
    pub fn new(root: &str, robot_name: String, end_effector: String, scene_name: String) -> (r: Self)
        ensures
            r.root@ == root@,
            r.robot_name == robot_name,
            r.end_effector == end_effector,
            r.scene_name == scene_name,
            r.version@ == "v1.0"@,
    {
        DeliveryConfig { root: owned(root), robot_name, end_effector, scene_name, version: owned("v1.0") }
    }

    /// The name of the delivery directory under the root:
    /// `robot-end_effector-scene`.
    pub open spec fn dir_name(&self) -> Seq<char> {
        self.robot_name@ + "-"@ + self.end_effector@ + "-"@ + self.scene_name@
    }

    /// The name of the delivery directory under the root.
    pub fn delivery_dir_name(&self) -> (r: String)
        ensures
            r@ == self.dir_name(),
    {
        let mut name = self.robot_name.clone();
        name.append("-");
        name.append(self.end_effector.as_str());
        name.append("-");
        name.append(self.scene_name.as_str());
        assert(name@ =~= self.dir_name());
        name
    }
}

/// The path `name` under `base`, as `Path::join` forms it: `name` itself
/// when it starts with '/'.
pub open spec fn path_under(base: Seq<char>, name: Seq<char>) -> Seq<char> {
    if name.len() > 0 && name[0] == '/' {
        name
    } else {
        join_path(base, name)
    }
}

impl DeliveryConfig {
    /// The delivery directory: the directory named by `dir_name` under
    /// the root.
    pub open spec fn delivery_root(&self) -> Seq<char> {
        path_under(self.root@, self.dir_name())
    }

    /// The name of the URDF directory: `robot-end_effector-version`.
    pub fn urdf_dir_name(&self) -> (r: String)
        ensures
            r@ == self.robot_name@ + "-"@ + self.end_effector@ + "-"@ + self.version@,
    {
        let mut name = self.robot_name.clone();
        name.append("-");
        name.append(self.end_effector.as_str());
        name.append("-");
        name.append(self.version.as_str());
        name
    }

    /// The path of the delivery directory.
    pub fn delivery_root_path(&self) -> (r: String)
        ensures
            r@ == self.delivery_root(),
    {
        let name = self.delivery_dir_name();
        if starts_with_char(name.as_str(), '/') {
            name
        } else {
            join(self.root.as_str(), name.as_str())
        }
    }
}

/// The README of a delivery, as its template fills in: the dataset name,
/// robot and end effector in the title; then, in order, the robot and end
/// effector, the scene (as end effector), the frame rate (as scene), the
/// robot (as FPS), the end effector and version in the URDF directory, and
/// the delivery directory in the usage example.
pub open spec fn readme_v1(c: DeliveryConfig, name: Seq<char>, fps: u32) -> Seq<char> {
    "# Kps Dataset: "@ + name + " "@ + c.robot_name@ + " "@ + c.end_effector@ + "\n\n"@
        + "## Dataset Information\n\n"@
        + "- **Robot**: "@ + c.robot_name@ + " "@ + c.end_effector@ + "\n"@
        + "- **End Effector**: "@ + c.scene_name@ + "\n"@
        + "- **Scene**: "@ + decimal(fps as nat) + "\n"@
        + "- **FPS**: "@ + c.robot_name@ + "\n"@
        + "- **Episodes**: 1\n\n"@
        + "## Structure\n\n"@
        + "```\nepisode_0/\n├── meta/           # Dataset metadata\n├── videos/         # Video recordings\n└── *.parquet       # Episode data\n```\n\n"@
        + "## URDF\n\n"@
        + "Robot URDF and calibration are located in `URDF/"@ + c.end_effector@ + "-"@ + c.version@ + "/`.\n\n"@
        + "## Usage\n\n"@
        + "```python\nimport kps\nenv = kps.make(\""@ + c.delivery_root() + "\")\n```\n\n"@
        + "---\nGenerated by roboflow\n"@
}

/// The README of a delivery of `config` for the dataset of
/// `dataset_config`.
pub fn readme_v1_content(config: &DeliveryConfig, dataset_config: &KpsConfig) -> (r: String)
    ensures
        r@ == readme_v1(*config, dataset_config.dataset.name@, dataset_config.dataset.fps),
{
    let root = config.delivery_root_path();
    let mut c = owned("# Kps Dataset: ");
    c.append(dataset_config.dataset.name.as_str());
    c.append(" ");
    c.append(config.robot_name.as_str());
    c.append(" ");
    c.append(config.end_effector.as_str());
    c.append("\n\n");
    c.append("## Dataset Information\n\n");
    c.append("- **Robot**: ");
    c.append(config.robot_name.as_str());
    c.append(" ");
    c.append(config.end_effector.as_str());
    c.append("\n");
    c.append("- **End Effector**: ");
    c.append(config.scene_name.as_str());
    c.append("\n");
    c.append("- **Scene**: ");
    push_decimal(&mut c, dataset_config.dataset.fps as u64);
    c.append("\n");
    c.append("- **FPS**: ");
    c.append(config.robot_name.as_str());
    c.append("\n");
    c.append("- **Episodes**: 1\n\n");
    c.append("## Structure\n\n");
    c.append("```\nepisode_0/\n├── meta/           # Dataset metadata\n├── videos/         # Video recordings\n└── *.parquet       # Episode data\n```\n\n");
    c.append("## URDF\n\n");
    c.append("Robot URDF and calibration are located in `URDF/");
    c.append(config.end_effector.as_str());
    c.append("-");
    c.append(config.version.as_str());
    c.append("/`.\n\n");
    c.append("## Usage\n\n");
    c.append("```python\nimport kps\nenv = kps.make(\"");
    c.append(root.as_str());
    c.append("\")\n```\n\n");
    c.append("---\nGenerated by roboflow\n");
    assert(c@ =~= readme_v1(*config, dataset_config.dataset.name@, dataset_config.dataset.fps));
    c
}

/// Builder of delivery directory structures; the copying itself is done
/// where files can be written.
pub struct DeliveryBuilder;

} // verus!
