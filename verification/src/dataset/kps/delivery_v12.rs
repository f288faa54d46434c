//! v1.2 KPS deliveries: the statistics collected while writing, the names
//! of the series, task and URDF directories, the README, and where each
//! file of a converted episode goes.

use vstd::prelude::*;
use vstd::string::StringExecFns;
use crate::io::kps::config::KpsConfig;
use crate::text::{
    contains_seq, contains_str, decimal, lowercase, owned, push_decimal, str_eq, to_lowercase,
};

verus! {

/// Collects totals while episodes are written.
#[derive(Debug, Clone, Copy, Default)]
pub struct StatisticsCollector {
    /// Total bytes written
    pub total_bytes: u64,
    /// Number of episodes written
    pub episode_count: usize,
    /// Total frames written
    pub total_frames: usize,
    /// FPS for duration calculation
    pub fps: u32,
}

impl StatisticsCollector {
    /// Create a new collector with the specified FPS and zero totals.
    pub fn new(fps: u32) -> (r: Self)
        ensures
            r == (StatisticsCollector { total_bytes: 0, episode_count: 0, total_frames: 0, fps }),
    {
        StatisticsCollector { total_bytes: 0, episode_count: 0, total_frames: 0, fps }
    }

    /// Record a file write operation of `bytes` bytes.
    pub fn add_file(&mut self, bytes: u64)
        requires
            old(self).total_bytes + bytes <= u64::MAX,
        ensures
            *final(self) == (StatisticsCollector {
                total_bytes: (old(self).total_bytes + bytes) as u64,
                ..*old(self)
            }),
    {
        self.total_bytes = self.total_bytes + bytes;
    }

    /// Record an episode completion with `frames` frames.
    pub fn add_episode(&mut self, frames: usize)
        requires
            old(self).episode_count + 1 <= usize::MAX,
            old(self).total_frames + frames <= usize::MAX,
        ensures
            *final(self) == (StatisticsCollector {
                episode_count: (old(self).episode_count + 1) as usize,
                total_frames: (old(self).total_frames + frames) as usize,
                ..*old(self)
            }),
    {
        self.episode_count = self.episode_count + 1;
        self.total_frames = self.total_frames + frames;
    }
}

/// Configuration of a v1.2 delivery series.
#[derive(Debug, Clone)]
pub struct SeriesDeliveryConfig {
    /// Root directory
    pub root: String,
    /// Robot name
    pub robot_name: String,
    /// End effector name (Dexhand/Gripper)
    pub end_effector: String,
    /// Scene name
    pub scene_name: String,
    /// Sub-scene name
    pub sub_scene_name: String,
    /// Task name
    pub task_name: String,
    /// Version string
    pub version: String,
    /// The statistics part of the task directory's name
    /// (`{size}GB_{counts}counts_{duration}h`), once the statistics are known
    pub statistics: Option<String>,
}

impl Default for SeriesDeliveryConfig {
    fn default() -> (r: Self)
        ensures
            r.root@ == "F盘"@,
            r.robot_name@ == "Robot"@,
            r.end_effector@ == "Gripper"@,
            r.scene_name@ == "Scene1"@,
            r.sub_scene_name@ == "SubScene1"@,
            r.task_name@ == "Task1"@,
            r.version@ == "v1.0"@,
            r.statistics is None,
    {
        SeriesDeliveryConfig {
            root: owned("F盘"),
            robot_name: owned("Robot"),
            end_effector: owned("Gripper"),
            scene_name: owned("Scene1"),
            sub_scene_name: owned("SubScene1"),
            task_name: owned("Task1"),
            version: owned("v1.0"),
            statistics: None,
        }
    }
}

/// `{a}-{b}-{c}`
pub open spec fn dashed(a: Seq<char>, b: Seq<char>, c: Seq<char>) -> Seq<char> {
    a + "-"@ + b + "-"@ + c
}

fn dashed_string(a: &str, b: &str, c: &str) -> (r: String)
    ensures
        r@ == dashed(a@, b@, c@),
{
    let mut r = owned(a);
    r.append("-");
    r.append(b);
    r.append("-");
    r.append(c);
    r
}

impl SeriesDeliveryConfig {
    /// A series of version "v1.0" without statistics.
    pub fn new(
        root: &str,
        robot_name: String,
        end_effector: String,
        scene_name: String,
        sub_scene_name: String,
        task_name: String,
    ) -> (r: Self)
        ensures
            r.root@ == root@,
            r.robot_name == robot_name,
            r.end_effector == end_effector,
            r.scene_name == scene_name,
            r.sub_scene_name == sub_scene_name,
            r.task_name == task_name,
            r.version@ == "v1.0"@,
            r.statistics is None,
    {
        SeriesDeliveryConfig {
            root: owned(root),
            robot_name,
            end_effector,
            scene_name,
            sub_scene_name,
            task_name,
            version: owned("v1.0"),
            statistics: None,
        }
    }

    /// The same series with the statistics part of the task directory's
    /// name set.
    pub fn with_statistics(self, statistics: String) -> (r: Self)
        ensures
            r == (SeriesDeliveryConfig { statistics: Some(statistics), ..self }),
    {
        SeriesDeliveryConfig { statistics: Some(statistics), ..self }
    }

    /// `{robot}-{end_effector}-{scene}`
    pub open spec fn series_dir(&self) -> Seq<char> {
        dashed(self.robot_name@, self.end_effector@, self.scene_name@)
    }

    /// `{scene}-{sub_scene}-{task}`, then `-{statistics}` when known.
    pub open spec fn task_dir(&self) -> Seq<char> {
        let base = dashed(self.scene_name@, self.sub_scene_name@, self.task_name@);
        match self.statistics {
            Some(s) => base + "-"@ + s@,
            None => base,
        }
    }

    /// `{robot}-{end_effector}-{version}`
    pub open spec fn urdf_dir(&self) -> Seq<char> {
        dashed(self.robot_name@, self.end_effector@, self.version@)
    }

    /// The series directory's name.
    pub fn series_dir_name(&self) -> (r: String)
        ensures
            r@ == self.series_dir(),
    {
        dashed_string(self.robot_name.as_str(), self.end_effector.as_str(), self.scene_name.as_str())
    }

    /// The task directory's name.
    pub fn task_dir_name(&self) -> (r: String)
        ensures
            r@ == self.task_dir(),
    {
        let mut r = dashed_string(
            self.scene_name.as_str(),
            self.sub_scene_name.as_str(),
            self.task_name.as_str(),
        );
        match &self.statistics {
            Some(s) => {
                r.append("-");
                r.append(s.as_str());
            },
            None => {},
        }
        r
    }

    /// The URDF directory's name.
    pub fn urdf_dir_name(&self) -> (r: String)
        ensures
            r@ == self.urdf_dir(),
    {
        dashed_string(self.robot_name.as_str(), self.end_effector.as_str(), self.version.as_str())
    }

    /// The name of the task directory while the statistics are not yet
    /// known: `{task}_temp`.
    pub fn placeholder_task_dir_name(&self) -> (r: String)
        ensures
            r@ == self.task_name@ + "_temp"@,
    {
        let mut r = self.task_name.clone();
        r.append("_temp");
        r
    }
}

/// The README of a v1.2 delivery series.
pub open spec fn readme_v12(c: SeriesDeliveryConfig, name: Seq<char>, fps: u32) -> Seq<char> {
    "# Kps v1.2 Dataset: "@ + name + "\n\n"@
        + "## Dataset Information (v1.2 Specification)\n\n"@
        + "- **Robot**: "@ + c.robot_name@ + " "@ + c.end_effector@ + "\n"@
        + "- **Scene**: "@ + c.scene_name@ + "\n"@
        + "- **Sub-Scene**: "@ + c.sub_scene_name@ + "\n"@
        + "- **Task**: "@ + c.task_name@ + "\n"@
        + "- **FPS**: "@ + decimal(fps as nat) + "\n\n"@
        + "## v1.2 Directory Structure\n\n"@
        + "```\n"@ + c.series_dir() + "/\n"@
        + readme_tree()
        + "    └── "@ + c.urdf_dir() + "/\n"@
        + "```\n\n"@
        + "## Task Info\n\n"@
        + "Task information is located in `task_info/"@ + c.task_name@ + ".json`.\n\n"@
        + "## URDF\n\n"@
        + "Robot URDF and calibration are located in `URDF/"@ + c.urdf_dir() + "`.\n\n"@
        + "## Usage\n\n"@
        + "```python\nimport kps\n# Load episode by UUID\n```\n\n"@
        + "---\nGenerated by roboflow - Kps v1.2 compliant\n"@
}

/// The directory tree drawn in the README.
pub open spec fn readme_tree() -> Seq<char> {
    "├── task_info/           # Task metadata at series level\n"@
        + "├── <Scene>/             # Scene directory\n"@
        + "│   └── <SubScene>/      # SubScene directory\n"@
        + "│       └── <Task>-<info>/\n"@
        + "│           └── <UUID>/  # Episode UUID\n"@
        + "│               ├── camera/\n"@
        + "│               │   ├── video/       # Color videos\n"@
        + "│               │   └── depth/       # Depth videos\n"@
        + "│               ├── parameters/      # Camera parameters\n"@
        + "│               ├── proprio_stats/   # HDF5 state files\n"@
        + "│               └── audio/           # Audio recordings\n"@
        + "└── URDF/                # Robot URDF at series level\n"@
}

/// The README of a v1.2 delivery series of `config` for the dataset of
/// `dataset_config`.
pub fn readme_v12_content(config: &SeriesDeliveryConfig, dataset_config: &KpsConfig) -> (r: String)
    ensures
        r@ == readme_v12(*config, dataset_config.dataset.name@, dataset_config.dataset.fps),
{
    let series_name = config.series_dir_name();
    let urdf_dir_name = config.urdf_dir_name();
    let mut c = owned("# Kps v1.2 Dataset: ");
    c.append(dataset_config.dataset.name.as_str());
    c.append("\n\n");
    c.append("## Dataset Information (v1.2 Specification)\n\n");
    c.append("- **Robot**: ");
    c.append(config.robot_name.as_str());
    c.append(" ");
    c.append(config.end_effector.as_str());
    c.append("\n");
    c.append("- **Scene**: ");
    c.append(config.scene_name.as_str());
    c.append("\n");
    c.append("- **Sub-Scene**: ");
    c.append(config.sub_scene_name.as_str());
    c.append("\n");
    c.append("- **Task**: ");
    c.append(config.task_name.as_str());
    c.append("\n");
    c.append("- **FPS**: ");
    push_decimal(&mut c, dataset_config.dataset.fps as u64);
    c.append("\n\n");
    c.append("## v1.2 Directory Structure\n\n");
    c.append("```\n");
    c.append(series_name.as_str());
    c.append("/\n");
    c.append("├── task_info/           # Task metadata at series level\n");
    c.append("├── <Scene>/             # Scene directory\n");
    c.append("│   └── <SubScene>/      # SubScene directory\n");
    c.append("│       └── <Task>-<info>/\n");
    c.append("│           └── <UUID>/  # Episode UUID\n");
    c.append("│               ├── camera/\n");
    c.append("│               │   ├── video/       # Color videos\n");
    c.append("│               │   └── depth/       # Depth videos\n");
    c.append("│               ├── parameters/      # Camera parameters\n");
    c.append("│               ├── proprio_stats/   # HDF5 state files\n");
    c.append("│               └── audio/           # Audio recordings\n");
    c.append("└── URDF/                # Robot URDF at series level\n");
    c.append("    └── ");
    c.append(urdf_dir_name.as_str());
    c.append("/\n");
    c.append("```\n\n");
    c.append("## Task Info\n\n");
    c.append("Task information is located in `task_info/");
    c.append(config.task_name.as_str());
    c.append(".json`.\n\n");
    c.append("## URDF\n\n");
    c.append("Robot URDF and calibration are located in `URDF/");
    c.append(urdf_dir_name.as_str());
    c.append("`.\n\n");
    c.append("## Usage\n\n");
    c.append("```python\nimport kps\n# Load episode by UUID\n```\n\n");
    c.append("---\nGenerated by roboflow - Kps v1.2 compliant\n");
    assert(c@ =~= readme_v12(*config, dataset_config.dataset.name@, dataset_config.dataset.fps));
    c
}

/// Builder of a series configuration, starting from the default one.
#[derive(Debug, Clone)]
pub struct SeriesDeliveryConfigBuilder {
    config: SeriesDeliveryConfig,
}

impl SeriesDeliveryConfigBuilder {
    /// The configuration built so far.
    pub closed spec fn current(&self) -> SeriesDeliveryConfig {
        self.config
    }

    /// A builder of the default configuration.
    pub fn new() -> (r: Self)
        ensures
            r.current().root@ == "F盘"@,
            r.current().robot_name@ == "Robot"@,
            r.current().end_effector@ == "Gripper"@,
            r.current().scene_name@ == "Scene1"@,
            r.current().sub_scene_name@ == "SubScene1"@,
            r.current().task_name@ == "Task1"@,
            r.current().version@ == "v1.0"@,
            r.current().statistics is None,
    {
        SeriesDeliveryConfigBuilder { config: SeriesDeliveryConfig::default() }
    }

    /// Set the root directory.
    pub fn root(self, root: &str) -> (r: Self)
        ensures
            r.current().root@ == root@,
            r.current() == (SeriesDeliveryConfig { root: r.current().root, ..self.current() }),
    {
        SeriesDeliveryConfigBuilder { config: SeriesDeliveryConfig { root: owned(root), ..self.config } }
    }

    /// Set the robot name.
    pub fn robot(self, robot: String) -> (r: Self)
        ensures
            r.current() == (SeriesDeliveryConfig { robot_name: robot, ..self.current() }),
    {
        SeriesDeliveryConfigBuilder { config: SeriesDeliveryConfig { robot_name: robot, ..self.config } }
    }

    /// Set the end effector.
    pub fn end_effector(self, end_effector: String) -> (r: Self)
        ensures
            r.current() == (SeriesDeliveryConfig { end_effector, ..self.current() }),
    {
        SeriesDeliveryConfigBuilder { config: SeriesDeliveryConfig { end_effector, ..self.config } }
    }

    /// Set the scene name.
    pub fn scene(self, scene: String) -> (r: Self)
        ensures
            r.current() == (SeriesDeliveryConfig { scene_name: scene, ..self.current() }),
    {
        SeriesDeliveryConfigBuilder { config: SeriesDeliveryConfig { scene_name: scene, ..self.config } }
    }

    /// Set the sub-scene name.
    pub fn sub_scene(self, sub_scene: String) -> (r: Self)
        ensures
            r.current() == (SeriesDeliveryConfig { sub_scene_name: sub_scene, ..self.current() }),
    {
        SeriesDeliveryConfigBuilder {
            config: SeriesDeliveryConfig { sub_scene_name: sub_scene, ..self.config },
        }
    }

    /// Set the task name.
    pub fn task(self, task: String) -> (r: Self)
        ensures
            r.current() == (SeriesDeliveryConfig { task_name: task, ..self.current() }),
    {
        SeriesDeliveryConfigBuilder { config: SeriesDeliveryConfig { task_name: task, ..self.config } }
    }

    /// Set the version.
    pub fn version(self, version: String) -> (r: Self)
        ensures
            r.current() == (SeriesDeliveryConfig { version, ..self.current() }),
    {
        SeriesDeliveryConfigBuilder { config: SeriesDeliveryConfig { version, ..self.config } }
    }

    /// Set the statistics part of the task directory's name.
    pub fn statistics(self, statistics: String) -> (r: Self)
        ensures
            r.current() == (SeriesDeliveryConfig { statistics: Some(statistics), ..self.current() }),
    {
        SeriesDeliveryConfigBuilder {
            config: SeriesDeliveryConfig { statistics: Some(statistics), ..self.config },
        }
    }

    /// The configuration.
    pub fn build(self) -> (r: SeriesDeliveryConfig)
        ensures
            r == self.current(),
    {
        self.config
    }
}

impl Default for SeriesDeliveryConfigBuilder {
    fn default() -> (r: Self)
        ensures
            r.current().root@ == "F盘"@,
            r.current().robot_name@ == "Robot"@,
            r.current().end_effector@ == "Gripper"@,
            r.current().scene_name@ == "Scene1"@,
            r.current().sub_scene_name@ == "SubScene1"@,
            r.current().task_name@ == "Task1"@,
            r.current().version@ == "v1.0"@,
            r.current().statistics is None,
    {
        Self::new()
    }
}

/// The index of the last '.' in `s`, if any.
pub open spec fn last_dot(s: Seq<char>) -> Option<int>
    decreases s.len(),
{
    if s.len() == 0 {
        None
    } else if s.last() == '.' {
        Some(s.len() - 1)
    } else {
        last_dot(s.drop_last())
    }
}

/// The extension of a file name, as `Path::extension` gives it: what
/// follows the last '.', unless there is none, the only one begins the
/// name, or the name is "..".
pub open spec fn extension_of(name: Seq<char>) -> Option<Seq<char>> {
    if name == ".."@ {
        None
    } else {
        match last_dot(name) {
            Some(i) => if i == 0 {
                None
            } else {
                Some(name.subrange(i + 1, name.len() as int))
            },
            None => None,
        }
    }
}

proof fn lemma_last_dot_bound(s: Seq<char>)
    ensures
        last_dot(s) matches Some(i) ==> 0 <= i < s.len() && s[i] == '.',
    decreases s.len(),
{
    if s.len() > 0 && s.last() != '.' {
        lemma_last_dot_bound(s.drop_last());
    }
}

/// The extension of the file name `name`.
pub fn file_extension(name: &str) -> (r: Option<String>)
    ensures
        match (r, extension_of(name@)) {
            (Some(e), Some(x)) => e@ == x,
            (None, None) => true,
            _ => false,
        },
{
    let n = name.unicode_len();
    let mut last: Option<usize> = None;
    let mut i: usize = 0;
    while i < n
        invariant
            0 <= i <= n,
            n == name@.len(),
            match last {
                Some(k) => last_dot(name@.take(i as int)) == Some(k as int),
                None => last_dot(name@.take(i as int)) is None,
            },
        decreases n - i,
    {
        proof {
            assert(name@.take(i + 1).drop_last() =~= name@.take(i as int));
        }
        if name.get_char(i) == '.' {
            last = Some(i);
        }
        i = i + 1;
    }
    proof {
        assert(name@.take(n as int) =~= name@);
        lemma_last_dot_bound(name@);
        reveal_strlit("..");
    }
    if str_eq(name, "..") {
        return None;
    }
    match last {
        Some(k) => if k == 0 {
            None
        } else {
            Some(owned(name.substring_char(k + 1, n)))
        },
        None => None,
    }
}

/// Where a file of a converted episode was found: in its `videos`
/// directory, at its top level, or in its `meta` directory.
#[derive(Debug, Clone, Copy, PartialEq, Eq, Structural)]
pub enum V12Source {
    Videos,
    Top,
    Meta,
}

/// Where a file goes in a v1.2 episode directory.
#[derive(Debug, Clone, Copy, PartialEq, Eq, Structural)]
pub enum V12Target {
    /// `camera/video`
    CameraVideo,
    /// `camera/depth`
    CameraDepth,
    /// `parameters`
    Parameters,
    /// `proprio_stats`
    ProprioStats,
    /// `audio`
    Audio,
}

/// Where a file named `name` found at `source` goes: video files by
/// whether their lowercase name mentions "depth"; top-level HDF5 files to
/// the proprioceptive statistics and audio files (wav, mp3, ogg, flac) to
/// the audio; meta files that mention a camera, intrinsics, extrinsics or
/// calibration to the parameters. Other files are not copied.
pub open spec fn v12_target_of(source: V12Source, name: Seq<char>, is_file: bool) -> Option<V12Target> {
    match source {
        V12Source::Videos => if !is_file {
            None
        } else if contains_seq(lowercase(name), "depth"@) {
            Some(V12Target::CameraDepth)
        } else {
            Some(V12Target::CameraVideo)
        },
        V12Source::Top => match extension_of(name) {
            Some(e) => if e == "hdf5"@ {
                Some(V12Target::ProprioStats)
            } else if e == "wav"@ || e == "mp3"@ || e == "ogg"@ || e == "flac"@ {
                Some(V12Target::Audio)
            } else {
                None
            },
            None => None,
        },
        V12Source::Meta => if contains_seq(name, "camera"@) || contains_seq(name, "intrinsics"@)
            || contains_seq(name, "extrinsics"@) || contains_seq(name, "calibration"@) {
            Some(V12Target::Parameters)
        } else {
            None
        },
    }
}

/// Routing of top-level episode files by extension: `hdf5` goes to the
/// proprioceptive statistics; each of `wav`, `mp3`, `ogg` and `flac` goes to
/// the audio; any other extension, or none, is not copied. Routing of the
/// videos directory: every regular file is copied, to the depth camera
/// directory exactly when its lowercased name mentions "depth". Meta files
/// go to the parameters exactly when their name mentions a camera,
/// intrinsics, extrinsics or calibration.
pub proof fn law_v12_routing(name: Seq<char>, is_file: bool)
    ensures
        extension_of(name) == Some("hdf5"@) ==> v12_target_of(V12Source::Top, name, is_file)
            == Some(V12Target::ProprioStats),
        extension_of(name) == Some("wav"@) ==> v12_target_of(V12Source::Top, name, is_file)
            == Some(V12Target::Audio),
        extension_of(name) == Some("mp3"@) ==> v12_target_of(V12Source::Top, name, is_file)
            == Some(V12Target::Audio),
        extension_of(name) == Some("ogg"@) ==> v12_target_of(V12Source::Top, name, is_file)
            == Some(V12Target::Audio),
        extension_of(name) == Some("flac"@) ==> v12_target_of(V12Source::Top, name, is_file)
            == Some(V12Target::Audio),
        (match extension_of(name) {
            Some(e) => e != "hdf5"@ && e != "wav"@ && e != "mp3"@ && e != "ogg"@ && e != "flac"@,
            None => true,
        }) ==> v12_target_of(V12Source::Top, name, is_file) is None,
        !is_file ==> v12_target_of(V12Source::Videos, name, is_file) is None,
        is_file && contains_seq(lowercase(name), "depth"@) ==> v12_target_of(
            V12Source::Videos,
            name,
            is_file,
        ) == Some(V12Target::CameraDepth),
        is_file && !contains_seq(lowercase(name), "depth"@) ==> v12_target_of(
            V12Source::Videos,
            name,
            is_file,
        ) == Some(V12Target::CameraVideo),
        (v12_target_of(V12Source::Meta, name, is_file) == Some(V12Target::Parameters)) <==> (
        contains_seq(name, "camera"@) || contains_seq(name, "intrinsics"@) || contains_seq(
            name,
            "extrinsics"@,
        ) || contains_seq(name, "calibration"@)),
        v12_target_of(V12Source::Meta, name, is_file) is None || v12_target_of(
            V12Source::Meta,
            name,
            is_file,
        ) == Some(V12Target::Parameters),
{
    reveal_strlit("hdf5");
    reveal_strlit("wav");
    reveal_strlit("mp3");
    reveal_strlit("ogg");
    reveal_strlit("flac");
    assert("hdf5"@ != "wav"@ && "hdf5"@ != "mp3"@ && "hdf5"@ != "ogg"@ && "hdf5"@ != "flac"@) by {
        assert("hdf5"@[0] != "wav"@[0]);
        assert("hdf5"@[0] != "mp3"@[0]);
        assert("hdf5"@[0] != "ogg"@[0]);
        assert("hdf5"@[0] != "flac"@[0]);
    }
}

/// Where the file named `name` found at `source` goes in a v1.2 episode
/// directory, if anywhere; `is_file` tells whether it is a regular file.
pub fn v12_target(source: V12Source, name: &str, is_file: bool) -> (r: Option<V12Target>)
    ensures
        r == v12_target_of(source, name@, is_file),
{
    match source {
        V12Source::Videos => {
            if !is_file {
                None
            } else {
                let lower = to_lowercase(name);
                if contains_str(lower.as_str(), "depth") {
                    Some(V12Target::CameraDepth)
                } else {
                    Some(V12Target::CameraVideo)
                }
            }
        },
        V12Source::Top => match file_extension(name) {
            Some(e) => {
                let e = e.as_str();
                if str_eq(e, "hdf5") {
                    Some(V12Target::ProprioStats)
                } else if str_eq(e, "wav") || str_eq(e, "mp3") || str_eq(e, "ogg") || str_eq(e, "flac") {
                    Some(V12Target::Audio)
                } else {
                    None
                }
            },
            None => None,
        },
        V12Source::Meta => {
            if contains_str(name, "camera") || contains_str(name, "intrinsics") || contains_str(
                name,
                "extrinsics",
            ) || contains_str(name, "calibration") {
                Some(V12Target::Parameters)
            } else {
                None
            }
        },
    }
}

/// The directory of a target, relative to the episode directory.
pub open spec fn target_dir(t: V12Target) -> Seq<char> {
    match t {
        V12Target::CameraVideo => "camera/video"@,
        V12Target::CameraDepth => "camera/depth"@,
        V12Target::Parameters => "parameters"@,
        V12Target::ProprioStats => "proprio_stats"@,
        V12Target::Audio => "audio"@,
    }
}

/// The directory of a target, relative to the episode directory.
pub fn v12_target_dir(t: V12Target) -> (r: &'static str)
    ensures
        r@ == target_dir(t),
{
    match t {
        V12Target::CameraVideo => "camera/video",
        V12Target::CameraDepth => "camera/depth",
        V12Target::Parameters => "parameters",
        V12Target::ProprioStats => "proprio_stats",
        V12Target::Audio => "audio",
    }
}

/// Builder of v1.2 delivery structures; the copying itself is done where
/// files can be written.
pub struct V12DeliveryBuilder;

} // verus!
