//! Task metadata (`task_info` JSON) of KPS episodes, and its builders.

use vstd::prelude::*;
use vstd::string::{StrSliceExecFns, StringExecFns};
use crate::clock::unix_seconds;
use crate::text::{chars_of, decimal, owned, push_decimal};

verus! {

/// Task metadata of one episode.
#[derive(Debug, Clone)]
pub struct TaskInfo {
    pub episode_id: String,
    pub scene_name: String,
    pub sub_scene_name: String,
    pub init_scene_text: String,
    pub english_init_scene_text: String,
    pub task_name: String,
    pub english_task_name: String,
    pub data_type: String,
    pub episode_status: String,
    pub data_gen_mode: String,
    pub sn_code: String,
    pub sn_name: String,
    pub label_info: LabelInfo,
}

/// Action labels and key frames of an episode.
#[derive(Debug, Clone)]
pub struct LabelInfo {
    pub action_config: Vec<ActionSegment>,
    pub key_frame: Vec<KeyFrame>,
}

/// One labelled action.
#[derive(Debug, Clone)]
pub struct ActionSegment {
    pub start_frame: u64,
    pub end_frame: u64,
    pub timestamp_utc: String,
    pub action_text: String,
    pub skill: String,
    pub is_mistake: bool,
    pub english_action_text: String,
}

/// A key frame of an episode.
#[derive(Debug, Clone)]
pub struct KeyFrame {
    pub frame_number: u64,
    pub description: String,
    pub importance: String,
}

/// Builder of a [`TaskInfo`].
#[derive(Debug, Clone)]
pub struct TaskInfoBuilder {
    episode_id: Option<String>,
    scene_name: Option<String>,
    sub_scene_name: Option<String>,
    init_scene_text: Option<String>,
    english_init_scene_text: Option<String>,
    task_name: Option<String>,
    english_task_name: Option<String>,
    data_type: Option<String>,
    episode_status: Option<String>,
    data_gen_mode: Option<String>,
    sn_code: Option<String>,
    sn_name: Option<String>,
    action_segments: Vec<ActionSegment>,
}

/// The characters of an optional string.
pub open spec fn opt_view(o: Option<String>) -> Option<Seq<char>> {
    match o {
        Some(s) => Some(s@),
        None => None,
    }
}

/// The characters of `o`, or `d` when it is missing.
pub open spec fn or_default(o: Option<Seq<char>>, d: Seq<char>) -> Seq<char> {
    match o {
        Some(s) => s,
        None => d,
    }
}

/// The fields of a task info builder, as characters.
pub struct TaskInfoFields {
    pub episode_id: Option<Seq<char>>,
    pub scene_name: Option<Seq<char>>,
    pub sub_scene_name: Option<Seq<char>>,
    pub init_scene_text: Option<Seq<char>>,
    pub english_init_scene_text: Option<Seq<char>>,
    pub task_name: Option<Seq<char>>,
    pub english_task_name: Option<Seq<char>>,
    pub data_type: Option<Seq<char>>,
    pub episode_status: Option<Seq<char>>,
    pub data_gen_mode: Option<Seq<char>>,
    pub sn_code: Option<Seq<char>>,
    pub sn_name: Option<Seq<char>>,
}

/// The error `build` reports: the first required field that is missing.
pub open spec fn first_missing(f: TaskInfoFields) -> Option<Seq<char>> {
    if f.episode_id is None {
        Some("episode_id is required"@)
    } else if f.scene_name is None {
        Some("scene_name is required"@)
    } else if f.sub_scene_name is None {
        Some("sub_scene_name is required"@)
    } else if f.init_scene_text is None {
        Some("init_scene_text is required"@)
    } else if f.english_init_scene_text is None {
        Some("english_init_scene_text is required"@)
    } else if f.task_name is None {
        Some("task_name is required"@)
    } else if f.english_task_name is None {
        Some("english_task_name is required"@)
    } else if f.sn_code is None {
        Some("sn_code is required"@)
    } else if f.sn_name is None {
        Some("sn_name is required"@)
    } else {
        None
    }
}

/// `t` holds the builder fields `f` (defaults where the optional ones are
/// missing) and the action segments `segs`, with no key frames.
pub open spec fn built_from(t: TaskInfo, f: TaskInfoFields, segs: Seq<ActionSegment>) -> bool {
    &&& Some(t.episode_id@) == f.episode_id
    &&& Some(t.scene_name@) == f.scene_name
    &&& Some(t.sub_scene_name@) == f.sub_scene_name
    &&& Some(t.init_scene_text@) == f.init_scene_text
    &&& Some(t.english_init_scene_text@) == f.english_init_scene_text
    &&& Some(t.task_name@) == f.task_name
    &&& Some(t.english_task_name@) == f.english_task_name
    &&& t.data_type@ == or_default(f.data_type, "常规"@)
    &&& t.episode_status@ == or_default(f.episode_status, "approved"@)
    &&& t.data_gen_mode@ == or_default(f.data_gen_mode, "real_machine"@)
    &&& Some(t.sn_code@) == f.sn_code
    &&& Some(t.sn_name@) == f.sn_name
    &&& t.label_info.action_config@ == segs
    &&& t.label_info.key_frame@.len() == 0
}

/// Take a required field, or fail with its message.
fn required(o: Option<String>, message: &str) -> (r: Result<String, String>)
    ensures
        match o {
            Some(s) => r == Ok::<String, String>(s),
            None => r matches Err(m) && m@ == message@,
        },
{
    match o {
        Some(s) => Ok(s),
        None => Err(owned(message)),
    }
}

/// Take an optional field, or its default.
fn or_else(o: Option<String>, default: &str) -> (r: String)
    ensures
        r@ == or_default(opt_view(o), default@),
{
    match o {
        Some(s) => s,
        None => owned(default),
    }
}

impl TaskInfoBuilder {
    /// The builder's fields, as characters.
    pub closed spec fn fields(&self) -> TaskInfoFields {
        TaskInfoFields {
            episode_id: opt_view(self.episode_id),
            scene_name: opt_view(self.scene_name),
            sub_scene_name: opt_view(self.sub_scene_name),
            init_scene_text: opt_view(self.init_scene_text),
            english_init_scene_text: opt_view(self.english_init_scene_text),
            task_name: opt_view(self.task_name),
            english_task_name: opt_view(self.english_task_name),
            data_type: opt_view(self.data_type),
            episode_status: opt_view(self.episode_status),
            data_gen_mode: opt_view(self.data_gen_mode),
            sn_code: opt_view(self.sn_code),
            sn_name: opt_view(self.sn_name),
        }
    }

    /// The action segments added so far.
    pub closed spec fn segments(&self) -> Seq<ActionSegment> {
        self.action_segments@
    }

    /// A builder with no fields set but the defaults: data type "常规",
    /// status "approved", generation mode "real_machine"; no segments.
    pub fn new() -> (r: Self)
        ensures
            r.fields() == (TaskInfoFields {
                episode_id: None,
                scene_name: None,
                sub_scene_name: None,
                init_scene_text: None,
                english_init_scene_text: None,
                task_name: None,
                english_task_name: None,
                data_type: Some("常规"@),
                episode_status: Some("approved"@),
                data_gen_mode: Some("real_machine"@),
                sn_code: None,
                sn_name: None,
            }),
            r.segments().len() == 0,
    {
        TaskInfoBuilder {
            episode_id: None,
            scene_name: None,
            sub_scene_name: None,
            init_scene_text: None,
            english_init_scene_text: None,
            task_name: None,
            english_task_name: None,
            data_type: Some(owned("常规")),
            episode_status: Some(owned("approved")),
            data_gen_mode: Some(owned("real_machine")),
            sn_code: None,
            sn_name: None,
            action_segments: Vec::new(),
        }
    }

    /// Set the episode ID.
    pub fn episode_id(self, id: &str) -> (r: Self)
        ensures
            r.fields() == (TaskInfoFields { episode_id: Some(id@), ..self.fields() }),
            r.segments() == self.segments(),
    {
        TaskInfoBuilder { episode_id: Some(owned(id)), ..self }
    }

    /// Set the scene name.
    pub fn scene_name(self, name: &str) -> (r: Self)
        ensures
            r.fields() == (TaskInfoFields { scene_name: Some(name@), ..self.fields() }),
            r.segments() == self.segments(),
    {
        TaskInfoBuilder { scene_name: Some(owned(name)), ..self }
    }

    /// Set the sub-scene name.
    pub fn sub_scene_name(self, name: &str) -> (r: Self)
        ensures
            r.fields() == (TaskInfoFields { sub_scene_name: Some(name@), ..self.fields() }),
            r.segments() == self.segments(),
    {
        TaskInfoBuilder { sub_scene_name: Some(owned(name)), ..self }
    }

    /// Set the initial scene description.
    pub fn init_scene_text(self, text: &str) -> (r: Self)
        ensures
            r.fields() == (TaskInfoFields { init_scene_text: Some(text@), ..self.fields() }),
            r.segments() == self.segments(),
    {
        TaskInfoBuilder { init_scene_text: Some(owned(text)), ..self }
    }

    /// Set the English initial scene description.
    pub fn english_init_scene_text(self, text: &str) -> (r: Self)
        ensures
            r.fields() == (TaskInfoFields { english_init_scene_text: Some(text@), ..self.fields() }),
            r.segments() == self.segments(),
    {
        TaskInfoBuilder { english_init_scene_text: Some(owned(text)), ..self }
    }

    /// Set the task name.
    pub fn task_name(self, name: &str) -> (r: Self)
        ensures
            r.fields() == (TaskInfoFields { task_name: Some(name@), ..self.fields() }),
            r.segments() == self.segments(),
    {
        TaskInfoBuilder { task_name: Some(owned(name)), ..self }
    }

    /// Set the English task name.
    pub fn english_task_name(self, name: &str) -> (r: Self)
        ensures
            r.fields() == (TaskInfoFields { english_task_name: Some(name@), ..self.fields() }),
            r.segments() == self.segments(),
    {
        TaskInfoBuilder { english_task_name: Some(owned(name)), ..self }
    }

    /// Set the data type.
    pub fn data_type(self, data_type: &str) -> (r: Self)
        ensures
            r.fields() == (TaskInfoFields { data_type: Some(data_type@), ..self.fields() }),
            r.segments() == self.segments(),
    {
        TaskInfoBuilder { data_type: Some(owned(data_type)), ..self }
    }

    /// Set the episode status.
    pub fn episode_status(self, status: &str) -> (r: Self)
        ensures
            r.fields() == (TaskInfoFields { episode_status: Some(status@), ..self.fields() }),
            r.segments() == self.segments(),
    {
        TaskInfoBuilder { episode_status: Some(owned(status)), ..self }
    }

    /// Set the data generation mode.
    pub fn data_gen_mode(self, mode: &str) -> (r: Self)
        ensures
            r.fields() == (TaskInfoFields { data_gen_mode: Some(mode@), ..self.fields() }),
            r.segments() == self.segments(),
    {
        TaskInfoBuilder { data_gen_mode: Some(owned(mode)), ..self }
    }

    /// Set the device serial code.
    pub fn sn_code(self, code: &str) -> (r: Self)
        ensures
            r.fields() == (TaskInfoFields { sn_code: Some(code@), ..self.fields() }),
            r.segments() == self.segments(),
    {
        TaskInfoBuilder { sn_code: Some(owned(code)), ..self }
    }

    /// Set the device name.
    pub fn sn_name(self, name: &str) -> (r: Self)
        ensures
            r.fields() == (TaskInfoFields { sn_name: Some(name@), ..self.fields() }),
            r.segments() == self.segments(),
    {
        TaskInfoBuilder { sn_name: Some(owned(name)), ..self }
    }

    /// Append an action segment.
    pub fn add_action_segment(self, segment: ActionSegment) -> (r: Self)
        ensures
            r.fields() == self.fields(),
            r.segments() == self.segments().push(segment),
    {
        let mut b = self;
        b.action_segments.push(segment);
        b
    }

    /// Append action segments, in order.
    pub fn add_action_segments(self, segments: Vec<ActionSegment>) -> (r: Self)
        ensures
            r.fields() == self.fields(),
            r.segments() == self.segments() + segments@,
    {
        let mut b = self;
        let mut segs = segments;
        b.action_segments.append(&mut segs);
        b
    }

    /// Build the task info: every field but the data type, status and
    /// generation mode (which have defaults) is required, and the first
    /// one missing is reported.
    pub fn build(self) -> (r: Result<TaskInfo, String>)
        ensures
            match first_missing(self.fields()) {
                Some(m) => r matches Err(e) && e@ == m,
                None => r matches Ok(t) && built_from(t, self.fields(), self.segments()),
            },
    {
        let TaskInfoBuilder {
            episode_id,
            scene_name,
            sub_scene_name,
            init_scene_text,
            english_init_scene_text,
            task_name,
            english_task_name,
            data_type,
            episode_status,
            data_gen_mode,
            sn_code,
            sn_name,
            action_segments,
        } = self;
        let episode_id = required(episode_id, "episode_id is required")?;
        let scene_name = required(scene_name, "scene_name is required")?;
        let sub_scene_name = required(sub_scene_name, "sub_scene_name is required")?;
        let init_scene_text = required(init_scene_text, "init_scene_text is required")?;
        let english_init_scene_text = required(
            english_init_scene_text,
            "english_init_scene_text is required",
        )?;
        let task_name = required(task_name, "task_name is required")?;
        let english_task_name = required(english_task_name, "english_task_name is required")?;
        let data_type = or_else(data_type, "常规");
        let episode_status = or_else(episode_status, "approved");
        let data_gen_mode = or_else(data_gen_mode, "real_machine");
        let sn_code = required(sn_code, "sn_code is required")?;
        let sn_name = required(sn_name, "sn_name is required")?;
        Ok(
            TaskInfo {
                episode_id,
                scene_name,
                sub_scene_name,
                init_scene_text,
                english_init_scene_text,
                task_name,
                english_task_name,
                data_type,
                episode_status,
                data_gen_mode,
                sn_code,
                sn_name,
                label_info: LabelInfo { action_config: action_segments, key_frame: Vec::new() },
            },
        )
    }
}

impl Default for TaskInfoBuilder {
    /// Same as `TaskInfoBuilder::new`.
    fn default() -> (r: Self)
        ensures
            r.fields().episode_id is None,
            r.fields().data_type == Some("常规"@),
            r.segments().len() == 0,
    {
        TaskInfoBuilder::new()
    }
}


/// Builder of an [`ActionSegment`].
#[derive(Debug, Clone)]
pub struct ActionSegmentBuilder {
    start_frame: u64,
    end_frame: u64,
    timestamp_utc: Option<String>,
    action_text: Option<String>,
    skill: String,
    is_mistake: bool,
    english_action_text: Option<String>,
}

impl ActionSegmentBuilder {
    pub closed spec fn start(&self) -> u64 {
        self.start_frame
    }

    pub closed spec fn end(&self) -> u64 {
        self.end_frame
    }

    pub closed spec fn timestamp_spec(&self) -> Option<Seq<char>> {
        opt_view(self.timestamp_utc)
    }

    pub closed spec fn action_text_spec(&self) -> Option<Seq<char>> {
        opt_view(self.action_text)
    }

    pub closed spec fn skill_spec(&self) -> Seq<char> {
        self.skill@
    }

    pub closed spec fn mistake(&self) -> bool {
        self.is_mistake
    }

    pub closed spec fn english_action_text_spec(&self) -> Option<Seq<char>> {
        opt_view(self.english_action_text)
    }

    /// A segment over frames `start_frame..end_frame` with `skill`, not a
    /// mistake, and no texts or timestamp yet.
    pub fn new(start_frame: u64, end_frame: u64, skill: &str) -> (r: Self)
        ensures
            r.start() == start_frame,
            r.end() == end_frame,
            r.skill_spec() == skill@,
            r.timestamp_spec() is None,
            r.action_text_spec() is None,
            r.english_action_text_spec() is None,
            !r.mistake(),
    {
        ActionSegmentBuilder {
            start_frame,
            end_frame,
            timestamp_utc: None,
            action_text: None,
            skill: owned(skill),
            is_mistake: false,
            english_action_text: None,
        }
    }

    /// Set the UTC timestamp text.
    pub fn timestamp(self, ts: &str) -> (r: Self)
        ensures
            r.timestamp_spec() == Some(ts@),
            r.start() == self.start(),
            r.end() == self.end(),
            r.skill_spec() == self.skill_spec(),
            r.action_text_spec() == self.action_text_spec(),
            r.english_action_text_spec() == self.english_action_text_spec(),
            r.mistake() == self.mistake(),
    {
        ActionSegmentBuilder { timestamp_utc: Some(owned(ts)), ..self }
    }

    /// Set the action description.
    pub fn action_text(self, text: &str) -> (r: Self)
        ensures
            r.action_text_spec() == Some(text@),
            r.start() == self.start(),
            r.end() == self.end(),
            r.skill_spec() == self.skill_spec(),
            r.timestamp_spec() == self.timestamp_spec(),
            r.english_action_text_spec() == self.english_action_text_spec(),
            r.mistake() == self.mistake(),
    {
        ActionSegmentBuilder { action_text: Some(owned(text)), ..self }
    }

    /// Set the English action description.
    pub fn english_action_text(self, text: &str) -> (r: Self)
        ensures
            r.english_action_text_spec() == Some(text@),
            r.start() == self.start(),
            r.end() == self.end(),
            r.skill_spec() == self.skill_spec(),
            r.timestamp_spec() == self.timestamp_spec(),
            r.action_text_spec() == self.action_text_spec(),
            r.mistake() == self.mistake(),
    {
        ActionSegmentBuilder { english_action_text: Some(owned(text)), ..self }
    }

    /// Mark the segment as a mistake or not.
    pub fn is_mistake(self, mistake: bool) -> (r: Self)
        ensures
            r.mistake() == mistake,
            r.start() == self.start(),
            r.end() == self.end(),
            r.skill_spec() == self.skill_spec(),
            r.timestamp_spec() == self.timestamp_spec(),
            r.action_text_spec() == self.action_text_spec(),
            r.english_action_text_spec() == self.english_action_text_spec(),
    {
        ActionSegmentBuilder { is_mistake: mistake, ..self }
    }

    /// Build the segment. Both action texts are required (the first missing
    /// is reported); a missing timestamp is the current Unix time in
    /// seconds, in decimal.
    pub fn build(self) -> (r: Result<ActionSegment, String>)
        ensures
            self.action_text_spec() is None ==> (r matches Err(e) && e@
                == "action_text is required"@),
            self.action_text_spec() is Some && self.english_action_text_spec() is None ==> (
            r matches Err(e) && e@ == "english_action_text is required"@),
            self.action_text_spec() is Some && self.english_action_text_spec() is Some ==> (
            r matches Ok(s) && s.start_frame == self.start() && s.end_frame == self.end()
                && Some(s.action_text@) == self.action_text_spec() && s.skill@
                == self.skill_spec() && s.is_mistake == self.mistake() && Some(
                s.english_action_text@,
            ) == self.english_action_text_spec() && match self.timestamp_spec() {
                Some(t) => s.timestamp_utc@ == t,
                None => exists|secs: u64| s.timestamp_utc@ == decimal(secs as nat),
            }),
    {
        let ActionSegmentBuilder {
            start_frame,
            end_frame,
            timestamp_utc,
            action_text,
            skill,
            is_mistake,
            english_action_text,
        } = self;
        let timestamp_utc = match timestamp_utc {
            Some(t) => t,
            None => {
                let mut t = String::new();
                push_decimal(&mut t, unix_seconds());
                t
            },
        };
        let action_text = required(action_text, "action_text is required")?;
        let english_action_text = required(english_action_text, "english_action_text is required")?;
        Ok(
            ActionSegment {
                start_frame,
                end_frame,
                timestamp_utc,
                action_text,
                skill,
                is_mistake,
                english_action_text,
            },
        )
    }
}

/// `s` with every space replaced by an underscore.
pub open spec fn spaces_to_underscores(s: Seq<char>) -> Seq<char> {
    s.map_values(|c: char| if c == ' ' { '_' } else { c })
}

/// The name of a task info file: scene, sub-scene and English task name
/// (spaces replaced by underscores), joined by `-`, with a `.json` suffix.
pub open spec fn task_info_file_name(t: TaskInfo) -> Seq<char> {
    t.scene_name@ + "-"@ + t.sub_scene_name@ + "-"@ + spaces_to_underscores(t.english_task_name@)
        + ".json"@
}

/// Append `s` with spaces replaced by underscores.
fn push_underscored(out: &mut String, s: &str)
    ensures
        final(out)@ == old(out)@ + spaces_to_underscores(s@),
{
    let cs = chars_of(s);
    let mut i: usize = 0;
    while i < cs.len()
        invariant
            cs@ == s@,
            0 <= i <= cs@.len(),
            out@ == old(out)@ + spaces_to_underscores(s@.take(i as int)),
        decreases cs.len() - i,
    {
        let ghost before = out@;
        if cs[i] == ' ' {
            out.append("_");
        } else {
            out.append(s.substring_char(i, i + 1));
        }
        proof {
            reveal_strlit("_");
            assert(s@.take(i + 1) =~= s@.take(i as int).push(s@[i as int]));
            assert(spaces_to_underscores(s@.take(i + 1)) =~= spaces_to_underscores(
                s@.take(i as int),
            ).push(if s@[i as int] == ' ' { '_' } else { s@[i as int] }));
            assert(s@.subrange(i as int, i + 1) =~= seq![s@[i as int]]);
            assert(out@ =~= old(out)@ + spaces_to_underscores(s@.take(i + 1)));
        }
        i = i + 1;
    }
    assert(s@.take(cs@.len() as int) =~= s@);
}

/// The file name under `task_info/` that a task info is written to.
pub fn task_info_filename(task_info: &TaskInfo) -> (r: String)
    ensures
        r@ == task_info_file_name(*task_info),
{
    let mut name = task_info.scene_name.clone();
    name.append("-");
    name.append(task_info.sub_scene_name.as_str());
    name.append("-");
    push_underscored(&mut name, task_info.english_task_name.as_str());
    name.append(".json");
    assert(name@ =~= task_info_file_name(*task_info));
    name
}

} // verus!
