//! LeRobot dataset metadata (`meta/info.json`): the features and their
//! shapes, computed from the mappings and the shapes seen in the data.

use vstd::prelude::*;
use vstd::string::StrSliceExecFns;
use crate::dataset::lerobot::config::{LerobotConfig, Mapping, MappingType};
use crate::keyed::{entry_map, get_entry, set_entry};
use crate::text::{chars_of, owned, str_eq};

verus! {

/// Dataset metadata.
#[derive(Debug)]
pub struct LeRobotInfo {
    /// Feature specifications
    pub features: Features,
    /// Frames per second
    pub fps: u32,
    /// LeRobot codebase version
    pub codebase_version: String,
    /// Number of episodes
    pub total_episodes: u64,
    /// Number of frames
    pub total_frames: u64,
    /// Robot type
    pub robot_type: Option<String>,
    /// Video settings, when there are images
    pub video_info: Option<VideoInfo>,
}

/// Observation and action features, each one entry per feature name.
#[derive(Debug)]
pub struct Features {
    pub observation: Vec<(String, FeatureSpec)>,
    pub action: Vec<(String, FeatureSpec)>,
}

/// Shape and element type of a feature.
#[derive(Debug, Clone)]
pub struct FeatureSpec {
    pub shape: Vec<usize>,
    pub dtype: &'static str,
}

/// Video dimensions and codec.
#[derive(Debug, Clone)]
pub struct VideoInfo {
    pub video_height: usize,
    pub video_width: usize,
    pub video_codec: Option<String>,
}

/// The index of the first `.` in `f`, if any.
pub open spec fn first_dot(f: Seq<char>) -> Option<int>
    decreases f.len(),
{
    if f.len() == 0 {
        None
    } else {
        match first_dot(f.drop_last()) {
            Some(i) => Some(i),
            None => if f.last() == '.' {
                Some(f.len() - 1)
            } else {
                None
            },
        }
    }
}

/// The category (before the first `.`) and name (after it) of a feature.
pub open spec fn category_and_name(f: Seq<char>) -> Option<(Seq<char>, Seq<char>)> {
    match first_dot(f) {
        Some(i) => Some((f.take(i), f.skip(i + 1))),
        None => None,
    }
}

/// The shape and type of a mapped feature, from the recorded image sizes
/// (width, height) and state dimensions by topic, with defaults for topics
/// not seen.
pub open spec fn feature_shape(
    m: Mapping,
    images: Map<Seq<char>, (usize, usize)>,
    states: Map<Seq<char>, usize>,
) -> (Seq<usize>, Seq<char>) {
    match m.mapping_type {
        MappingType::Image => if images.contains_key(m.topic@) {
            (seq![images[m.topic@].1, images[m.topic@].0, 3usize], "uint8"@)
        } else {
            (seq![480usize, 640usize, 3usize], "uint8"@)
        },
        MappingType::State | MappingType::Action => if states.contains_key(m.topic@) {
            (seq![states[m.topic@]], "float32"@)
        } else {
            (seq![7usize], "float32"@)
        },
        MappingType::Timestamp => (seq![1usize], "float64"@),
    }
}

/// The shape of a mapped feature by its kind of data: a state or an action
/// whose topic has a recorded dimension `d` has shape `[d]` in `float32`,
/// and `[7]` only when no dimension was recorded for its topic; an image of
/// recorded width `w` and height `h` has shape `[h, w, 3]` in `uint8`
/// (`[480, 640, 3]` unrecorded); a timestamp is `[1]` in `float64`. A state
/// and an action on the same topic have the same shape.
pub proof fn law_feature_shape(
    m: Mapping,
    images: Map<Seq<char>, (usize, usize)>,
    states: Map<Seq<char>, usize>,
)
    ensures
        (m.mapping_type == MappingType::State || m.mapping_type == MappingType::Action)
            && states.contains_key(m.topic@) ==> feature_shape(m, images, states) == (
            seq![states[m.topic@]],
            "float32"@,
        ),
        (m.mapping_type == MappingType::State || m.mapping_type == MappingType::Action)
            && !states.contains_key(m.topic@) ==> feature_shape(m, images, states) == (
            seq![7usize],
            "float32"@,
        ),
        m.mapping_type == MappingType::Image && images.contains_key(m.topic@) ==> feature_shape(
            m,
            images,
            states,
        ) == (seq![images[m.topic@].1, images[m.topic@].0, 3usize], "uint8"@),
        m.mapping_type == MappingType::Image && !images.contains_key(m.topic@) ==> feature_shape(
            m,
            images,
            states,
        ) == (seq![480usize, 640usize, 3usize], "uint8"@),
        m.mapping_type == MappingType::Timestamp ==> feature_shape(m, images, states) == (
            seq![1usize],
            "float64"@,
        ),
        forall|m2: Mapping|
            m2.topic@ == m.topic@ && m.mapping_type == MappingType::State && m2.mapping_type
                == MappingType::Action ==> #[trigger] feature_shape(m2, images, states)
                == feature_shape(m, images, states),
{
}

/// The last mapping of a list decides the feature it names: a mapping
/// `action.<n>` of an action whose topic has recorded dimension `d` makes
/// the action feature `n` of shape `[d]` in `float32`; one named
/// `observation.<n>` makes the observation feature `n`, with the shape of
/// its kind.
pub proof fn law_last_mapping_feature(
    ms: Seq<Mapping>,
    images: Map<Seq<char>, (usize, usize)>,
    states: Map<Seq<char>, usize>,
    n: Seq<char>,
)
    requires
        ms.len() > 0,
    ensures
        category_and_name(ms.last().feature@) == Some(("action"@, n)) && ms.last().mapping_type
            == MappingType::Action && states.contains_key(ms.last().topic@) ==> features_of(
            ms,
            images,
            states,
        ).1[n] == (seq![states[ms.last().topic@]], "float32"@),
        category_and_name(ms.last().feature@) == Some(("action"@, n)) ==> features_of(
            ms,
            images,
            states,
        ).1.contains_key(n) && features_of(ms, images, states).1[n] == feature_shape(
            ms.last(),
            images,
            states,
        ),
        category_and_name(ms.last().feature@) == Some(("observation"@, n)) ==> features_of(
            ms,
            images,
            states,
        ).0.contains_key(n) && features_of(ms, images, states).0[n] == feature_shape(
            ms.last(),
            images,
            states,
        ),
{
    reveal_strlit("observation");
    reveal_strlit("action");
    assert("action"@.len() != "observation"@.len());
    let (obs, act) = features_of(ms.drop_last(), images, states);
    assert(features_of(ms, images, states) == match category_and_name(ms.last().feature@) {
        Some((c, k)) => if c == "observation"@ {
            (obs.insert(k, feature_shape(ms.last(), images, states)), act)
        } else if c == "action"@ {
            (obs, act.insert(k, feature_shape(ms.last(), images, states)))
        } else {
            (obs, act)
        },
        None => (obs, act),
    });
}

/// The view of a feature specification.
pub open spec fn spec_view(s: FeatureSpec) -> (Seq<usize>, Seq<char>) {
    (s.shape@, s.dtype@)
}

/// The observation and action features of the mappings, in order, later
/// mappings of the same name overriding earlier ones.
pub open spec fn features_of(
    ms: Seq<Mapping>,
    images: Map<Seq<char>, (usize, usize)>,
    states: Map<Seq<char>, usize>,
) -> (Map<Seq<char>, (Seq<usize>, Seq<char>)>, Map<Seq<char>, (Seq<usize>, Seq<char>)>)
    decreases ms.len(),
{
    if ms.len() == 0 {
        (Map::empty(), Map::empty())
    } else {
        let (obs, act) = features_of(ms.drop_last(), images, states);
        let m = ms.last();
        match category_and_name(m.feature@) {
            Some((c, n)) => if c == "observation"@ {
                (obs.insert(n, feature_shape(m, images, states)), act)
            } else if c == "action"@ {
                (obs, act.insert(n, feature_shape(m, images, states)))
            } else {
                (obs, act)
            },
            None => (obs, act),
        }
    }
}

/// The map of feature specifications a list stands for.
pub open spec fn spec_map(v: Seq<(String, FeatureSpec)>) -> Map<Seq<char>, (Seq<usize>, Seq<char>)> {
    entry_map(v).map_values(|s: FeatureSpec| spec_view(s))
}

fn feature_shape_of(
    m: &Mapping,
    images: &Vec<(String, (usize, usize))>,
    states: &Vec<(String, usize)>,
) -> (r: FeatureSpec)
    ensures
        spec_view(r) == feature_shape(*m, entry_map(images@), entry_map(states@)),
{
    match m.mapping_type {
        MappingType::Image => match get_entry(images, m.topic.as_str()) {
            Some(wh) => FeatureSpec { shape: vec![wh.1, wh.0, 3], dtype: "uint8" },
            None => FeatureSpec { shape: vec![480, 640, 3], dtype: "uint8" },
        },
        MappingType::State | MappingType::Action => match get_entry(states, m.topic.as_str()) {
            Some(d) => FeatureSpec { shape: vec![*d], dtype: "float32" },
            None => FeatureSpec { shape: vec![7], dtype: "float32" },
        },
        MappingType::Timestamp => FeatureSpec { shape: vec![1], dtype: "float64" },
    }
}

/// The index of the first `.` in `s`.
pub(crate) fn find_dot(s: &str) -> (r: Option<usize>)
    ensures
        match r {
            Some(i) => first_dot(s@) == Some(i as int) && i < s@.len(),
            None => first_dot(s@) is None,
        },
{
    let cs = chars_of(s);
    let mut i: usize = 0;
    while i < cs.len()
        invariant
            cs@ == s@,
            0 <= i <= cs@.len(),
            first_dot(s@.take(i as int)) is None,
        decreases cs.len() - i,
    {
        proof {
            assert(s@.take(i + 1).drop_last() =~= s@.take(i as int));
        }
        if cs[i] == '.' {
            proof {
                lemma_first_dot_prefix(s@, i as int);
            }
            return Some(i);
        }
        i = i + 1;
    }
    assert(s@.take(i as int) =~= s@);
    None
}

proof fn lemma_first_dot_prefix(s: Seq<char>, i: int)
    requires
        0 <= i < s.len(),
        first_dot(s.take(i)) is None,
        s[i] == '.',
    ensures
        first_dot(s) == Some(i),
    decreases s.len(),
{
    if s.len() - 1 > i {
        assert(s.drop_last().take(i) =~= s.take(i));
        lemma_first_dot_prefix(s.drop_last(), i);
    } else {
        assert(s.drop_last() =~= s.take(i));
    }
}

/// The metadata for a dataset of `frame_count` frames, with the image
/// sizes (width, height) and state dimensions recorded by topic: the
/// features of the mappings, and the first recorded image size as the
/// video size (h264).
pub fn build_info(
    config: &LerobotConfig,
    frame_count: u64,
    image_shapes: &Vec<(String, (usize, usize))>,
    state_shapes: &Vec<(String, usize)>,
) -> (r: LeRobotInfo)
    ensures
        (spec_map(r.features.observation@), spec_map(r.features.action@)) == features_of(
            config.mappings@,
            entry_map(image_shapes@),
            entry_map(state_shapes@),
        ),
        r.fps == config.dataset.fps,
        r.codebase_version@ == "v0.2.0"@,
        r.total_episodes == 1,
        r.total_frames == frame_count,
        r.robot_type == config.dataset.robot_type,
        image_shapes@.len() == 0 ==> r.video_info is None,
        image_shapes@.len() > 0 ==> (r.video_info matches Some(v) && v.video_width
            == image_shapes@[0].1.0 && v.video_height == image_shapes@[0].1.1
            && (v.video_codec matches Some(c) && c@ == "h264"@)),
{
    let ghost images = entry_map(image_shapes@);
    let ghost states = entry_map(state_shapes@);
    let mut observation: Vec<(String, FeatureSpec)> = Vec::new();
    let mut action: Vec<(String, FeatureSpec)> = Vec::new();
    let mut i: usize = 0;
    proof {
        reveal_strlit("observation");
        reveal_strlit("action");
        assert(spec_map(observation@) =~= Map::empty());
        assert(spec_map(action@) =~= Map::empty());
    }
    while i < config.mappings.len()
        invariant
            0 <= i <= config.mappings@.len(),
            images == entry_map(image_shapes@),
            states == entry_map(state_shapes@),
            (spec_map(observation@), spec_map(action@)) == features_of(
                config.mappings@.take(i as int),
                images,
                states,
            ),
        decreases config.mappings.len() - i,
    {
        proof {
            assert(config.mappings@.take(i + 1).drop_last() =~= config.mappings@.take(i as int));
        }
        let m = &config.mappings[i];
        let f = m.feature.as_str();
        match find_dot(f) {
            Some(d) => {
                let n = f.unicode_len();
                let category = f.substring_char(0, d);
                let name = f.substring_char(d + 1, n);
                proof {
                    assert(f@.take(d as int) =~= f@.subrange(0, d as int));
                    assert(f@.skip(d + 1) =~= f@.subrange(d + 1, n as int));
                }
                if str_eq(category, "observation") {
                    let spec = feature_shape_of(m, image_shapes, state_shapes);
                    let ghost old_obs = observation@;
                    set_entry(&mut observation, name.to_string(), spec);
                    proof {
                        assert(spec_map(observation@) =~= spec_map(old_obs).insert(name@, spec_view(spec)));
                    }
                } else if str_eq(category, "action") {
                    let spec = feature_shape_of(m, image_shapes, state_shapes);
                    let ghost old_act = action@;
                    set_entry(&mut action, name.to_string(), spec);
                    proof {
                        assert(spec_map(action@) =~= spec_map(old_act).insert(name@, spec_view(spec)));
                    }
                }
            },
            None => {},
        }
        i = i + 1;
    }
    proof {
        assert(config.mappings@.take(config.mappings@.len() as int) =~= config.mappings@);
    }
    let video_info = if image_shapes.len() == 0 {
        None
    } else {
        let (w, h) = image_shapes[0].1;
        Some(VideoInfo { video_height: h, video_width: w, video_codec: Some(owned("h264")) })
    };
    LeRobotInfo {
        features: Features { observation, action },
        fps: config.dataset.fps,
        codebase_version: owned("v0.2.0"),
        total_episodes: 1,
        total_frames: frame_count,
        robot_type: config.dataset.robot_type.clone(),
        video_info,
    }
}

} // verus!
