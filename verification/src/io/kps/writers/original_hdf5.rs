//! Original messages of a KPS episode, and where each topic's data goes in
//! the v1.2 HDF5 layout.

use vstd::prelude::*;
use crate::codec::CodecValue;
use crate::text::{contains_seq, contains_str, lowercase, owned, to_lowercase};
use vstd::string::StringExecFns;

verus! {

/// A message as recorded, with its original timestamp.
#[derive(Debug, Clone)]
pub struct OriginalMessage {
    /// Original timestamp in nanoseconds.
    pub timestamp: u64,
    /// Topic name.
    pub topic: String,
    /// Message data as key-value pairs.
    pub data: Vec<(String, CodecValue)>,
}

impl OriginalMessage {
    /// Create a new original message.
    pub fn new(timestamp: u64, topic: String, data: Vec<(String, CodecValue)>) -> (r: Self)
        ensures
            r == (OriginalMessage { timestamp, topic, data }),
    {
        OriginalMessage { timestamp, topic, data }
    }
}

/// Factory of original-message HDF5 writers (not built in).
pub struct OriginalHdf5WriterFactory;

/// The v1.2 dataset for a topic whose lowercase name is `t`: commands,
/// actions and goals are action positions, velocity topics (named with
/// `velocity` or `velocities`) are state velocities, anything else is a state position; effector, gripper and
/// hand topics go to the `effector` group, other topics naming `end` to the
/// `end` group, the rest to `joint`.
pub open spec fn v12_path_of(t: Seq<char>) -> Seq<char> {
    let is_action = contains_seq(t, "command"@) || contains_seq(t, "action"@) || contains_seq(
        t,
        "goal"@,
    );
    let base = if is_action {
        "action"@
    } else {
        "state"@
    };
    let name = if is_action {
        "position"@
    } else if contains_seq(t, "velocity"@) || contains_seq(t, "velocities"@) {
        "velocity"@
    } else {
        "position"@
    };
    let group = if contains_seq(t, "effector"@) || contains_seq(t, "gripper"@) || contains_seq(
        t,
        "hand"@,
    ) {
        "effector"@
    } else if contains_seq(t, "end"@) {
        "end"@
    } else {
        "joint"@
    };
    base + "/"@ + group + "/"@ + name
}

/// The v1.2 dataset path where a topic's data is written.
pub fn map_topic_to_v12_path(topic: &str) -> (r: String)
    ensures
        r@ == v12_path_of(lowercase(topic@)),
{
    let lower = to_lowercase(topic);
    let t = lower.as_str();
    let is_action = contains_str(t, "command") || contains_str(t, "action") || contains_str(t, "goal");
    let base = if is_action {
        "action"
    } else {
        "state"
    };
    let name = if is_action {
        "position"
    } else if contains_str(t, "velocity") || contains_str(t, "velocities") {
        "velocity"
    } else {
        "position"
    };
    let group = if contains_str(t, "effector") || contains_str(t, "gripper") || contains_str(t, "hand") {
        "effector"
    } else if contains_str(t, "end") {
        "end"
    } else {
        "joint"
    };
    let mut path = owned(base);
    path.append("/");
    path.append(group);
    path.append("/");
    path.append(name);
    assert(path@ =~= v12_path_of(lowercase(topic@)));
    path
}

} // verus!
