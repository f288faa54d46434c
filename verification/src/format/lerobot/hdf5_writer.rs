//! LeRobot HDF5 episode writer: the shapes recorded for each topic and the
//! frame count; the HDF5 encoding itself is not built in.

use vstd::prelude::*;
use crate::dataset::lerobot::config::LerobotConfig;
use crate::keyed::{distinct_keys, entry_map, set_entry};
use crate::text::owned;

verus! {

/// Writer of one LeRobot episode.
#[derive(Debug)]
pub struct Hdf5LeRobotWriter {
    episode_id: usize,
    output_dir: String,
    frame_count: usize,
    image_shapes: Vec<(String, (usize, usize))>,
    state_shapes: Vec<(String, usize)>,
}

impl Hdf5LeRobotWriter {
    pub closed spec fn episode(&self) -> usize {
        self.episode_id
    }

    pub closed spec fn output_dir_spec(&self) -> Seq<char> {
        self.output_dir@
    }

    pub closed spec fn frames(&self) -> usize {
        self.frame_count
    }

    /// Image sizes (width, height) recorded by topic.
    pub closed spec fn image_map(&self) -> Map<Seq<char>, (usize, usize)> {
        entry_map(self.image_shapes@)
    }

    /// State dimensions recorded by topic.
    pub closed spec fn state_map(&self) -> Map<Seq<char>, usize> {
        entry_map(self.state_shapes@)
    }

    /// Every topic is recorded once.
    pub closed spec fn wf(&self) -> bool {
        distinct_keys(self.image_shapes@) && distinct_keys(self.state_shapes@)
    }

    /// A writer for episode `episode_id` in `output_dir` (which the caller
    /// creates), with no frames and no shapes recorded.
    pub fn new(output_dir: &str, episode_id: usize) -> (r: Self)
        ensures
            r.wf(),
            r.episode() == episode_id,
            r.output_dir_spec() == output_dir@,
            r.frames() == 0,
            r.image_map() == Map::<Seq<char>, (usize, usize)>::empty(),
            r.state_map() == Map::<Seq<char>, usize>::empty(),
    {
        let r = Hdf5LeRobotWriter {
            episode_id,
            output_dir: owned(output_dir),
            frame_count: 0,
            image_shapes: Vec::new(),
            state_shapes: Vec::new(),
        };
        assert(r.image_map() =~= Map::<Seq<char>, (usize, usize)>::empty());
        assert(r.state_map() =~= Map::<Seq<char>, usize>::empty());
        r
    }

    /// Record the shape of an image topic.
    pub fn record_image_shape(&mut self, topic: String, width: usize, height: usize)
        requires
            old(self).wf(),
        ensures
            final(self).wf(),
            final(self).image_map() == old(self).image_map().insert(topic@, (width, height)),
            final(self).state_map() == old(self).state_map(),
            final(self).frames() == old(self).frames(),
            final(self).episode() == old(self).episode(),
            final(self).output_dir_spec() == old(self).output_dir_spec(),
    {
        set_entry(&mut self.image_shapes, topic, (width, height));
    }

    /// Record the dimension of a state topic.
    pub fn record_state_dimension(&mut self, topic: String, dim: usize)
        requires
            old(self).wf(),
        ensures
            final(self).wf(),
            final(self).state_map() == old(self).state_map().insert(topic@, dim),
            final(self).image_map() == old(self).image_map(),
            final(self).frames() == old(self).frames(),
            final(self).episode() == old(self).episode(),
            final(self).output_dir_spec() == old(self).output_dir_spec(),
    {
        set_entry(&mut self.state_shapes, topic, dim);
    }

    /// Write the episode from an MCAP file. HDF5 support is not built in,
    /// so this always fails and writes nothing.
    pub fn write_from_mcap(&mut self, mcap_path: &str, config: &LerobotConfig) -> (r: Result<
        usize,
        String,
    >)
        ensures
            r matches Err(e) && e@
                == "HDF5 support not enabled. Add feature 'lerobot-hdf5' to Cargo.toml"@,
            *final(self) == *old(self),
    {
        Err(owned("HDF5 support not enabled. Add feature 'lerobot-hdf5' to Cargo.toml"))
    }

    /// The output directory.
    pub fn output_dir(&self) -> (r: &str)
        ensures
            r@ == self.output_dir_spec(),
    {
        self.output_dir.as_str()
    }

    /// The number of frames written.
    pub fn frame_count(&self) -> (r: usize)
        ensures
            r == self.frames(),
    {
        self.frame_count
    }

    /// The recorded image sizes (width, height), one entry per topic.
    pub fn image_shapes(&self) -> (r: &Vec<(String, (usize, usize))>)
        ensures
            entry_map(r@) == self.image_map(),
    {
        &self.image_shapes
    }

    /// The recorded state dimensions, one entry per topic.
    pub fn state_shapes(&self) -> (r: &Vec<(String, usize)>)
        ensures
            entry_map(r@) == self.state_map(),
    {
        &self.state_shapes
    }
}

} // verus!
