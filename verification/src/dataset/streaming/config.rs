//! Configuration for streaming dataset conversion.

use vstd::prelude::*;
use crate::keyed::{distinct_keys, entry_map, set_entry};
use crate::text::owned;

verus! {

/// How to handle messages arriving after frame completion.
#[derive(Debug, Clone, Copy, PartialEq, Eq, Structural)]
pub enum LateMessageStrategy {
    /// Drop late messages silently
    Drop,
    /// Log warning but drop late messages
    WarnAndDrop,
    /// Create a new frame (can cause gaps in sequence)
    CreateNewFrame,
}

/// Feature completion requirement.
#[derive(Debug, Clone, Copy, PartialEq, Eq, Structural)]
pub enum FeatureRequirement {
    /// Feature must be present for frame to be complete
    Required,
    /// Feature is optional (does not affect completion)
    Optional,
    /// At least N of the listed features must be present
    AtLeast { min_count: usize },
}

/// Streaming dataset converter configuration.
#[derive(Debug, Clone)]
pub struct StreamingConfig {
    /// Target FPS for frame alignment
    pub fps: u32,
    /// Frame completion window (in frames)
    ///
    /// Messages arriving after this window (from the frame's timestamp)
    /// are considered "late" and the frame will be force-completed.
    pub completion_window_frames: usize,
    /// Maximum frames to buffer before forcing completion
    pub max_buffered_frames: usize,
    /// Maximum memory to buffer (in MB)
    pub max_buffered_memory_mb: usize,
    /// How to handle messages arriving after frame completion
    pub late_message_strategy: LateMessageStrategy,
    /// Per-feature completion requirements, one entry per feature name
    /// (e.g. "observation.images.cam_high").
    pub feature_requirements: Vec<(String, FeatureRequirement)>,
}

impl Default for StreamingConfig {
    /// 30 FPS, a 5-frame completion window, at most 300 frames and 500 MB
    /// buffered, late messages dropped with a warning, no feature
    /// requirements.
    fn default() -> (r: Self)
        ensures
            r.fps == 30,
            r.completion_window_frames == 5,
            r.max_buffered_frames == 300,
            r.max_buffered_memory_mb == 500,
            r.late_message_strategy == LateMessageStrategy::WarnAndDrop,
            r.feature_requirements@.len() == 0,
    {
        StreamingConfig {
            fps: 30,
            completion_window_frames: 5,
            max_buffered_frames: 300,
            max_buffered_memory_mb: 500,
            late_message_strategy: LateMessageStrategy::WarnAndDrop,
            feature_requirements: Vec::new(),
        }
    }
}

impl StreamingConfig {
    /// Create a new configuration with the given FPS (which must not be 0).
    pub fn with_fps(fps: u32) -> (r: Self)
        requires
            fps > 0,
        ensures
            r.fps == fps,
            r.completion_window_frames == 5,
            r.max_buffered_frames == 300,
            r.max_buffered_memory_mb == 500,
            r.late_message_strategy == LateMessageStrategy::WarnAndDrop,
            r.feature_requirements@.len() == 0,
    {
        StreamingConfig { fps, ..StreamingConfig::default() }
    }

    /// Validate the configuration: a positive FPS, a completion window of
    /// at least one frame, room for at least one buffered frame.
    pub fn validate(&self) -> (r: Result<(), String>)
        ensures
            r is Ok <==> self.fps > 0 && self.completion_window_frames > 0
                && self.max_buffered_frames > 0,
            self.fps == 0 ==> (r matches Err(m) && m@ == "FPS must be greater than 0"@),
            self.fps > 0 && self.completion_window_frames == 0 ==> (r matches Err(m) && m@
                == "Completion window must be at least 1 frame"@),
            self.fps > 0 && self.completion_window_frames > 0 && self.max_buffered_frames == 0
                ==> (r matches Err(m) && m@ == "Max buffered frames must be at least 1"@),
    {
        if self.fps == 0 {
            return Err(owned("FPS must be greater than 0"));
        }
        if self.completion_window_frames == 0 {
            return Err(owned("Completion window must be at least 1 frame"));
        }
        if self.max_buffered_frames == 0 {
            return Err(owned("Max buffered frames must be at least 1"));
        }
        Ok(())
    }
}

impl StreamingConfig {
    /// Set the completion window (in frames).
    pub fn with_completion_window(self, frames: usize) -> (r: Self)
        ensures
            r == (StreamingConfig { completion_window_frames: frames, ..self }),
    {
        StreamingConfig { completion_window_frames: frames, ..self }
    }

    /// Set the maximum buffered frames.
    pub fn with_max_buffered_frames(self, max: usize) -> (r: Self)
        ensures
            r == (StreamingConfig { max_buffered_frames: max, ..self }),
    {
        StreamingConfig { max_buffered_frames: max, ..self }
    }

    /// Set the maximum buffered memory (in MB).
    pub fn with_max_memory_mb(self, mb: usize) -> (r: Self)
        ensures
            r == (StreamingConfig { max_buffered_memory_mb: mb, ..self }),
    {
        StreamingConfig { max_buffered_memory_mb: mb, ..self }
    }

    /// Set the late message strategy.
    pub fn with_late_message_strategy(self, strategy: LateMessageStrategy) -> (r: Self)
        ensures
            r == (StreamingConfig { late_message_strategy: strategy, ..self }),
    {
        StreamingConfig { late_message_strategy: strategy, ..self }
    }

    /// Add a required feature (replacing an earlier requirement for it).
    pub fn require_feature(self, feature: &str) -> (r: Self)
        ensures
            entry_map(r.feature_requirements@) == entry_map(
                self.feature_requirements@,
            ).insert(feature@, FeatureRequirement::Required),
            distinct_keys(self.feature_requirements@) ==> distinct_keys(
                r.feature_requirements@,
            ),
            r.fps == self.fps,
            r.completion_window_frames == self.completion_window_frames,
            r.max_buffered_frames == self.max_buffered_frames,
            r.max_buffered_memory_mb == self.max_buffered_memory_mb,
            r.late_message_strategy == self.late_message_strategy,
    {
        let mut r = self;
        set_entry(&mut r.feature_requirements, owned(feature), FeatureRequirement::Required);
        r
    }

    /// Add an optional feature (replacing an earlier requirement for it).
    pub fn optional_feature(self, feature: &str) -> (r: Self)
        ensures
            entry_map(r.feature_requirements@) == entry_map(
                self.feature_requirements@,
            ).insert(feature@, FeatureRequirement::Optional),
            distinct_keys(self.feature_requirements@) ==> distinct_keys(
                r.feature_requirements@,
            ),
            r.fps == self.fps,
            r.completion_window_frames == self.completion_window_frames,
            r.max_buffered_frames == self.max_buffered_frames,
            r.max_buffered_memory_mb == self.max_buffered_memory_mb,
            r.late_message_strategy == self.late_message_strategy,
    {
        let mut r = self;
        set_entry(&mut r.feature_requirements, owned(feature), FeatureRequirement::Optional);
        r
    }

    /// Calculate frame interval in nanoseconds: one second divided by the
    /// FPS, rounded down. The FPS must not be 0.
    pub fn frame_interval_ns(&self) -> (r: u64)
        requires
            self.fps > 0,
        ensures
            r == 1_000_000_000u64 / (self.fps as u64),
    {
        1_000_000_000 / self.fps as u64
    }

    /// Calculate the completion window in nanoseconds: the frame interval
    /// times the window in frames. The FPS must not be 0 and the product
    /// must fit in `u64`.
    pub fn completion_window_ns(&self) -> (r: u64)
        requires
            self.fps > 0,
            (1_000_000_000u64 / (self.fps as u64)) * self.completion_window_frames <= u64::MAX,
        ensures
            r == (1_000_000_000u64 / (self.fps as u64)) * self.completion_window_frames,
    {
        let frame_interval_ns = self.frame_interval_ns();
        frame_interval_ns * self.completion_window_frames as u64
    }
}

} // verus!
