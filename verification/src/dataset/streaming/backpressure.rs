//! Backpressure management for streaming conversion.

use vstd::prelude::*;
use super::config::StreamingConfig;

verus! {

/// Strategy for applying backpressure.
#[derive(Debug, Clone, Copy, PartialEq, Eq, Structural)]
pub enum BackpressureStrategy {
    /// Never apply backpressure (may use unbounded memory)
    Never,
    /// Apply backpressure when any limit is exceeded
    OnAnyLimit,
    /// Apply backpressure only when all limits are exceeded
    OnAllLimits,
}

#[verifier::external_type_specification]
#[verifier::external_body]
pub struct ExInstant(std::time::Instant);

/// The current instant of the monotonic clock.
///
/// Trusted wrapper of `std::time::Instant::now`; nothing is stated of the
/// value, which depends on the clock.
#[verifier::external_body]
fn instant_now() -> (t: std::time::Instant) {
    std::time::Instant::now()
}

/// Whole milliseconds elapsed since `since` (saturating at `u64::MAX`).
///
/// Trusted wrapper of `std::time::Instant::elapsed`; nothing is stated of
/// the value, which depends on the clock.
#[verifier::external_body]
fn millis_since(since: &std::time::Instant) -> (ms: u64) {
    u64::try_from(since.elapsed().as_millis()).unwrap_or(u64::MAX)
}

/// Default estimate of the memory one frame takes (512 KiB).
pub const DEFAULT_FRAME_SIZE: usize = 524288;

/// Smallest frame size estimate once frames are buffered (128 KiB).
pub const MIN_FRAME_SIZE: usize = 131072;

/// Minimum time between backpressure applications, in milliseconds.
pub const BACKPRESSURE_COOLDOWN_MS: u64 = 100;

/// Backpressure handler for managing memory and buffer limits.
#[derive(Debug)]
pub struct BackpressureHandler {
    /// Strategy for when to apply backpressure
    strategy: BackpressureStrategy,
    /// Maximum frames to buffer
    max_buffered_frames: usize,
    /// Maximum memory to buffer (in bytes)
    max_memory_bytes: usize,
    /// Memory usage estimate
    current_memory_estimate: usize,
    /// Estimate of memory per frame (in bytes)
    estimated_frame_size: usize,
    /// Last backpressure application
    last_backpressure: Option<std::time::Instant>,
    /// Minimum time between backpressure applications, in milliseconds
    backpressure_cooldown_ms: u64,
}

impl BackpressureHandler {
    pub closed spec fn strategy_spec(&self) -> BackpressureStrategy {
        self.strategy
    }

    pub closed spec fn frame_limit(&self) -> usize {
        self.max_buffered_frames
    }

    pub closed spec fn memory_limit(&self) -> usize {
        self.max_memory_bytes
    }

    pub closed spec fn memory_estimate(&self) -> usize {
        self.current_memory_estimate
    }

    pub closed spec fn frame_size(&self) -> usize {
        self.estimated_frame_size
    }

    pub closed spec fn applied_before(&self) -> bool {
        self.last_backpressure is Some
    }

    pub closed spec fn cooldown_ms(&self) -> u64 {
        self.backpressure_cooldown_ms
    }

    /// Create a new backpressure handler from config: backpressure on any
    /// limit, the config's frame limit, its memory limit in bytes, a
    /// 512 KiB frame size estimate, a 100 ms cooldown.
    pub fn from_config(config: &StreamingConfig) -> (r: Self)
        requires
            config.max_buffered_memory_mb * 1048576 <= usize::MAX,
        ensures
            r.strategy_spec() == BackpressureStrategy::OnAnyLimit,
            r.frame_limit() == config.max_buffered_frames,
            r.memory_limit() == config.max_buffered_memory_mb * 1048576,
            r.memory_estimate() == 0,
            r.frame_size() == DEFAULT_FRAME_SIZE,
            !r.applied_before(),
            r.cooldown_ms() == BACKPRESSURE_COOLDOWN_MS,
    {
        BackpressureHandler {
            strategy: BackpressureStrategy::OnAnyLimit,
            max_buffered_frames: config.max_buffered_frames,
            max_memory_bytes: config.max_buffered_memory_mb * 1048576,
            current_memory_estimate: 0,
            estimated_frame_size: DEFAULT_FRAME_SIZE,
            last_backpressure: None,
            backpressure_cooldown_ms: BACKPRESSURE_COOLDOWN_MS,
        }
    }

    /// Set the estimated frame size (for memory calculation).
    pub fn with_estimated_frame_size(self, size: usize) -> (r: Self)
        ensures
            r.frame_size() == size,
            r.strategy_spec() == self.strategy_spec(),
            r.frame_limit() == self.frame_limit(),
            r.memory_limit() == self.memory_limit(),
            r.memory_estimate() == self.memory_estimate(),
            r.applied_before() == self.applied_before(),
            r.cooldown_ms() == self.cooldown_ms(),
    {
        BackpressureHandler { estimated_frame_size: size, ..self }
    }

    /// Set the backpressure strategy.
    pub fn with_strategy(self, strategy: BackpressureStrategy) -> (r: Self)
        ensures
            r.strategy_spec() == strategy,
            r.frame_size() == self.frame_size(),
            r.frame_limit() == self.frame_limit(),
            r.memory_limit() == self.memory_limit(),
            r.memory_estimate() == self.memory_estimate(),
            r.applied_before() == self.applied_before(),
            r.cooldown_ms() == self.cooldown_ms(),
    {
        BackpressureHandler { strategy, ..self }
    }

    /// Whether backpressure is due with `frame_count` frames buffered.
    pub open spec fn due(&self, frame_count: usize) -> bool {
        match self.strategy_spec() {
            BackpressureStrategy::Never => false,
            BackpressureStrategy::OnAnyLimit => frame_count >= self.frame_limit()
                || self.memory_estimate() >= self.memory_limit(),
            BackpressureStrategy::OnAllLimits => frame_count >= self.frame_limit()
                && self.memory_estimate() >= self.memory_limit(),
        }
    }

    /// Check if backpressure should be applied with `frame_count` frames in
    /// the alignment buffer.
    pub fn should_apply_backpressure(&self, frame_count: usize) -> (r: bool)
        ensures
            r == self.due(frame_count),
    {
        let memory_estimate = self.current_memory_estimate;
        match self.strategy {
            BackpressureStrategy::Never => false,
            BackpressureStrategy::OnAnyLimit => {
                frame_count >= self.max_buffered_frames || memory_estimate
                    >= self.max_memory_bytes
            },
            BackpressureStrategy::OnAllLimits => {
                frame_count >= self.max_buffered_frames && memory_estimate
                    >= self.max_memory_bytes
            },
        }
    }

    /// Update the memory estimate for `frame_count` buffered frames; once
    /// frames are buffered the frame size estimate is at least 128 KiB.
    pub fn update_memory_estimate(&mut self, frame_count: usize)
        requires
            frame_count * old(self).frame_size() <= usize::MAX,
        ensures
            final(self).memory_estimate() == frame_count * old(self).frame_size(),
            final(self).frame_size() == if frame_count > 0 && old(self).frame_size()
                < MIN_FRAME_SIZE {
                MIN_FRAME_SIZE
            } else {
                old(self).frame_size()
            },
            final(self).strategy_spec() == old(self).strategy_spec(),
            final(self).frame_limit() == old(self).frame_limit(),
            final(self).memory_limit() == old(self).memory_limit(),
            final(self).applied_before() == old(self).applied_before(),
            final(self).cooldown_ms() == old(self).cooldown_ms(),
    {
        self.current_memory_estimate = frame_count * self.estimated_frame_size;
        if frame_count > 0 && self.estimated_frame_size < MIN_FRAME_SIZE {
            self.estimated_frame_size = MIN_FRAME_SIZE;
        }
    }

    /// Backpressure is in cooldown when it was applied less than the
    /// cooldown ago, `elapsed_ms` being the time since.
    pub open spec fn in_cooldown_after(&self, elapsed_ms: u64) -> bool {
        self.applied_before() && elapsed_ms < self.cooldown_ms()
    }

    /// Whether backpressure is in cooldown when `elapsed_ms` milliseconds
    /// have passed since it was last applied.
    pub fn cooldown_active(&self, elapsed_ms: u64) -> (r: bool)
        ensures
            r == self.in_cooldown_after(elapsed_ms),
    {
        self.last_backpressure.is_some() && elapsed_ms < self.backpressure_cooldown_ms
    }

    /// Check if backpressure is currently in cooldown: it was applied less
    /// than the cooldown ago by the monotonic clock (`cooldown_active` of
    /// the elapsed milliseconds). Never in cooldown before it was applied.
    pub fn is_in_cooldown(&self) -> (r: bool)
        ensures
            exists|elapsed_ms: u64| r == #[trigger] self.in_cooldown_after(elapsed_ms),
            r ==> self.applied_before(),
    {
        match &self.last_backpressure {
            Some(last) => {
                let elapsed = millis_since(last);
                self.cooldown_active(elapsed)
            },
            None => {
                assert(!self.in_cooldown_after(0));
                false
            },
        }
    }

    /// Record that backpressure was applied now.
    pub fn record_backpressure(&mut self)
        ensures
            final(self).applied_before(),
            final(self).strategy_spec() == old(self).strategy_spec(),
            final(self).frame_limit() == old(self).frame_limit(),
            final(self).memory_limit() == old(self).memory_limit(),
            final(self).memory_estimate() == old(self).memory_estimate(),
            final(self).frame_size() == old(self).frame_size(),
            final(self).cooldown_ms() == old(self).cooldown_ms(),
    {
        self.last_backpressure = Some(instant_now());
    }

    /// Maximum frames to buffer.
    pub fn max_buffered_frames(&self) -> (r: usize)
        ensures
            r == self.frame_limit(),
    {
        self.max_buffered_frames
    }

    /// Maximum memory to buffer, in bytes.
    pub fn max_memory_bytes(&self) -> (r: usize)
        ensures
            r == self.memory_limit(),
    {
        self.max_memory_bytes
    }

    /// Current memory usage estimate, in bytes.
    pub fn current_memory_estimate(&self) -> (r: usize)
        ensures
            r == self.memory_estimate(),
    {
        self.current_memory_estimate
    }
}

/// With the default strategy, reaching either limit calls for backpressure;
/// with `Never` nothing does.
pub proof fn law_any_limit_triggers(h: &BackpressureHandler, frame_count: usize)
    ensures
        h.strategy_spec() == BackpressureStrategy::OnAnyLimit && frame_count >= h.frame_limit()
            ==> h.due(frame_count),
        h.strategy_spec() == BackpressureStrategy::OnAnyLimit && h.memory_estimate()
            >= h.memory_limit() ==> h.due(frame_count),
        h.strategy_spec() == BackpressureStrategy::Never ==> !h.due(frame_count),
        h.strategy_spec() == BackpressureStrategy::OnAllLimits && h.due(frame_count) ==> h.due(
            frame_count,
        ) && frame_count >= h.frame_limit() && h.memory_estimate() >= h.memory_limit(),
{
}

} // verus!
