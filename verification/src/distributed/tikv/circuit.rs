//! Circuit breaker pattern for TiKV fault tolerance.
//!
//! The circuit breaker prevents cascading failures by failing fast when
//! the TiKV service is experiencing issues. It has three states:
//!
//! - **Closed**: Normal operation, requests pass through
//! - **Open**: Service is down, requests fail immediately
//! - **Half-Open**: Testing if service has recovered (limited requests allowed)
//!
//! ```text
//!                    failure threshold reached
//!     Closed  ----------------------------->  Open
//!        ^                                      |
//!        |                                      | timeout expires
//!        |                                      v
//!        |<--------------------------- Half-Open
//!        |                                   |
//!        | success (after attempts)           | failure
//!        +-----------------------------------+
//! ```
//!
//! Times are nanoseconds since the Unix epoch. Every transition is a
//! function of the breaker and the current time (the `_at` methods); the
//! methods without `_at` read the system clock first.

use vstd::prelude::*;
use super::error::TikvError;
use crate::clock::{reached, span_reached, unix_nanos, TimeSpan};

verus! {

/// Circuit breaker state.
#[derive(Debug, Clone, Copy, PartialEq, Eq, Structural)]
pub enum CircuitState {
    /// Circuit is closed - normal operation.
    Closed,
    /// Circuit is open - service is down, fail fast.
    Open,
    /// Circuit is half-open - testing if service recovered.
    HalfOpen,
}

/// The state stored under code `value` (0 closed, 1 open, 2 half-open).
pub open spec fn state_of_code(value: u8) -> Option<CircuitState> {
    if value == 0 {
        Some(CircuitState::Closed)
    } else if value == 1 {
        Some(CircuitState::Open)
    } else if value == 2 {
        Some(CircuitState::HalfOpen)
    } else {
        None
    }
}

impl CircuitState {
    /// Convert from the state's code: 0 closed, 1 open, 2 half-open.
    pub fn from_u8(value: u8) -> (r: Option<Self>)
        ensures
            r == state_of_code(value),
    {
        match value {
            0 => Some(CircuitState::Closed),
            1 => Some(CircuitState::Open),
            2 => Some(CircuitState::HalfOpen),
            _ => None,
        }
    }
}

/// Configuration for the circuit breaker.
#[derive(Debug, Clone, Copy)]
pub struct CircuitConfig {
    /// Number of consecutive failures before opening the circuit.
    pub failure_threshold: u32,
    /// Number of successful attempts in half-open before closing.
    pub success_threshold: u32,
    /// Time to wait before attempting recovery (open -> half-open).
    pub open_timeout: TimeSpan,
    /// Maximum number of calls allowed in half-open state.
    pub half_open_max_calls: u32,
    /// Time to keep half-open state before reverting to open.
    pub half_open_timeout: TimeSpan,
}

impl Default for CircuitConfig {
    /// Open after 5 consecutive failures, close after 3 successes in
    /// half-open, wait 30 s before recovery, allow 10 calls and 5 s in
    /// half-open.
    fn default() -> (r: Self)
        ensures
            r.failure_threshold == 5,
            r.success_threshold == 3,
            r.open_timeout.secs_spec() == 30 && r.open_timeout.nanos_spec() == 0,
            r.half_open_max_calls == 10,
            r.half_open_timeout.secs_spec() == 5 && r.half_open_timeout.nanos_spec() == 0,
    {
        CircuitConfig {
            failure_threshold: 5,
            success_threshold: 3,
            open_timeout: TimeSpan::from_secs(30),
            half_open_max_calls: 10,
            half_open_timeout: TimeSpan::from_secs(5),
        }
    }
}

impl CircuitConfig {
    /// Create a new configuration with custom failure threshold.
    pub fn with_failure_threshold(self, threshold: u32) -> (r: Self)
        ensures
            r == (CircuitConfig { failure_threshold: threshold, ..self }),
    {
        CircuitConfig { failure_threshold: threshold, ..self }
    }

    /// Create a new configuration with custom open timeout.
    pub fn with_open_timeout(self, timeout: TimeSpan) -> (r: Self)
        ensures
            r == (CircuitConfig { open_timeout: timeout, ..self }),
    {
        CircuitConfig { open_timeout: timeout, ..self }
    }

    /// Create a new configuration with custom success threshold.
    pub fn with_success_threshold(self, threshold: u32) -> (r: Self)
        ensures
            r == (CircuitConfig { success_threshold: threshold, ..self }),
    {
        CircuitConfig { success_threshold: threshold, ..self }
    }
}

/// One more, wrapping to 0 after `u64::MAX` as an atomic counter does.
pub open spec fn inc(x: u64) -> u64 {
    if x == u64::MAX {
        0
    } else {
        (x + 1) as u64
    }
}

fn increment(x: u64) -> (r: u64)
    ensures
        r == inc(x),
{
    if x == u64::MAX {
        0
    } else {
        x + 1
    }
}

/// Circuit breaker for TiKV fault tolerance.
///
/// The breaker is a plain value changed through `&mut self`: a clone is an
/// independent copy whose state is not shared with the breaker it was
/// cloned from.
#[derive(Debug, Clone)]
pub struct CircuitBreaker {
    /// Current circuit state.
    state: CircuitState,
    /// Consecutive failure count.
    failures: u64,
    /// Consecutive success count (for half-open -> closed).
    successes: u64,
    /// Number of calls in half-open state.
    half_open_calls: u64,
    /// Time of the last state change, in nanoseconds.
    last_state_change: u64,
    /// Configuration.
    config: CircuitConfig,
}

impl CircuitBreaker {
    pub closed spec fn current(&self) -> CircuitState {
        self.state
    }

    pub closed spec fn failures(&self) -> u64 {
        self.failures
    }

    pub closed spec fn successes(&self) -> u64 {
        self.successes
    }

    pub closed spec fn half_open_calls(&self) -> u64 {
        self.half_open_calls
    }

    pub closed spec fn last_change(&self) -> u64 {
        self.last_state_change
    }

    pub closed spec fn config(&self) -> CircuitConfig {
        self.config
    }

    /// The breaker with its failure count set to `f`.
    pub closed spec fn with_failures(b: Self, f: u64) -> Self {
        CircuitBreaker { failures: f, ..b }
    }

    /// The breaker with its success count set to `n`.
    pub closed spec fn with_successes(b: Self, n: u64) -> Self {
        CircuitBreaker { successes: n, ..b }
    }

    /// A fresh breaker: closed, all counters zero, last change at `now`.
    pub closed spec fn initial(config: CircuitConfig, now: u64) -> Self {
        CircuitBreaker {
            state: CircuitState::Closed,
            failures: 0,
            successes: 0,
            half_open_calls: 0,
            last_state_change: now,
            config,
        }
    }

    /// Enter `st` at time `now`: closing clears all counters, opening
    /// clears the success count, half-opening clears the half-open call count.
    pub closed spec fn entered(self, st: CircuitState, now: u64) -> Self {
        let s = CircuitBreaker { state: st, last_state_change: now, ..self };
        match st {
            CircuitState::Closed => CircuitBreaker {
                failures: 0,
                successes: 0,
                half_open_calls: 0,
                ..s
            },
            CircuitState::Open => CircuitBreaker { successes: 0, ..s },
            CircuitState::HalfOpen => CircuitBreaker { half_open_calls: 0, ..s },
        }
    }

    /// Whether a call is permitted at `now`, and the breaker afterwards: an
    /// open circuit half-opens once its open timeout has elapsed; a
    /// half-open circuit re-opens once its half-open timeout has elapsed or
    /// its half-open calls reach the maximum.
    pub closed spec fn permit(self, now: u64) -> (bool, Self) {
        let elapsed = elapsed_since(self.last_state_change, now);
        match self.state {
            CircuitState::Closed => (true, self),
            CircuitState::Open => if reached(elapsed, self.config.open_timeout) {
                (true, self.entered(CircuitState::HalfOpen, now))
            } else {
                (false, self)
            },
            CircuitState::HalfOpen => if reached(elapsed, self.config.half_open_timeout) {
                (false, self.entered(CircuitState::Open, now))
            } else if self.half_open_calls >= self.config.half_open_max_calls {
                (false, self.entered(CircuitState::Open, now))
            } else {
                (true, self)
            },
        }
    }

    /// After a successful call at `now`: a closed circuit clears its
    /// failure count; a half-open circuit counts the success and closes
    /// once the success threshold is reached.
    pub closed spec fn after_success(self, now: u64) -> Self {
        match self.state {
            CircuitState::Closed => CircuitBreaker { failures: 0, ..self },
            CircuitState::HalfOpen => {
                let s = CircuitBreaker { successes: inc(self.successes), ..self };
                if inc(self.successes) >= self.config.success_threshold {
                    s.entered(CircuitState::Closed, now)
                } else {
                    s
                }
            },
            CircuitState::Open => self,
        }
    }

    /// After a failed call at `now`: the failure is counted; a closed
    /// circuit opens once the failure threshold is reached; a half-open
    /// circuit opens at once.
    pub closed spec fn after_failure(self, now: u64) -> Self {
        let s = CircuitBreaker { failures: inc(self.failures), ..self };
        match self.state {
            CircuitState::Closed => if inc(self.failures) >= self.config.failure_threshold {
                s.entered(CircuitState::Open, now)
            } else {
                s
            },
            CircuitState::HalfOpen => s.entered(CircuitState::Open, now),
            CircuitState::Open => s,
        }
    }

    /// Create a new circuit breaker with default configuration.
    pub fn new() -> (r: Self)
        ensures
            exists|now: u64| r == Self::initial(r.config(), now),
            r.config().failure_threshold == 5,
            r.config().success_threshold == 3,
            r.config().open_timeout.secs_spec() == 30 && r.config().open_timeout.nanos_spec() == 0,
            r.config().half_open_max_calls == 10,
            r.config().half_open_timeout.secs_spec() == 5 && r.config().half_open_timeout.nanos_spec()
                == 0,
    {
        Self::with_config(CircuitConfig::default())
    }

    /// Create a new circuit breaker with custom configuration.
    pub fn with_config(config: CircuitConfig) -> (r: Self)
        ensures
            exists|now: u64| r == Self::initial(config, now),
            r.config() == config,
    {
        let now = unix_nanos();
        Self::with_config_at(config, now)
    }

    /// A closed breaker with custom configuration, created at `now`.
    pub fn with_config_at(config: CircuitConfig, now: u64) -> (r: Self)
        ensures
            r == Self::initial(config, now),
    {
        CircuitBreaker {
            state: CircuitState::Closed,
            failures: 0,
            successes: 0,
            half_open_calls: 0,
            last_state_change: now,
            config,
        }
    }

    /// Get the current circuit state.
    pub fn state(&self) -> (r: CircuitState)
        ensures
            r == self.current(),
    {
        self.state
    }

    /// Get the number of consecutive failures.
    pub fn failure_count(&self) -> (r: u64)
        ensures
            r == self.failures(),
    {
        self.failures
    }

    /// Get the number of consecutive successes (in half-open state).
    pub fn success_count(&self) -> (r: u64)
        ensures
            r == self.successes(),
    {
        self.successes
    }

    /// Enter `new_state` at `now`, resetting the counters that the state
    /// change clears.
    pub fn set_state_at(&mut self, new_state: CircuitState, now: u64)
        ensures
            *final(self) == old(self).entered(new_state, now),
    {
        self.state = new_state;
        self.last_state_change = now;
        match new_state {
            CircuitState::Closed => {
                self.failures = 0;
                self.successes = 0;
                self.half_open_calls = 0;
            },
            CircuitState::Open => {
                self.successes = 0;
            },
            CircuitState::HalfOpen => {
                self.half_open_calls = 0;
            },
        }
    }

    /// Enter `new_state` now, resetting the counters that the state change
    /// clears.
    pub fn set_state(&mut self, new_state: CircuitState)
        ensures
            exists|now: u64| *final(self) == old(self).entered(new_state, now),
    {
        let now = unix_nanos();
        self.set_state_at(new_state, now);
    }

    /// Check at `now` whether the circuit allows requests, making the
    /// timeout-driven transitions.
    pub fn is_call_permitted_at(&mut self, now: u64) -> (r: bool)
        ensures
            (r, *final(self)) == old(self).permit(now),
    {
        let elapsed: u64 = if now >= self.last_state_change {
            now - self.last_state_change
        } else {
            0
        };
        match self.state {
            CircuitState::Closed => true,
            CircuitState::Open => {
                if span_reached(elapsed, self.config.open_timeout) {
                    self.set_state_at(CircuitState::HalfOpen, now);
                    true
                } else {
                    false
                }
            },
            CircuitState::HalfOpen => {
                if span_reached(elapsed, self.config.half_open_timeout) {
                    self.set_state_at(CircuitState::Open, now);
                    false
                } else if self.half_open_calls >= self.config.half_open_max_calls as u64 {
                    self.set_state_at(CircuitState::Open, now);
                    false
                } else {
                    true
                }
            },
        }
    }

    /// Check if the circuit allows requests.
    pub fn is_call_permitted(&mut self) -> (r: bool)
        ensures
            exists|now: u64| (r, *final(self)) == old(self).permit(now),
    {
        let now = unix_nanos();
        self.is_call_permitted_at(now)
    }

    /// Record a successful call at `now`.
    pub fn record_success_at(&mut self, now: u64)
        ensures
            *final(self) == old(self).after_success(now),
    {
        match self.state {
            CircuitState::Closed => {
                self.failures = 0;
            },
            CircuitState::HalfOpen => {
                let successes = increment(self.successes);
                self.successes = successes;
                if successes >= self.config.success_threshold as u64 {
                    self.set_state_at(CircuitState::Closed, now);
                }
            },
            CircuitState::Open => {},
        }
    }

    /// Record a successful call.
    pub fn record_success(&mut self)
        ensures
            exists|now: u64| *final(self) == old(self).after_success(now),
    {
        let now = unix_nanos();
        self.record_success_at(now);
    }

    /// Record a failed call at `now`.
    pub fn record_failure_at(&mut self, now: u64)
        ensures
            *final(self) == old(self).after_failure(now),
    {
        let failures = increment(self.failures);
        self.failures = failures;
        match self.state {
            CircuitState::Closed => {
                if failures >= self.config.failure_threshold as u64 {
                    self.set_state_at(CircuitState::Open, now);
                }
            },
            CircuitState::HalfOpen => {
                self.set_state_at(CircuitState::Open, now);
            },
            CircuitState::Open => {},
        }
    }

    /// Record a failed call.
    pub fn record_failure(&mut self)
        ensures
            exists|now: u64| *final(self) == old(self).after_failure(now),
    {
        let now = unix_nanos();
        self.record_failure_at(now);
    }

    /// Manually reset the circuit to closed state.
    pub fn reset(&mut self)
        ensures
            exists|now: u64| *final(self) == old(self).entered(CircuitState::Closed, now),
    {
        self.set_state(CircuitState::Closed);
    }

    /// Manually open the circuit.
    pub fn trip(&mut self)
        ensures
            exists|now: u64| *final(self) == old(self).entered(CircuitState::Open, now),
    {
        self.set_state(CircuitState::Open);
    }
}

impl CircuitBreaker {
    /// Whether a guarded call may start at `now`, and the breaker
    /// afterwards: as `permit`, and a call let through in half-open state is
    /// counted.
    pub closed spec fn admission(self, now: u64) -> (bool, Self) {
        let (p, s) = self.permit(now);
        if !p {
            (false, s)
        } else if s.state == CircuitState::HalfOpen {
            (true, CircuitBreaker { half_open_calls: inc(s.half_open_calls), ..s })
        } else {
            (true, s)
        }
    }

    /// Start of a guarded call at `now`: fails fast with `CircuitOpen` (and
    /// the failure count, truncated to `u32`) when the circuit does not
    /// permit it; counts calls made in half-open state.
    pub fn admit_call_at(&mut self, now: u64) -> (r: Result<(), TikvError>)
        ensures
            r is Ok == old(self).admission(now).0,
            *final(self) == old(self).admission(now).1,
            r matches Err(e) ==> e == (TikvError::CircuitOpen { failures: final(self).failures() as u32 }),
    {
        if !self.is_call_permitted_at(now) {
            return Err(TikvError::CircuitOpen { failures: self.failures as u32 });
        }
        if self.state == CircuitState::HalfOpen {
            self.half_open_calls = increment(self.half_open_calls);
        }
        Ok(())
    }

    /// Start of a guarded call, by the system clock.
    pub fn admit_call(&mut self) -> (r: Result<(), TikvError>)
        ensures
            exists|now: u64|
                r is Ok == old(self).admission(now).0 && *final(self) == old(self).admission(now).1,
            r matches Err(e) ==> e == (TikvError::CircuitOpen { failures: final(self).failures() as u32 }),
    {
        let now = unix_nanos();
        self.admit_call_at(now)
    }

    /// End of a guarded call at `now`: a success is recorded; a failure is
    /// recorded when the error is retryable (connection failures are). The
    /// call's result is handed back unchanged.
    pub fn complete_call_at<T>(&mut self, result: Result<T, TikvError>, now: u64) -> (r: Result<
        T,
        TikvError,
    >)
        ensures
            r == result,
            result is Ok ==> *final(self) == old(self).after_success(now),
            result matches Err(e) ==> *final(self) == if e.retryable_spec() || e is ConnectionFailed {
                old(self).after_failure(now)
            } else {
                *old(self)
            },
    {
        match result {
            Ok(v) => {
                self.record_success_at(now);
                Ok(v)
            },
            Err(e) => {
                if e.is_retryable() || matches!(e, TikvError::ConnectionFailed(_)) {
                    self.record_failure_at(now);
                }
                Err(e)
            },
        }
    }

    /// End of a guarded call, by the system clock.
    pub fn complete_call<T>(&mut self, result: Result<T, TikvError>) -> (r: Result<T, TikvError>)
        ensures
            r == result,
            exists|now: u64|
                {
                    &&& result is Ok ==> *final(self) == old(self).after_success(now)
                    &&& result matches Err(e) ==> *final(self) == if e.retryable_spec()
                        || e is ConnectionFailed {
                        old(self).after_failure(now)
                    } else {
                        *old(self)
                    }
                },
    {
        let now = unix_nanos();
        self.complete_call_at(result, now)
    }
}

impl Default for CircuitBreaker {
    /// A closed breaker with the default configuration.
    fn default() -> (r: Self)
        ensures
            exists|now: u64| r == Self::initial(r.config(), now),
            r.config().failure_threshold == 5,
            r.config().success_threshold == 3,
    {
        Self::new()
    }
}


/// Nanoseconds from `then` to `now`, 0 if the clock went back.
pub open spec fn elapsed_since(then: u64, now: u64) -> u64 {
    if now >= then {
        (now - then) as u64
    } else {
        0
    }
}

/// The breaker after failed calls at the given times, in order.
pub open spec fn after_failures(b: CircuitBreaker, times: Seq<u64>) -> CircuitBreaker
    decreases times.len(),
{
    if times.len() == 0 {
        b
    } else {
        after_failures(b, times.drop_last()).after_failure(times.last())
    }
}

/// The breaker after successful calls at the given times, in order.
pub open spec fn after_successes(b: CircuitBreaker, times: Seq<u64>) -> CircuitBreaker
    decreases times.len(),
{
    if times.len() == 0 {
        b
    } else {
        after_successes(b, times.drop_last()).after_success(times.last())
    }
}

/// A closed circuit with no failures stays closed, counting failures, until
/// `failure_threshold` consecutive failures, which open it.
pub proof fn law_consecutive_failures_open(b: CircuitBreaker, times: Seq<u64>)
    requires
        b.current() == CircuitState::Closed,
        b.failures() == 0,
        b.config().failure_threshold >= 1,
        times.len() <= b.config().failure_threshold,
    ensures
        times.len() < b.config().failure_threshold ==> after_failures(b, times).current()
            == CircuitState::Closed && after_failures(b, times).failures() == times.len(),
        times.len() == b.config().failure_threshold ==> after_failures(b, times).current()
            == CircuitState::Open,
        after_failures(b, times).config() == b.config(),
    decreases times.len(),
{
    if times.len() > 0 {
        law_consecutive_failures_open(b, times.drop_last());
    }
}

/// A half-open circuit with no successes stays half-open, counting
/// successes, until `success_threshold` consecutive successes, which close
/// it with every counter cleared.
pub proof fn law_half_open_successes_close(b: CircuitBreaker, times: Seq<u64>)
    requires
        b.current() == CircuitState::HalfOpen,
        b.successes() == 0,
        b.config().success_threshold >= 1,
        times.len() <= b.config().success_threshold,
    ensures
        times.len() < b.config().success_threshold ==> after_successes(b, times).current()
            == CircuitState::HalfOpen && after_successes(b, times).successes() == times.len(),
        times.len() == b.config().success_threshold ==> {
            &&& after_successes(b, times).current() == CircuitState::Closed
            &&& after_successes(b, times).failures() == 0
            &&& after_successes(b, times).successes() == 0
            &&& after_successes(b, times).half_open_calls() == 0
        },
        after_successes(b, times).config() == b.config(),
    decreases times.len(),
{
    if times.len() > 0 {
        law_half_open_successes_close(b, times.drop_last());
    }
}

/// Any failure in half-open state re-opens the circuit and clears its
/// success count.
pub proof fn law_half_open_failure_reopens(b: CircuitBreaker, now: u64)
    requires
        b.current() == CircuitState::HalfOpen,
    ensures
        b.after_failure(now).current() == CircuitState::Open,
        b.after_failure(now).successes() == 0,
        b.after_failure(now).last_change() == now,
{
}

/// A success in closed state clears the failure count and keeps the
/// circuit closed.
pub proof fn law_success_clears_failures(b: CircuitBreaker, now: u64)
    requires
        b.current() == CircuitState::Closed,
    ensures
        b.after_success(now).current() == CircuitState::Closed,
        b.after_success(now).failures() == 0,
{
}

/// A closed circuit permits every call and is left unchanged.
pub proof fn law_closed_permits(b: CircuitBreaker, now: u64)
    requires
        b.current() == CircuitState::Closed,
    ensures
        b.permit(now) == (true, b),
{
}

/// An open circuit fails fast, unchanged, until its open timeout has
/// elapsed; then it permits the call and half-opens with no half-open calls.
pub proof fn law_open_waits_for_timeout(b: CircuitBreaker, now: u64)
    requires
        b.current() == CircuitState::Open,
    ensures
        !reached(elapsed_since(b.last_change(), now), b.config().open_timeout) ==> b.permit(now) == (
            false,
            b,
        ),
        reached(elapsed_since(b.last_change(), now), b.config().open_timeout) ==> {
            &&& b.permit(now).0
            &&& b.permit(now).1.current() == CircuitState::HalfOpen
            &&& b.permit(now).1.half_open_calls() == 0
            &&& b.permit(now).1.last_change() == now
        },
{
}

/// A half-open circuit admits at most `half_open_max_calls` calls before
/// its half-open timeout: once that many were let through, the next check
/// re-opens it.
pub proof fn law_half_open_call_limit(b: CircuitBreaker, now: u64)
    requires
        b.current() == CircuitState::HalfOpen,
        b.half_open_calls() >= b.config().half_open_max_calls,
    ensures
        !b.permit(now).0,
        b.permit(now).1.current() == CircuitState::Open,
{
}

/// After a reset the circuit is closed with every counter cleared, so it
/// permits the next call.
pub proof fn law_reset_permits(b: CircuitBreaker, now: u64, later: u64)
    ensures
        b.entered(CircuitState::Closed, now).current() == CircuitState::Closed,
        b.entered(CircuitState::Closed, now).failures() == 0,
        b.entered(CircuitState::Closed, now).successes() == 0,
        b.entered(CircuitState::Closed, now).permit(later).0,
{
}

/// A call that the circuit rejects is not counted as a half-open call and
/// leaves the failure and success counts as they were.
pub proof fn law_rejected_call_counts_nothing(b: CircuitBreaker, now: u64)
    requires
        !b.admission(now).0,
    ensures
        b.admission(now).1.failures() == b.failures(),
        b.admission(now).1.half_open_calls() == b.half_open_calls() || b.admission(now).1.current()
            == CircuitState::Open,
{
}

/// A fresh breaker is closed with every counter cleared, its last state
/// change at the time it was created, and the configuration it was given.
pub proof fn law_initial(config: CircuitConfig, now: u64)
    ensures
        CircuitBreaker::initial(config, now).current() == CircuitState::Closed,
        CircuitBreaker::initial(config, now).failures() == 0,
        CircuitBreaker::initial(config, now).successes() == 0,
        CircuitBreaker::initial(config, now).half_open_calls() == 0,
        CircuitBreaker::initial(config, now).last_change() == now,
        CircuitBreaker::initial(config, now).config() == config,
{
}

/// Entering a state records the time and keeps the configuration:
/// closing clears every counter, opening clears the success count,
/// half-opening clears the half-open call count; other counters stay.
pub proof fn law_entered(b: CircuitBreaker, st: CircuitState, now: u64)
    ensures
        b.entered(st, now).current() == st,
        b.entered(st, now).last_change() == now,
        b.entered(st, now).config() == b.config(),
        b.entered(st, now).failures() == (if st == CircuitState::Closed {
            0
        } else {
            b.failures()
        }),
        b.entered(st, now).successes() == (if st == CircuitState::HalfOpen {
            b.successes()
        } else {
            0
        }),
        b.entered(st, now).half_open_calls() == (if st == CircuitState::Open {
            b.half_open_calls()
        } else {
            0
        }),
{
}

/// The permit check, case by case: closed permits unchanged; open permits
/// and half-opens once the open timeout has elapsed, else refuses
/// unchanged; half-open refuses and re-opens once the half-open timeout has
/// elapsed or the half-open calls reached the maximum, and otherwise
/// permits unchanged. The configuration never changes.
pub proof fn law_permit(b: CircuitBreaker, now: u64)
    ensures
        b.permit(now).1.config() == b.config(),
        b.current() == CircuitState::Closed ==> b.permit(now) == (true, b),
        b.current() == CircuitState::Open ==> if reached(
            elapsed_since(b.last_change(), now),
            b.config().open_timeout,
        ) {
            b.permit(now) == (true, b.entered(CircuitState::HalfOpen, now))
        } else {
            b.permit(now) == (false, b)
        },
        b.current() == CircuitState::HalfOpen ==> if reached(
            elapsed_since(b.last_change(), now),
            b.config().half_open_timeout,
        ) || b.half_open_calls() >= b.config().half_open_max_calls {
            b.permit(now) == (false, b.entered(CircuitState::Open, now))
        } else {
            b.permit(now) == (true, b)
        },
{
}

/// A recorded failure counts one more failure; a closed circuit opens once
/// the count reaches the failure threshold and a half-open one opens at
/// once (either way entering the open state: successes cleared, time
/// recorded), an open one stays open. The configuration
/// never changes.
pub proof fn law_after_failure(b: CircuitBreaker, now: u64)
    ensures
        b.after_failure(now).failures() == inc(b.failures()),
        b.after_failure(now).config() == b.config(),
        b.current() == CircuitState::Closed ==> (b.after_failure(now).current() == CircuitState::Open
            <==> inc(b.failures()) >= b.config().failure_threshold),
        b.current() == CircuitState::Closed && inc(b.failures()) < b.config().failure_threshold
            ==> b.after_failure(now) == CircuitBreaker::with_failures(b, inc(b.failures())),
        b.current() == CircuitState::Closed && inc(b.failures()) >= b.config().failure_threshold
            ==> b.after_failure(now) == CircuitBreaker::with_failures(b, inc(b.failures())).entered(
            CircuitState::Open,
            now,
        ),
        b.current() == CircuitState::HalfOpen ==> b.after_failure(now) == CircuitBreaker::with_failures(
            b,
            inc(b.failures()),
        ).entered(CircuitState::Open, now),
        b.current() == CircuitState::HalfOpen ==> b.after_failure(now).current() == CircuitState::Open
            && b.after_failure(now).successes() == 0 && b.after_failure(now).last_change() == now,
        b.current() == CircuitState::Open ==> b.after_failure(now) == CircuitBreaker::with_failures(
            b,
            inc(b.failures()),
        ),
{
}

/// A recorded success clears a closed circuit's failures; a half-open
/// circuit counts it and closes (clearing every counter) once the count
/// reaches the success threshold; an open circuit is unchanged. The
/// configuration never changes.
pub proof fn law_after_success(b: CircuitBreaker, now: u64)
    ensures
        b.after_success(now).config() == b.config(),
        b.current() == CircuitState::Closed ==> b.after_success(now) == CircuitBreaker::with_failures(
            b,
            0,
        ),
        b.current() == CircuitState::HalfOpen && inc(b.successes()) >= b.config().success_threshold
            ==> b.after_success(now) == CircuitBreaker::with_successes(b, inc(b.successes())).entered(
            CircuitState::Closed,
            now,
        ),
        b.current() == CircuitState::HalfOpen && inc(b.successes()) < b.config().success_threshold
            ==> b.after_success(now) == CircuitBreaker::with_successes(b, inc(b.successes())),
        b.current() == CircuitState::Open ==> b.after_success(now) == b,
{
}

/// Setting one count changes only that count.
pub proof fn law_with_counts(b: CircuitBreaker, n: u64)
    ensures
        CircuitBreaker::with_failures(b, n).failures() == n,
        CircuitBreaker::with_failures(b, n).successes() == b.successes(),
        CircuitBreaker::with_failures(b, n).half_open_calls() == b.half_open_calls(),
        CircuitBreaker::with_failures(b, n).current() == b.current(),
        CircuitBreaker::with_failures(b, n).last_change() == b.last_change(),
        CircuitBreaker::with_failures(b, n).config() == b.config(),
        CircuitBreaker::with_successes(b, n).successes() == n,
        CircuitBreaker::with_successes(b, n).failures() == b.failures(),
        CircuitBreaker::with_successes(b, n).half_open_calls() == b.half_open_calls(),
        CircuitBreaker::with_successes(b, n).current() == b.current(),
        CircuitBreaker::with_successes(b, n).last_change() == b.last_change(),
        CircuitBreaker::with_successes(b, n).config() == b.config(),
{
}

/// Admitting a guarded call is the permit check, and a call let through
/// in half-open state is counted as one more half-open call.
pub proof fn law_admission(b: CircuitBreaker, now: u64)
    ensures
        b.admission(now).0 == b.permit(now).0,
        !b.permit(now).0 ==> b.admission(now).1 == b.permit(now).1,
        b.permit(now).0 && b.permit(now).1.current() != CircuitState::HalfOpen ==> b.admission(now).1
            == b.permit(now).1,
        b.permit(now).0 && b.permit(now).1.current() == CircuitState::HalfOpen ==> {
            &&& b.admission(now).1.half_open_calls() == inc(b.permit(now).1.half_open_calls())
            &&& b.admission(now).1.current() == CircuitState::HalfOpen
            &&& b.admission(now).1.failures() == b.permit(now).1.failures()
            &&& b.admission(now).1.successes() == b.permit(now).1.successes()
            &&& b.admission(now).1.last_change() == b.permit(now).1.last_change()
            &&& b.admission(now).1.config() == b.permit(now).1.config()
        },
{
}

/// A closed circuit has fewer failures than its threshold.
pub open spec fn closed_below_threshold(b: CircuitBreaker) -> bool {
    b.current() == CircuitState::Closed ==> b.failures() < b.config().failure_threshold
}

/// Every operation keeps a closed circuit below its failure threshold
/// (for a threshold of at least one): a fresh breaker, entering a state,
/// the permit check, admitting a call, and recording a success or a
/// failure.
pub proof fn law_closed_below_threshold(b: CircuitBreaker, st: CircuitState, now: u64)
    requires
        b.config().failure_threshold >= 1,
        closed_below_threshold(b),
    ensures
        closed_below_threshold(CircuitBreaker::initial(b.config(), now)),
        closed_below_threshold(b.entered(st, now)),
        closed_below_threshold(b.permit(now).1),
        closed_below_threshold(b.admission(now).1),
        closed_below_threshold(b.after_success(now)),
        closed_below_threshold(b.after_failure(now)),
{
}

} // verus!
