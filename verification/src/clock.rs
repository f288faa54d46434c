//! The system clock, and spans of time as `std::time::Duration` holds them.

use vstd::prelude::*;

verus! {

/// Nanoseconds in a second.
pub const NANOS_PER_SEC: u32 = 1_000_000_000;

/// A span of time as `std::time::Duration` holds it: whole seconds and the
/// nanoseconds beyond them (fewer than a second's worth).
#[derive(Debug, Clone, Copy, PartialEq, Eq)]
pub struct TimeSpan {
    secs: u64,
    nanos: u32,
}

impl TimeSpan {
    #[verifier::type_invariant]
    spec fn below_a_second(self) -> bool {
        self.nanos < NANOS_PER_SEC
    }

    /// The whole seconds.
    pub closed spec fn secs_spec(self) -> u64 {
        self.secs
    }

    /// The nanoseconds beyond the whole seconds.
    pub closed spec fn nanos_spec(self) -> u32 {
        self.nanos
    }

    /// The span in nanoseconds.
    pub open spec fn total_nanos(self) -> int {
        self.secs_spec() * 1_000_000_000 + self.nanos_spec()
    }

    /// A span of `secs` whole seconds.
    pub fn from_secs(secs: u64) -> (r: Self)
        ensures
            r.secs_spec() == secs,
            r.nanos_spec() == 0,
    {
        TimeSpan { secs, nanos: 0 }
    }

    /// A span of `secs` seconds and `nanos` nanoseconds, whole seconds of
    /// `nanos` carried into the seconds (which must not overflow).
    pub fn new(secs: u64, nanos: u32) -> (r: Self)
        requires
            secs + nanos / 1_000_000_000 <= u64::MAX,
        ensures
            r.secs_spec() == secs + nanos / 1_000_000_000,
            r.nanos_spec() == nanos % 1_000_000_000,
    {
        TimeSpan { secs: secs + (nanos / NANOS_PER_SEC) as u64, nanos: nanos % NANOS_PER_SEC }
    }

    /// The whole seconds.
    pub fn as_secs(&self) -> (r: u64)
        ensures
            r == self.secs_spec(),
    {
        self.secs
    }

    /// The whole span in nanoseconds.
    pub fn as_nanos(&self) -> (r: u128)
        ensures
            r == self.total_nanos(),
    {
        proof {
            use_type_invariant(self);
        }
        assert(self.secs * 1_000_000_000 <= u64::MAX * 1_000_000_000) by (nonlinear_arith)
            requires
                self.secs <= u64::MAX,
        ;
        self.secs as u128 * 1_000_000_000 + self.nanos as u128
    }

    /// The nanoseconds beyond the whole seconds.
    pub fn subsec_nanos(&self) -> (r: u32)
        ensures
            r == self.nanos_spec(),
            r < NANOS_PER_SEC,
    {
        proof {
            use_type_invariant(self);
        }
        self.nanos
    }
}

#[verifier::external_type_specification]
#[verifier::external_body]
pub struct ExSystemTime(std::time::SystemTime);

/// The current time of the system clock.
///
/// Trusted wrapper of `std::time::SystemTime::now`; nothing is stated of
/// the value, which depends on the clock.
#[verifier::external_body]
fn system_now() -> (t: std::time::SystemTime) {
    std::time::SystemTime::now()
}

/// The time from the Unix epoch to `t`, or zero if `t` is before the epoch.
///
/// Trusted wrapper of `SystemTime::duration_since` with `UNIX_EPOCH`; the
/// `Duration` is carried over part for part (`as_secs`, `subsec_nanos`,
/// documented below a second). Nothing is stated of the value.
#[verifier::external_body]
fn since_unix_epoch(t: &std::time::SystemTime) -> (r: TimeSpan) {
    match t.duration_since(std::time::UNIX_EPOCH) {
        Ok(d) => TimeSpan { secs: d.as_secs(), nanos: d.subsec_nanos() },
        Err(_) => TimeSpan { secs: 0, nanos: 0 },
    }
}

/// Whole seconds since the Unix epoch by the system clock.
pub(crate) fn unix_seconds() -> (t: u64) {
    since_unix_epoch(&system_now()).as_secs()
}

/// Nanoseconds since the Unix epoch by the system clock, `u64::MAX` past
/// what a `u64` holds.
pub(crate) fn unix_nanos() -> (t: u64) {
    let n: u128 = since_unix_epoch(&system_now()).as_nanos();
    if n > u64::MAX as u128 {
        u64::MAX
    } else {
        n as u64
    }
}

/// Whether `elapsed` nanoseconds reach the span `t`.
pub open spec fn reached(elapsed: u64, t: TimeSpan) -> bool {
    elapsed >= t.total_nanos()
}

/// Whether `elapsed` nanoseconds reach the span `t`.
pub fn span_reached(elapsed: u64, t: TimeSpan) -> (r: bool)
    ensures
        r == reached(elapsed, t),
{
    elapsed as u128 >= t.as_nanos()
}

/// What `format!("{:?}", Duration::new(secs, nanos))` gives: the `Debug`
/// text of a `std::time::Duration`.
pub uninterp spec fn duration_debug(secs: u64, nanos: u32) -> Seq<char>;

/// The `Debug` text of the span `secs` seconds and `nanos` nanoseconds.
///
/// Trusted wrapper of the standard `Debug` formatting of
/// `std::time::Duration`; the text is named `duration_debug` of the two
/// parts. `nanos` below a second keeps `Duration::new` from carrying, so it
/// cannot panic.
#[verifier::external_body]
pub(crate) fn debug_duration(secs: u64, nanos: u32) -> (r: String)
    requires
        nanos < NANOS_PER_SEC,
    ensures
        r@ == duration_debug(secs, nanos),
{
    format!("{:?}", std::time::Duration::new(secs, nanos))
}

} // verus!
