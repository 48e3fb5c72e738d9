//! Frame timing: the time between two ticks.
use vstd::prelude::*;
use std::time::{Duration, Instant};

verus! {

#[verifier::external_type_specification]
#[verifier::external_body]
pub struct ExInstant(Instant);

/// Calls std's `Instant::now`; the result depends on the clock, so nothing
/// is claimed of it.
#[verifier::external_body]
fn instant_now() -> Instant {
    Instant::now()
}

/// Calls std's `Instant::elapsed`; the result depends on the clock, so
/// nothing is claimed of it.
#[verifier::external_body]
fn instant_elapsed(instant: &Instant) -> Duration {
    instant.elapsed()
}

/// Calls std's `Duration::as_secs`: the whole seconds of the duration.
#[verifier::external_body]
fn duration_as_secs(duration: &Duration) -> u64 {
    duration.as_secs()
}

/// Calls std's `Duration::subsec_nanos`, documented to be less than one
/// billion.
#[verifier::external_body]
fn duration_subsec_nanos(duration: &Duration) -> (nanos: u32)
    ensures
        nanos < 1_000_000_000,
{
    duration.subsec_nanos()
}

/// The time of the last tick and the time that passed before it.
pub struct Time {
    previous_frame_time: Instant,
    delta_secs: u64,
    delta_nanos: u32,
}

impl Time {
    /// The time between the last two ticks, as whole seconds and the
    /// nanoseconds beyond them.
    pub closed spec fn delta_spec(&self) -> (u64, u32) {
        (self.delta_secs, self.delta_nanos)
    }

    /// Starts timing now, with no time passed yet.
    pub fn init() -> (t: Self)
        ensures
            t.delta_spec() == (0u64, 0u32),
    {
        Self { previous_frame_time: instant_now(), delta_secs: 0, delta_nanos: 0 }
    }

    /// Records the time passed since the last tick, and now as the time of
    /// this tick.
    pub fn tick(&mut self)
        ensures
            final(self).delta_spec().1 < 1_000_000_000,
    {
        let elapsed = instant_elapsed(&self.previous_frame_time);
        let secs = duration_as_secs(&elapsed);
        let nanos = duration_subsec_nanos(&elapsed);
        self.record_delta(secs, nanos);
        self.previous_frame_time = instant_now();
    }

    /// Stores the time between the last two ticks, as whole seconds and
    /// the nanoseconds beyond them.
    pub fn record_delta(&mut self, secs: u64, nanos: u32)
        ensures
            final(self).delta_spec() == (secs, nanos),
    {
        self.delta_secs = secs;
        self.delta_nanos = nanos;
    }

    /// The time between the last two ticks, as whole seconds and the
    /// nanoseconds beyond them.
    pub fn delta(&self) -> (d: (u64, u32))
        ensures
            d == self.delta_spec(),
    {
        (self.delta_secs, self.delta_nanos)
    }
}

} // verus!
