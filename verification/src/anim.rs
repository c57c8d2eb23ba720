//! Animation timing: an animation starts now and runs for a duration,
//! once or looping.

use vstd::prelude::*;
use std::time::{Duration, Instant};

verus! {

#[verifier::external_type_specification]
#[verifier::external_body]
pub struct ExInstant(Instant);

/// Calls `Instant::now`, the current time; nothing is stated of it.
#[verifier::external_body]
fn now() -> (r: Instant) {
    Instant::now()
}

/// Calls `Instant::elapsed`, the time since `t`; it depends on the clock,
/// so nothing is stated of it.
#[verifier::external_body]
fn elapsed(t: &Instant) -> (r: Duration) {
    t.elapsed()
}

/// Calls `Duration::as_nanos`, the whole nanoseconds in `d`. A duration
/// is opaque here, so the count is not stated.
#[verifier::external_body]
fn nanos(d: &Duration) -> (r: u128) {
    d.as_nanos()
}

/// An animation: when it started, how long one run lasts, and whether it
/// repeats.
#[derive(Clone, Copy, Debug)]
pub struct Anim {
    started: Instant,
    duration: Duration,
    /// The run length in whole nanoseconds, read once at the start.
    duration_ns: u128,
    looping: bool,
}

/// A one-shot animation is done once its duration has elapsed; a looping
/// one never is.
pub open spec fn done_after(looping: bool, elapsed_ns: u128, duration_ns: u128) -> bool {
    !looping && elapsed_ns >= duration_ns
}

/// Whether an animation with this timing is done.
pub fn finished(looping: bool, elapsed_ns: u128, duration_ns: u128) -> (r: bool)
    ensures
        r == done_after(looping, elapsed_ns, duration_ns),
{
    !looping && elapsed_ns >= duration_ns
}

impl Anim {
    /// The animation repeats.
    pub closed spec fn is_looping(&self) -> bool {
        self.looping
    }

    /// How long one run lasts.
    pub closed spec fn run_length(&self) -> Duration {
        self.duration
    }

    /// How long one run lasts, in whole nanoseconds.
    pub closed spec fn run_nanos(&self) -> u128 {
        self.duration_ns
    }

    /// When the animation started.
    pub closed spec fn start(&self) -> Instant {
        self.started
    }

    /// An animation of `duration`, repeating when `looping`, that started
    /// at `start`.
    pub fn starting_at(start: Instant, duration: Duration, looping: bool) -> (a: Anim)
        ensures
            a.start() == start,
            a.run_length() == duration,
            a.is_looping() == looping,
    {
        let duration_ns = nanos(&duration);
        Anim { started: start, duration, duration_ns, looping }
    }

    /// A one-shot animation of `duration`, starting now.
    pub fn new(duration: Duration) -> (a: Anim)
        ensures
            !a.is_looping(),
            a.run_length() == duration,
    {
        Anim::starting_at(now(), duration, false)
    }

    /// A looping animation with period `duration`, starting now.
    pub fn looping(duration: Duration) -> (a: Anim)
        ensures
            a.is_looping(),
            a.run_length() == duration,
    {
        Anim::starting_at(now(), duration, true)
    }

    /// When the animation started.
    pub fn started_at(&self) -> (r: Instant)
        ensures
            r == self.start(),
    {
        self.started
    }

    /// How long one run lasts.
    pub fn duration(&self) -> (r: Duration)
        ensures
            r == self.run_length(),
    {
        self.duration
    }

    /// Whether the animation repeats.
    pub fn repeats(&self) -> (r: bool)
        ensures
            r == self.is_looping(),
    {
        self.looping
    }

    /// A one-shot animation is done once its duration has elapsed; a
    /// looping one never is. How much time has elapsed comes from the
    /// clock, so a one-shot animation of positive length may be done or
    /// not; one of length zero is done from the start.
    pub fn is_done(&self) -> (r: bool)
        ensures
            r ==> !self.is_looping(),
            !self.is_looping() && self.run_nanos() == 0 ==> r,
    {
        let e = elapsed(&self.started);
        finished(self.looping, nanos(&e), self.duration_ns)
    }
}

} // verus!
