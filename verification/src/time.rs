//! The frame clock: time since start, and between the last two ticks.

use std::time::{Duration, Instant};
use vstd::prelude::*;

verus! {

/// Nanoseconds in one second.
pub const NANOS_PER_SEC: u32 = 1_000_000_000;

/// `std::time::Instant`, a point on the system's monotonic clock. Nothing is
/// known of a value but what the clock's own operations say.
#[verifier::external_type_specification]
#[verifier::external_body]
pub struct ExInstant(std::time::Instant);

/// `Instant::now` reads the monotonic clock. Nothing is claimed of the
/// reading.
pub assume_specification[ std::time::Instant::now ]() -> (now: Instant)
;

/// `Instant::saturating_duration_since` gives the time from `earlier` to
/// `later`, zero where `earlier` is the later of the two. Nothing is claimed
/// of the amount.
pub assume_specification[ std::time::Instant::saturating_duration_since ](
    later: &Instant,
    earlier: Instant,
) -> (elapsed: Duration)
;

/// `Duration::as_secs` gives the whole seconds of a duration. Nothing is
/// claimed of the number.
pub assume_specification[ std::time::Duration::as_secs ](duration: &Duration) -> (secs: u64)
;

/// `Duration::subsec_nanos` gives the part of a duration beyond its whole
/// seconds, in nanoseconds: always less than one second.
pub assume_specification[ std::time::Duration::subsec_nanos ](duration: &Duration) -> (nanos: u32)
    ensures
        nanos < NANOS_PER_SEC,
;

/// A length of time, never negative, exact to the nanosecond. Its view is
/// the length in nanoseconds.
#[derive(Clone, Copy, Debug, PartialEq, Eq, Structural)]
pub struct Span {
    secs: u64,
    nanos: u32,
}

impl View for Span {
    type V = nat;

    closed spec fn view(&self) -> nat {
        (self.secs * NANOS_PER_SEC + self.nanos) as nat
    }
}

impl Span {
    #[verifier::type_invariant]
    spec fn within_second(self) -> bool {
        self.nanos < NANOS_PER_SEC
    }

    /// The span of `secs` seconds and `nanos` nanoseconds; `None` where
    /// `nanos` holds a second or more.
    pub fn new(secs: u64, nanos: u32) -> (span: Option<Span>)
        ensures
            match span {
                Some(span) => nanos < NANOS_PER_SEC && span@ == secs * NANOS_PER_SEC + nanos,
                None => nanos >= NANOS_PER_SEC,
            },
    {
        if nanos < NANOS_PER_SEC {
            Some(Span { secs, nanos })
        } else {
            None
        }
    }

    /// The empty span.
    pub fn zero() -> (span: Span)
        ensures
            span@ == 0,
    {
        Span { secs: 0, nanos: 0 }
    }

    /// The whole seconds of the span.
    pub fn secs(&self) -> (secs: u64)
        ensures
            secs == self@ / (NANOS_PER_SEC as nat),
    {
        proof {
            use_type_invariant(self);
        }
        self.secs
    }

    /// The part of the span beyond its whole seconds, in nanoseconds.
    pub fn subsec_nanos(&self) -> (nanos: u32)
        ensures
            nanos == self@ % (NANOS_PER_SEC as nat),
    {
        proof {
            use_type_invariant(self);
        }
        self.nanos
    }

    /// The time from `earlier` to `self`; empty where `earlier` is the
    /// later of the two.
    pub fn since(self, earlier: Span) -> (elapsed: Span)
        ensures
            elapsed@ == tick_delta(earlier@, self@),
    {
        proof {
            use_type_invariant(self);
            use_type_invariant(earlier);
        }
        if self.secs < earlier.secs || (self.secs == earlier.secs && self.nanos < earlier.nanos) {
            Span { secs: 0, nanos: 0 }
        } else if self.nanos >= earlier.nanos {
            Span { secs: self.secs - earlier.secs, nanos: self.nanos - earlier.nanos }
        } else {
            Span {
                secs: self.secs - earlier.secs - 1,
                nanos: self.nanos + (NANOS_PER_SEC - earlier.nanos),
            }
        }
    }
}

/// What a tick at `now` measures when the tick before it came at `last`,
/// both in nanoseconds since the clock's start: the time between the two,
/// and nothing where `now` lies before `last`.
pub open spec fn tick_delta(last: nat, now: nat) -> nat {
    if now >= last {
        (now - last) as nat
    } else {
        0
    }
}

/// What a clock has measured, in nanoseconds.
pub struct Measured {
    /// When the last tick came, counted from the clock's start; 0 before
    /// the first tick.
    pub last_update: nat,
    /// The time between the last two ticks; before the second tick, between
    /// the start and the first; 0 before the first.
    pub delta: nat,
}

impl Measured {
    /// The reading of a clock that has not ticked yet.
    pub open spec fn start() -> Measured {
        Measured { last_update: 0, delta: 0 }
    }

    /// The reading after one more tick, at `now` nanoseconds since the
    /// clock's start.
    pub open spec fn tick(self, now: nat) -> Measured {
        Measured { last_update: now, delta: tick_delta(self.last_update, now) }
    }
}

/// Two ticks that lie `advance` nanoseconds apart leave a delta of exactly
/// `advance`, whatever the clock had measured before.
pub proof fn ticks_measure_advance(before: Measured, first: nat, advance: nat)
    ensures
        before.tick(first).tick(first + advance).delta == advance,
{
}

/// The frame clock, changed by its ticks alone. Its view is what it has
/// measured.
#[derive(Debug)]
pub struct Time {
    init_time: Instant,
    time_of_last_update: Span,
    last_delta_time: Span,
}

impl View for Time {
    type V = Measured;

    closed spec fn view(&self) -> Measured {
        Measured { last_update: self.time_of_last_update@, delta: self.last_delta_time@ }
    }
}

impl Time {
    /// Starts a clock at the present moment.
    pub fn new() -> (time: Time)
        ensures
            time@ == Measured::start(),
    {
        Time {
            init_time: Instant::now(),
            time_of_last_update: Span::zero(),
            last_delta_time: Span::zero(),
        }
    }

    /// The time from the clock's start to the present moment.
    fn elapsed(&self) -> Span {
        let now = Instant::now();
        let elapsed = now.saturating_duration_since(self.init_time);
        Span { secs: elapsed.as_secs(), nanos: elapsed.subsec_nanos() }
    }

    /// Ticks at the present moment. Whatever the system's clock reads, the
    /// clock has ticked at the time it now shows as that of its last tick.
    pub fn update(&mut self)
        ensures
            final(self)@ == old(self)@.tick(final(self)@.last_update),
    {
        let now = self.elapsed();
        self.tick(now);
    }

    /// Ticks at `now`, a time since the clock's start.
    pub fn tick(&mut self, now: Span)
        ensures
            final(self)@ == old(self)@.tick(now@),
    {
        self.last_delta_time = now.since(self.time_of_last_update);
        self.time_of_last_update = now;
    }

    /// The time between the last two ticks.
    pub fn delta_time(&self) -> (delta: Span)
        ensures
            delta@ == self@.delta,
    {
        self.last_delta_time
    }
}

} // verus!
