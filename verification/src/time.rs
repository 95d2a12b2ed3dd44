//! The per-frame clock, and the wall-clock readings the library takes.

use vstd::prelude::*;

use std::time::{Duration, Instant, SystemTime};

verus! {

#[verifier::external_type_specification]
#[verifier::external_body]
pub struct ExInstant(std::time::Instant);

#[verifier::external_type_specification]
#[verifier::external_body]
pub struct ExSystemTime(std::time::SystemTime);

/// `Instant::now`: a reading of the monotonic clock. Nothing is promised of
/// its value.
#[verifier::external_body]
fn instant_now() -> (t: Instant) {
    Instant::now()
}

/// `Instant::duration_since`: the time from `earlier` to `now` (zero when
/// `earlier` is later). The value depends on clock readings, so nothing is
/// promised of it.
#[verifier::external_body]
fn instant_duration_since(now: &Instant, earlier: &Instant) -> (d: Duration) {
    now.duration_since(*earlier)
}

/// `SystemTime::now`: a reading of the wall clock. Nothing is promised of
/// its value.
#[verifier::external_body]
pub(crate) fn system_now() -> (t: SystemTime) {
    SystemTime::now()
}

/// `SystemTime::duration_since(UNIX_EPOCH)` in whole milliseconds, `None`
/// when `t` is before the epoch. Nothing is promised of the value.
#[verifier::external_body]
pub(crate) fn millis_since_epoch(t: &SystemTime) -> (m: Option<u128>) {
    match t.duration_since(std::time::UNIX_EPOCH) {
        Ok(d) => Some(d.as_millis()),
        Err(_) => None,
    }
}

/// A reading in milliseconds since the Unix epoch, 0 for a reading before
/// the epoch (`None`).
pub(crate) fn millis_or_zero(reading: Option<u128>) -> (m: u128)
    ensures
        m == match reading {
            Some(v) => v,
            None => 0,
        },
{
    match reading {
        Some(m) => m,
        None => 0,
    }
}

/// Milliseconds since the Unix epoch, 0 when the wall clock reads earlier.
/// The value is the clock's, so nothing is promised of it.
pub(crate) fn unix_millis() -> (m: u128) {
    let now = system_now();
    millis_or_zero(millis_since_epoch(&now))
}

/// Per-frame clock: `tick` returns the time since the previous tick, or a
/// fixed step while one is pinned (deterministic capture and soak runs).
pub struct FrameClock {
    last: Instant,
    frame: u64,
    pinned_dt: Option<Duration>,
    readings: Ghost<Seq<Instant>>,
}

impl View for FrameClock {
    /// The frame counter and the pinned step.
    type V = (u64, Option<Duration>);

    closed spec fn view(&self) -> (u64, Option<Duration>) {
        (self.frame, self.pinned_dt)
    }
}

/// One `tick` from `before` to `after`: the frame counter moves on by one
/// (wrapping), the pin stays, and unless a step is pinned the clock takes
/// one new reading, which becomes the instant the next tick measures from.
pub open spec fn ticked(before: FrameClock, after: FrameClock) -> bool {
    &&& after@.0 == (if before@.0 == u64::MAX { 0 } else { (before@.0 + 1) as u64 })
    &&& after@.1 == before@.1
    &&& before@.1 is None ==> after.readings() == before.readings().push(after.reference())
    &&& before@.1 is Some ==> after.readings() == before.readings() && after.reference() == before.reference()
}

impl FrameClock {
    /// The instant unpinned ticks measure from: the clock's latest reading.
    pub closed spec fn reference(&self) -> Instant {
        self.last
    }

    /// Every reading of the wall clock this clock has taken, oldest first.
    pub closed spec fn readings(&self) -> Seq<Instant> {
        self.readings@
    }

    pub fn new() -> (c: FrameClock)
        ensures
            c@ == (0u64, None::<Duration>),
            c.readings() == seq![c.reference()],
    {
        let now = instant_now();
        let ghost first = seq![now];
        FrameClock { last: now, frame: 0, pinned_dt: None, readings: Ghost(first) }
    }

    /// Advance one frame and return its step: the pinned step when there is
    /// one, otherwise the wall time since the previous tick.
    pub fn tick(&mut self) -> (dt: Duration)
        ensures
            final(self)@.0 == (if old(self)@.0 == u64::MAX { 0 } else { (old(self)@.0 + 1) as u64 }),
            final(self)@.1 == old(self)@.1,
            old(self)@.1 matches Some(fixed) ==> dt == fixed,
            ticked(*old(self), *final(self)),
    {
        let dt = match self.pinned_dt {
            Some(fixed) => fixed,
            None => {
                let now = instant_now();
                let dt = instant_duration_since(&now, &self.last);
                self.last = now;
                self.readings = Ghost(self.readings@.push(now));
                dt
            },
        };
        self.frame = self.frame.wrapping_add(1);
        dt
    }

    pub fn frame_index(&self) -> (n: u64)
        ensures
            n == self@.0,
    {
        self.frame
    }

    /// Restart the frame count and the wall-time reference.
    pub fn reset(&mut self)
        ensures
            final(self)@ == (0u64, old(self)@.1),
            final(self).readings() == old(self).readings().push(final(self).reference()),
    {
        let now = instant_now();
        self.last = now;
        self.readings = Ghost(self.readings@.push(now));
        self.frame = 0;
    }

    /// Make every `tick` return `dt`.
    pub fn pin_dt(&mut self, dt: Duration)
        ensures
            final(self)@ == (old(self)@.0, Some(dt)),
            final(self).readings() == old(self).readings(),
            final(self).reference() == old(self).reference(),
    {
        self.pinned_dt = Some(dt);
    }

    /// Go back to wall time, measured from now.
    pub fn unpin_dt(&mut self)
        ensures
            final(self)@ == (old(self)@.0, None::<Duration>),
            final(self).readings() == old(self).readings().push(final(self).reference()),
    {
        self.pinned_dt = None;
        let now = instant_now();
        self.last = now;
        self.readings = Ghost(self.readings@.push(now));
    }

    pub fn is_pinned(&self) -> (b: bool)
        ensures
            b == self@.1 is Some,
    {
        self.pinned_dt.is_some()
    }
}

impl Default for FrameClock {
    fn default() -> (c: FrameClock)
        ensures
            c@ == (0u64, None::<Duration>),
            c.readings() == seq![c.reference()],
    {
        FrameClock::new()
    }
}

/// While a step is pinned, consecutive ticks return the same step, and each
/// advances the frame counter by one.
pub proof fn law_pinned_ticks_repeat(c0: FrameClock, c1: FrameClock, c2: FrameClock, d1: Duration, d2: Duration)
    requires
        c0@.1 is Some,
        c0@.0 < u64::MAX - 1,
        c1@.0 == c0@.0 + 1 && c1@.1 == c0@.1 && (c0@.1 matches Some(f) ==> d1 == f),
        c2@.0 == c1@.0 + 1 && c2@.1 == c1@.1 && (c1@.1 matches Some(f) ==> d2 == f),
    ensures
        d1 == d2,
        c2@.0 == c0@.0 + 2,
        c2@.1 == c0@.1,
{
}

/// Unpinned, each tick measures from the instant the tick before it read:
/// two ticks take two new readings, in order, and the second starts from
/// the first one's reading, not from where the clock started.
pub proof fn law_unpinned_ticks_measure_from_previous_tick(c0: FrameClock, c1: FrameClock, c2: FrameClock)
    requires
        c0@.1 is None,
        ticked(c0, c1),
        ticked(c1, c2),
    ensures
        c2.readings() == c0.readings().push(c1.reference()).push(c2.reference()),
        c2.readings()[c0.readings().len() as int] == c1.reference(),
        c2.reference() == c2.readings().last(),
{
}

} // verus!
