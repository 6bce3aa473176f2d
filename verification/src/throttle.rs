//! The least time between two haptic sequences.

use crate::clock::{time_since, Clock, Timestamp, NANOS_PER_MS};
use std::time::Instant;
use vstd::prelude::*;

verus! {

/// The least time between two haptic sequences, in milliseconds.
pub const MIN_INTERVAL_MS: u64 = 10;

/// Whether `elapsed_nanos` nanoseconds are at least the least interval.
pub open spec fn spec_interval_passed(elapsed_nanos: int) -> bool {
    elapsed_nanos >= MIN_INTERVAL_MS * NANOS_PER_MS
}

/// Whether a sequence may start, `elapsed_nanos` nanoseconds after the one before it.
pub fn interval_passed(elapsed_nanos: u64) -> (passed: bool)
    ensures
        passed == spec_interval_passed(elapsed_nanos as int),
{
    elapsed_nanos >= MIN_INTERVAL_MS * NANOS_PER_MS
}

/// A sequence may start at `now`, where the last one was recorded at `last_haptic`: the first
/// always may.
pub open spec fn admits(last_haptic: Option<Timestamp>, now: Timestamp) -> bool {
    last_haptic matches Some(last) ==> spec_interval_passed(time_since(now, last) as int)
}

/// Remembers when the last haptic sequence was started.
pub struct Throttle {
    clock: Clock,
    last_haptic: Option<Timestamp>,
}

/// The origin of the throttle's clock, its latest reading, and when the last sequence was recorded.
pub struct ThrottleView {
    pub origin: Instant,
    pub clock: Timestamp,
    pub last_haptic: Option<Timestamp>,
}

impl View for Throttle {
    type V = ThrottleView;

    closed spec fn view(&self) -> ThrottleView {
        ThrottleView {
            origin: self.clock@.origin,
            clock: self.clock@.latest,
            last_haptic: self.last_haptic,
        }
    }
}

impl Throttle {
    /// A throttle that has seen no sequence yet.
    pub fn new() -> (throttle: Self)
        ensures
            throttle@.clock.nanos == 0,
            throttle@.last_haptic is None,
    {
        Throttle { clock: Clock::new(), last_haptic: None }
    }

    /// Reads the throttle's clock.
    pub fn read_clock(&mut self) -> (now: Timestamp)
        ensures
            now.nanos >= old(self)@.clock.nanos,
            final(self)@ == (ThrottleView { clock: now, ..old(self)@ }),
    {
        self.clock.read()
    }

    /// Whether a sequence may start at `now`.
    pub fn admits_at(&self, now: Timestamp) -> (emit: bool)
        ensures
            emit == admits(self@.last_haptic, now),
    {
        match self.last_haptic {
            None => true,
            Some(last) => interval_passed(now.saturating_duration_since(last)),
        }
    }

    /// Whether a sequence may start now. The first always may; a later one may when at least
    /// [`MIN_INTERVAL_MS`] have passed since the last was recorded.
    pub fn should_emit_haptic(&mut self) -> (emit: bool)
        ensures
            old(self)@.last_haptic is None ==> emit,
            exists|now: Timestamp|
                {
                    &&& now.nanos >= old(self)@.clock.nanos
                    &&& final(self)@ == (ThrottleView { clock: now, ..old(self)@ })
                    &&& emit == #[trigger] admits(old(self)@.last_haptic, now)
                },
    {
        let now = self.read_clock();
        self.admits_at(now)
    }

    /// Records that a sequence has been started now.
    pub fn record_haptic_emitted(&mut self)
        ensures
            final(self)@ == (ThrottleView {
                origin: old(self)@.origin,
                clock: final(self)@.clock,
                last_haptic: Some(final(self)@.clock),
            }),
            final(self)@.clock.nanos >= old(self)@.clock.nanos,
    {
        let now = self.read_clock();
        self.record_at(now);
    }

    /// Records that a sequence has been started at `now`.
    pub fn record_at(&mut self, now: Timestamp)
        ensures
            final(self)@ == (ThrottleView { last_haptic: Some(now), ..old(self)@ }),
    {
        self.last_haptic = Some(now);
    }
}

/// The interval has passed after ten milliseconds, and however long after them, and not before.
pub proof fn interval_is_ten_milliseconds(elapsed_nanos: u64, passed: bool)
    requires
        call_ensures(interval_passed, (elapsed_nanos,), passed),
    ensures
        passed <==> elapsed_nanos >= 10_000_000,
{
}

/// A throttle that has recorded nothing admits at any time. One that has recorded a sequence admits
/// from ten milliseconds after it on, however long after, and not before.
pub proof fn throttle_admits_from_ten_milliseconds_on(
    throttle: &Throttle,
    now: Timestamp,
    emit: bool,
)
    requires
        call_ensures(Throttle::admits_at, (throttle, now), emit),
    ensures
        throttle@.last_haptic is None ==> emit,
        throttle@.last_haptic matches Some(last) ==> (emit <==> now.nanos >= last.nanos
            + 10_000_000),
{
}

/// What the throttle answers when it reads its own clock is what it answers for some moment that is
/// not before the last reading; nothing but the reading changes.
pub proof fn throttle_answers_for_its_clock(throttle: &mut Throttle, emit: bool)
    requires
        call_ensures(Throttle::should_emit_haptic, (throttle,), emit),
    ensures
        final(throttle)@.clock.nanos >= old(throttle)@.clock.nanos,
        final(throttle)@.last_haptic == old(throttle)@.last_haptic,
        final(throttle)@.origin == old(throttle)@.origin,
        old(throttle)@.last_haptic is None ==> emit,
        old(throttle)@.last_haptic matches Some(last) ==> (emit <==> final(throttle)@.clock.nanos
            >= last.nanos + 10_000_000),
{
}

/// A sequence that is recorded at a moment keeps others away for ten milliseconds from that moment,
/// whatever was recorded before, and for no longer.
pub proof fn recorded_moment_is_what_counts(
    throttle: &mut Throttle,
    recorded: Timestamp,
    now: Timestamp,
    emit: bool,
)
    requires
        call_ensures(Throttle::record_at, (throttle, recorded), ()),
        call_ensures(Throttle::admits_at, (&*final(throttle), now), emit),
    ensures
        emit <==> now.nanos >= recorded.nanos + 10_000_000,
        final(throttle)@.clock == old(throttle)@.clock,
        final(throttle)@.origin == old(throttle)@.origin,
{
}

/// A sequence that is recorded now is recorded at the reading of the throttle's own clock, which
/// does not go back.
pub proof fn recording_reads_the_clock(throttle: &mut Throttle)
    requires
        call_ensures(Throttle::record_haptic_emitted, (throttle,), ()),
    ensures
        final(throttle)@.last_haptic == Some(final(throttle)@.clock),
        final(throttle)@.clock.nanos >= old(throttle)@.clock.nanos,
        final(throttle)@.origin == old(throttle)@.origin,
{
}

/// Reading the throttle's clock does not take it back, and changes nothing else.
pub proof fn reading_moves_the_clock_alone(throttle: &mut Throttle, now: Timestamp)
    requires
        call_ensures(Throttle::read_clock, (throttle,), now),
    ensures
        now.nanos >= old(throttle)@.clock.nanos,
        final(throttle)@.clock == now,
        final(throttle)@.last_haptic == old(throttle)@.last_haptic,
        final(throttle)@.origin == old(throttle)@.origin,
{
}

} // verus!
