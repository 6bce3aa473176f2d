//! Time: the clock's readings, and moments as plain numbers.

use std::time::Instant;
use vstd::prelude::*;

verus! {

/// The clock's reading, which no proof looks into.
#[verifier::external_type_specification]
#[verifier::external_body]
pub struct ExInstant(std::time::Instant);

/// `std::time::Instant::now`: the clock's reading at the time of the call. Nothing is promised of
/// it, since it depends on the time alone.
pub assume_specification[ std::time::Instant::now ]() -> Instant;

/// `std::time::Instant::elapsed`, in nanoseconds: the time that has passed since `since`. Nothing
/// is promised of the number, since it depends on when the call is made.
#[verifier::external_body]
pub(crate) fn nanos_since(since: &Instant) -> (nanos: u128) {
    since.elapsed().as_nanos()
}

/// A moment, in nanoseconds since some fixed earlier one.
#[derive(Debug, Clone, Copy, PartialEq, Eq, Structural)]
pub struct Timestamp {
    pub nanos: u64,
}

/// The nanoseconds of a millisecond.
pub const NANOS_PER_MS: u64 = 1_000_000;

/// How long after `earlier` the moment `later` is; zero where it is not after it.
pub open spec fn time_since(later: Timestamp, earlier: Timestamp) -> u64 {
    if later.nanos > earlier.nanos {
        (later.nanos - earlier.nanos) as u64
    } else {
        0
    }
}

impl Timestamp {
    /// How long after `earlier` this moment is, in nanoseconds; zero where it is not after it.
    pub fn saturating_duration_since(self, earlier: Timestamp) -> (nanos: u64)
        ensures
            nanos == time_since(self, earlier),
    {
        self.nanos.saturating_sub(earlier.nanos)
    }

    /// The moment that many milliseconds later.
    pub fn plus_ms(self, ms: u64) -> (moment: Timestamp)
        requires
            self.nanos + ms * NANOS_PER_MS <= u64::MAX,
        ensures
            moment.nanos == self.nanos + ms * NANOS_PER_MS,
    {
        assert(ms * NANOS_PER_MS <= u64::MAX);
        Timestamp { nanos: self.nanos + ms * NANOS_PER_MS }
    }
}

/// A clock that counts from when it was made, and never goes back.
pub struct Clock {
    start: Instant,
    latest: Timestamp,
}

/// A clock: the moment that it counts from, and its latest reading.
pub struct ClockView {
    pub origin: Instant,
    pub latest: Timestamp,
}

impl View for Clock {
    type V = ClockView;

    closed spec fn view(&self) -> ClockView {
        ClockView { origin: self.start, latest: self.latest }
    }
}

/// What a clock shows when it counts `reading` nanoseconds: no more than fits, and never less than
/// it has shown.
pub open spec fn shown(latest: Timestamp, reading: u128) -> Timestamp {
    let capped = if reading > u64::MAX {
        u64::MAX
    } else {
        reading as u64
    };
    if capped > latest.nanos {
        Timestamp { nanos: capped }
    } else {
        latest
    }
}

impl Clock {
    /// A clock that counts from now.
    pub fn new() -> (clock: Self)
        ensures
            clock@.latest.nanos == 0,
    {
        Clock { start: Instant::now(), latest: Timestamp { nanos: 0 } }
    }

    /// Reads the clock: it shows the time since its origin, which stays as it is. How much time
    /// that is rests with the machine; it never goes back.
    pub fn read(&mut self) -> (now: Timestamp)
        ensures
            now.nanos >= old(self)@.latest.nanos,
            exists|reading: u128| now == #[trigger] shown(old(self)@.latest, reading),
            final(self)@ == (ClockView { latest: now, ..old(self)@ }),
    {
        let reading: u128 = nanos_since(&self.start);
        self.show(reading)
    }

    /// What [`Clock::read`] does when `reading` nanoseconds have passed since the origin.
    pub fn show(&mut self, reading: u128) -> (now: Timestamp)
        ensures
            now == shown(old(self)@.latest, reading),
            final(self)@ == (ClockView { latest: now, ..old(self)@ }),
    {
        let nanos: u64 = if reading > u64::MAX as u128 {
            u64::MAX
        } else {
            reading as u64
        };
        if nanos > self.latest.nanos {
            self.latest = Timestamp { nanos };
        }
        self.latest
    }
}

/// What `std` writes with `{:?}` for a `Duration` of so many nanoseconds.
pub uninterp spec fn duration_text(nanos: u64) -> Seq<char>;

/// `std`'s `Debug` formatting of a `Duration`. Which unit it takes, and how many digits, is left to
/// it.
#[verifier::external_body]
pub(crate) fn write_duration(nanos: u64) -> (text: String)
    ensures
        text@ == duration_text(nanos),
{
    format!("{:?}", std::time::Duration::from_nanos(nanos))
}

/// Between two moments lies their difference, and none where the first is not the earlier one.
pub proof fn duration_is_the_difference(later: Timestamp, earlier: Timestamp, nanos: u64)
    requires
        call_ensures(Timestamp::saturating_duration_since, (later, earlier), nanos),
    ensures
        later.nanos >= earlier.nanos ==> earlier.nanos + nanos == later.nanos,
        later.nanos <= earlier.nanos ==> nanos == 0,
{
}

/// A moment so many milliseconds later is a million times as many nanoseconds away.
pub proof fn a_millisecond_is_a_million_nanoseconds(
    moment: Timestamp,
    ms: u64,
    later: Timestamp,
)
    requires
        call_ensures(Timestamp::plus_ms, (moment, ms), later),
    ensures
        later.nanos - moment.nanos == 1_000_000 * ms,
{
}

/// A clock shows the reading wherever it can: it never shows less than before, less than the
/// reading only where that does not fit, and more than the reading only where it has shown that
/// before. What it counts from stays.
pub proof fn clock_shows_the_reading(clock: &mut Clock, reading: u128, now: Timestamp)
    requires
        call_ensures(Clock::show, (clock, reading), now),
    ensures
        now.nanos >= old(clock)@.latest.nanos,
        now.nanos < reading ==> now.nanos == u64::MAX,
        now.nanos > reading ==> now == old(clock)@.latest,
        final(clock)@.latest == now,
        final(clock)@.origin == old(clock)@.origin,
{
}

/// A clock that is read does not go back, and counts from where it did.
pub proof fn clock_never_goes_back(clock: &mut Clock, now: Timestamp)
    requires
        call_ensures(Clock::read, (clock,), now),
    ensures
        now.nanos >= old(clock)@.latest.nanos,
        final(clock)@.latest == now,
        final(clock)@.origin == old(clock)@.origin,
{
}

} // verus!
