//! How long to wait before the next try.

use vstd::prelude::*;

verus! {

/// The first wait before a new try to connect to the server, in milliseconds.
pub const CONNECT_FIRST_MS: u64 = 500;

/// The first wait before a new try to open a device, in milliseconds.
pub const READER_FIRST_MS: u64 = 200;

/// The longest wait, in milliseconds.
pub const LONGEST_MS: u64 = 5000;

/// The wait before a try: it doubles from one failure to the next, up to a longest one.
#[derive(Debug, Clone, Copy, PartialEq, Eq, Structural)]
pub struct Backoff {
    pub first_ms: u64,
    pub longest_ms: u64,
    pub next_ms: u64,
}

/// The wait that follows one of `wait_ms`.
pub open spec fn doubled(wait_ms: int, longest_ms: int) -> int {
    if 2 * wait_ms < longest_ms {
        2 * wait_ms
    } else {
        longest_ms
    }
}

/// The wait after `failures` earlier failures.
pub open spec fn nth_wait(first_ms: int, longest_ms: int, failures: nat) -> int
    decreases failures,
{
    if failures == 0 {
        first_ms
    } else {
        doubled(nth_wait(first_ms, longest_ms, (failures - 1) as nat), longest_ms)
    }
}

impl Backoff {
    /// The first wait is some time, and no wait exceeds the longest.
    pub open spec fn wf(&self) -> bool {
        0 < self.first_ms <= self.next_ms <= self.longest_ms
    }

    /// The waits of a connection to the server.
    pub fn connect() -> (backoff: Self)
        ensures
            backoff.wf(),
            backoff.first_ms == CONNECT_FIRST_MS,
            backoff.longest_ms == LONGEST_MS,
            backoff.next_ms == CONNECT_FIRST_MS,
    {
        Backoff {
            first_ms: CONNECT_FIRST_MS,
            longest_ms: LONGEST_MS,
            next_ms: CONNECT_FIRST_MS,
        }
    }

    /// The waits of a device reader.
    pub fn reader() -> (backoff: Self)
        ensures
            backoff.wf(),
            backoff.first_ms == READER_FIRST_MS,
            backoff.longest_ms == LONGEST_MS,
            backoff.next_ms == READER_FIRST_MS,
    {
        Backoff { first_ms: READER_FIRST_MS, longest_ms: LONGEST_MS, next_ms: READER_FIRST_MS }
    }

    /// A try has failed: returns how long to wait, in milliseconds, and doubles the next wait.
    pub fn fail(&mut self) -> (wait_ms: u64)
        requires
            old(self).wf(),
        ensures
            final(self).wf(),
            wait_ms == old(self).next_ms,
            *final(self) == (Backoff {
                next_ms: doubled(old(self).next_ms as int, old(self).longest_ms as int) as u64,
                ..*old(self)
            }),
    {
        let wait_ms: u64 = self.next_ms;
        self.next_ms = if wait_ms > self.longest_ms / 2 {
            self.longest_ms
        } else {
            2 * wait_ms
        };
        wait_ms
    }

    /// A try has succeeded: the next wait is the first one again.
    pub fn succeed(&mut self)
        requires
            old(self).wf(),
        ensures
            final(self).wf(),
            *final(self) == (Backoff { next_ms: old(self).first_ms, ..*old(self) }),
    {
        self.next_ms = self.first_ms;
    }
}

/// The waits never shorten from one failure to the next, and never exceed the longest.
pub proof fn waits_grow_to_the_longest(first_ms: int, longest_ms: int, failures: nat)
    requires
        0 < first_ms <= longest_ms,
    ensures
        first_ms <= nth_wait(first_ms, longest_ms, failures) <= nth_wait(
            first_ms,
            longest_ms,
            failures + 1,
        ) <= longest_ms,
    decreases failures,
{
    if failures > 0 {
        waits_grow_to_the_longest(first_ms, longest_ms, (failures - 1) as nat);
    }
}

/// A backoff that has failed so many times since it was made or last succeeded waits accordingly.
pub proof fn failure_takes_the_next_wait(before: Backoff, after: Backoff, failures: nat)
    requires
        before.wf(),
        before.next_ms == nth_wait(before.first_ms as int, before.longest_ms as int, failures),
        after.first_ms == before.first_ms,
        after.longest_ms == before.longest_ms,
        after.next_ms == doubled(before.next_ms as int, before.longest_ms as int),
    ensures
        after.next_ms == nth_wait(after.first_ms as int, after.longest_ms as int, failures + 1),
{
}

/// Each wait is twice the one before, as long as that is not more than the longest, and the longest
/// from then on.
pub proof fn failures_double_the_wait(backoff: &mut Backoff, wait_ms: u64)
    requires
        old(backoff).wf(),
        call_ensures(Backoff::fail, (backoff,), wait_ms),
    ensures
        wait_ms == old(backoff).next_ms,
        2 * wait_ms <= old(backoff).longest_ms ==> final(backoff).next_ms == 2 * wait_ms,
        2 * wait_ms >= old(backoff).longest_ms ==> final(backoff).next_ms
            == old(backoff).longest_ms,
        final(backoff).first_ms == old(backoff).first_ms,
        final(backoff).longest_ms == old(backoff).longest_ms,
{
}

/// After a success the next failure waits as long as the very first one did.
pub proof fn success_starts_over(backoff: &mut Backoff, again: &mut Backoff, wait_ms: u64)
    requires
        old(backoff).wf(),
        call_ensures(Backoff::succeed, (backoff,), ()),
        *old(again) == *final(backoff),
        call_ensures(Backoff::fail, (again,), wait_ms),
    ensures
        wait_ms == old(backoff).first_ms,
        final(again).first_ms == old(backoff).first_ms,
        final(again).longest_ms == old(backoff).longest_ms,
{
}

/// A connection is tried again after half a second at first, a device after a fifth of a second,
/// and both after five seconds at most.
pub proof fn first_and_longest_waits(connect: Backoff, reader: Backoff)
    requires
        call_ensures(Backoff::connect, (), connect),
        call_ensures(Backoff::reader, (), reader),
    ensures
        connect == (Backoff { first_ms: 500, longest_ms: 5000, next_ms: 500 }),
        reader == (Backoff { first_ms: 200, longest_ms: 5000, next_ms: 200 }),
{
}

} // verus!
