//! Whether commands came in time.

use crate::clock::{duration_text, time_since, write_duration, Timestamp, NANOS_PER_MS};
use crate::protocol::ReceivedCommand;
use crate::text::{signed_decimal, signed_decimal_text};
use vstd::prelude::*;
use vstd::string::StringExecFns;

verus! {

/// How late a command may be, in nanoseconds: 150 milliseconds.
pub const LATENCY_BOUND: u64 = 150_000_000;

/// What was not in time.
#[derive(Debug)]
pub struct TimingError(pub String);

impl TimingError {
    /// The words of this error.
    pub fn message(&self) -> (text: String)
        ensures
            text@ == self.0@,
    {
        self.0.clone()
    }
}

/// When an effect that was issued at `issued_at` is over.
pub fn expected_end_time(issued_at: Timestamp, replay_length_ms: u16) -> (end: Timestamp)
    requires
        issued_at.nanos + replay_length_ms * NANOS_PER_MS <= u64::MAX,
    ensures
        end.nanos == issued_at.nanos + replay_length_ms * NANOS_PER_MS,
{
    issued_at.plus_ms(replay_length_ms as u64)
}

/// A command came in time for something that was issued at `issued_at`. One that came before it
/// did, too.
pub open spec fn is_in_time(issued_at: Timestamp, command: ReceivedCommand) -> bool {
    time_since(command.at, issued_at) <= LATENCY_BOUND
}

/// The first command that came in time stands at `i`.
pub open spec fn first_in_time(
    issued_at: Timestamp,
    commands: Seq<ReceivedCommand>,
    i: int,
) -> bool {
    0 <= i < commands.len() && is_in_time(issued_at, commands[i]) && forall|j: int|
        0 <= j < i ==> !is_in_time(issued_at, #[trigger] commands[j])
}

/// The complaint that no command came in time, with the bound and with what came first.
pub open spec fn no_command_text(bound: Seq<char>, actual: Seq<char>) -> Seq<char> {
    "no command arrived within "@ + bound + " of issue (actual: "@ + actual + ")"@
}

/// How late the first command was; that there was none where there was none.
pub open spec fn actual_text(issued_at: Timestamp, commands: Seq<ReceivedCommand>) -> Seq<char> {
    if commands.len() == 0 {
        "no command received at all"@
    } else {
        duration_text(time_since(commands[0].at, issued_at))
    }
}

/// The complaint that no command came in time.
pub fn no_command_error(bound: &str, actual: &str) -> (error: TimingError)
    ensures
        error.0@ == no_command_text(bound@, actual@),
{
    let mut text = "no command arrived within ".to_owned();
    text.append(bound);
    text.append(" of issue (actual: ");
    text.append(actual);
    text.append(")");
    TimingError(text)
}

/// Returns the first command that came within [`LATENCY_BOUND`] of `issued_at`.
pub fn assert_command_within_bound(
    issued_at: Timestamp,
    commands: &[ReceivedCommand],
) -> (result: Result<&ReceivedCommand, TimingError>)
    ensures
        result is Ok <==> exists|i: int| #[trigger] first_in_time(issued_at, commands@, i),
        result matches Ok(command) ==> exists|i: int| #[trigger]
            first_in_time(issued_at, commands@, i) && *command == commands@[i],
        result matches Err(error) ==> error.0@ == no_command_text(
            duration_text(LATENCY_BOUND),
            actual_text(issued_at, commands@),
        ),
{
    let mut i: usize = 0;
    while i < commands.len()
        invariant
            i <= commands@.len(),
            forall|j: int| 0 <= j < i ==> !is_in_time(issued_at, #[trigger] commands@[j]),
        decreases commands@.len() - i,
    {
        if commands[i].at.saturating_duration_since(issued_at) <= LATENCY_BOUND {
            assert(first_in_time(issued_at, commands@, i as int));
            return Ok(&commands[i]);
        }
        i = i + 1;
    }
    let actual = if commands.len() == 0 {
        "no command received at all".to_owned()
    } else {
        write_duration(commands[0].at.saturating_duration_since(issued_at))
    };
    Err(no_command_error(write_duration(LATENCY_BOUND).as_str(), actual.as_str()))
}

/// How far two moments are apart.
pub open spec fn time_between(a: Timestamp, b: Timestamp) -> u64 {
    if a.nanos >= b.nanos {
        (a.nanos - b.nanos) as u64
    } else {
        (b.nanos - a.nanos) as u64
    }
}

/// The complaint that there is no last command.
pub open spec fn no_stop_text() -> Seq<char> {
    "no commands received; cannot check final stop"@
}

/// The complaint that the last command does not stop.
pub open spec fn not_stopped_text(value: i32) -> Seq<char> {
    "final command value was "@ + signed_decimal(value as int) + ", expected 0 (stop)"@
}

/// The complaint that the last command stops at the wrong time.
pub open spec fn wrong_stop_text(delta: Seq<char>, bound: Seq<char>) -> Seq<char> {
    "final stop command arrived "@ + delta + " from expected end time (bound "@ + bound + ")"@
}

/// The complaint that the last command does not stop.
pub fn not_stopped_error(value: i32) -> (error: TimingError)
    ensures
        error.0@ == not_stopped_text(value),
{
    let mut text = "final command value was ".to_owned();
    text.append(signed_decimal_text(value).as_str());
    text.append(", expected 0 (stop)");
    TimingError(text)
}

/// The complaint that the last command stops at the wrong time.
pub fn wrong_stop_error(delta: &str, bound: &str) -> (error: TimingError)
    ensures
        error.0@ == wrong_stop_text(delta@, bound@),
{
    let mut text = "final stop command arrived ".to_owned();
    text.append(delta);
    text.append(" from expected end time (bound ");
    text.append(bound);
    text.append(")");
    TimingError(text)
}

/// What is wrong with the last command, for an effect that is over at `expected_end`.
pub open spec fn final_zero_complaint(
    expected_end: Timestamp,
    commands: Seq<ReceivedCommand>,
) -> Option<Seq<char>> {
    if commands.len() == 0 {
        Some(no_stop_text())
    } else if commands.last().value != 0 {
        Some(not_stopped_text(commands.last().value))
    } else if time_between(commands.last().at, expected_end) > LATENCY_BOUND {
        Some(
            wrong_stop_text(
                duration_text(time_between(commands.last().at, expected_end)),
                duration_text(LATENCY_BOUND),
            ),
        )
    } else {
        None
    }
}

/// Whether the last command stops the actuator, within [`LATENCY_BOUND`] of `expected_end`, before
/// or after it.
pub fn assert_final_zero_within_bound(
    expected_end: Timestamp,
    commands: &[ReceivedCommand],
) -> (result: Result<(), TimingError>)
    ensures
        match (result, final_zero_complaint(expected_end, commands@)) {
            (Ok(_), complaint) => complaint is None,
            (Err(error), complaint) => complaint == Some(error.0@),
        },
{
    if commands.len() == 0 {
        return Err(TimingError("no commands received; cannot check final stop".to_owned()));
    }
    let last = commands[commands.len() - 1];
    if last.value != 0 {
        return Err(not_stopped_error(last.value));
    }
    let delta: u64 = if last.at.nanos >= expected_end.nanos {
        last.at.nanos - expected_end.nanos
    } else {
        expected_end.nanos - last.at.nanos
    };
    if delta > LATENCY_BOUND {
        return Err(
            wrong_stop_error(
                write_duration(delta).as_str(),
                write_duration(LATENCY_BOUND).as_str(),
            ),
        );
    }
    Ok(())
}

/// A command is found in time exactly where one of the commands came in time.
pub proof fn found_where_one_is_in_time(issued_at: Timestamp, commands: Seq<ReceivedCommand>)
    ensures
        (exists|i: int| #[trigger] first_in_time(issued_at, commands, i)) <==> (exists|i: int|
            0 <= i < commands.len() && is_in_time(issued_at, #[trigger] commands[i])),
    decreases commands.len(),
{
    if exists|i: int| 0 <= i < commands.len() && is_in_time(issued_at, #[trigger] commands[i]) {
        let i = choose|i: int|
            0 <= i < commands.len() && is_in_time(issued_at, #[trigger] commands[i]);
        lemma_first_in_time(issued_at, commands, i);
    }
}

proof fn lemma_first_in_time(issued_at: Timestamp, commands: Seq<ReceivedCommand>, i: int)
    requires
        0 <= i < commands.len(),
        is_in_time(issued_at, commands[i]),
    ensures
        exists|k: int| #[trigger] first_in_time(issued_at, commands, k),
    decreases i,
{
    if exists|j: int| 0 <= j < i && is_in_time(issued_at, #[trigger] commands[j]) {
        let j = choose|j: int| 0 <= j < i && is_in_time(issued_at, #[trigger] commands[j]);
        lemma_first_in_time(issued_at, commands, j);
    } else {
        assert(first_in_time(issued_at, commands, i));
    }
}

/// An effect is over as many milliseconds after its issue as its replay lasts.
pub proof fn effect_is_over_after_its_replay(
    issued_at: Timestamp,
    replay_length_ms: u16,
    end: Timestamp,
)
    requires
        call_ensures(expected_end_time, (issued_at, replay_length_ms), end),
    ensures
        end.nanos - issued_at.nanos == 1_000_000 * replay_length_ms,
{
}

/// A command is found exactly where one came no later than 150 milliseconds after the issue, and
/// the one that is found is the first of those.
pub proof fn first_command_in_time_is_found(
    issued_at: Timestamp,
    commands: &[ReceivedCommand],
    result: Result<&ReceivedCommand, TimingError>,
    i: int,
)
    requires
        call_ensures(assert_command_within_bound, (issued_at, commands), result),
    ensures
        0 <= i < commands@.len() && commands@[i].at.nanos <= issued_at.nanos + 150_000_000
            ==> result is Ok,
        result matches Ok(command) ==> exists|k: int|
            0 <= k < commands@.len() && *command == #[trigger] commands@[k]
                && commands@[k].at.nanos <= issued_at.nanos + 150_000_000 && forall|j: int|
                0 <= j < k ==> (#[trigger] commands@[j]).at.nanos > issued_at.nanos + 150_000_000,
{
    if 0 <= i < commands@.len() && commands@[i].at.nanos <= issued_at.nanos + 150_000_000 {
        assert(is_in_time(issued_at, commands@[i]));
        found_where_one_is_in_time(issued_at, commands@);
    }
    if let Ok(command) = result {
        let k = choose|k: int| #[trigger]
            first_in_time(issued_at, commands@, k) && *command == commands@[k];
        assert forall|j: int| 0 <= j < k implies (#[trigger] commands@[j]).at.nanos
            > issued_at.nanos + 150_000_000 by {
            assert(!is_in_time(issued_at, commands@[j]));
        }
        assert(*command == commands@[k]);
    }
}

/// The end is as it should be exactly where there is a last command, it stops, and it came at most
/// 150 milliseconds before or after the expected end.
pub proof fn last_command_stops_in_time(
    expected_end: Timestamp,
    commands: &[ReceivedCommand],
    result: Result<(), TimingError>,
)
    requires
        call_ensures(assert_final_zero_within_bound, (expected_end, commands), result),
    ensures
        result is Ok <==> {
            &&& commands@.len() > 0
            &&& commands@[commands@.len() - 1].value == 0
            &&& commands@[commands@.len() - 1].at.nanos <= expected_end.nanos + 150_000_000
            &&& expected_end.nanos <= commands@[commands@.len() - 1].at.nanos + 150_000_000
        },
{
}

/// Where no command came in time, it is told how late the first one was, or that none came at all.
pub proof fn lateness_is_told(
    issued_at: Timestamp,
    commands: &[ReceivedCommand],
    result: Result<&ReceivedCommand, TimingError>,
    late_nanos: u64,
)
    requires
        call_ensures(assert_command_within_bound, (issued_at, commands), result),
        commands@.len() > 0 && commands@[0].at.nanos > issued_at.nanos ==> late_nanos
            == commands@[0].at.nanos - issued_at.nanos,
    ensures
        result matches Err(error) ==> error.0@ == "no command arrived within "@ + duration_text(
            150_000_000,
        ) + " of issue (actual: "@ + (if commands@.len() == 0 {
            "no command received at all"@
        } else {
            duration_text(late_nanos)
        }) + ")"@,
{
    if let Err(_) = result {
        if commands@.len() > 0 && commands@[0].at.nanos <= issued_at.nanos {
            first_command_in_time_is_found(issued_at, commands, result, 0);
        }
    }
}

/// Where the end is not as it should be, the first of these is told: that no command came, that the
/// last one does not stop, and how far from the expected end it came.
pub proof fn wrong_end_is_told(
    expected_end: Timestamp,
    commands: &[ReceivedCommand],
    result: Result<(), TimingError>,
    apart_nanos: u64,
)
    requires
        call_ensures(assert_final_zero_within_bound, (expected_end, commands), result),
        commands@.len() > 0 ==> apart_nanos == expected_end.nanos - commands@[commands@.len()
            - 1].at.nanos || apart_nanos == commands@[commands@.len() - 1].at.nanos
            - expected_end.nanos,
    ensures
        result matches Err(error) ==> error.0@ == (if commands@.len() == 0 {
            "no commands received; cannot check final stop"@
        } else if commands@[commands@.len() - 1].value != 0 {
            "final command value was "@ + signed_decimal(
                commands@[commands@.len() - 1].value as int,
            ) + ", expected 0 (stop)"@
        } else {
            "final stop command arrived "@ + duration_text(apart_nanos)
                + " from expected end time (bound "@ + duration_text(150_000_000) + ")"@
        }),
{
}

/// The words of an error are its text, and complaints are written around what they are given.
pub proof fn errors_are_told_in_words(
    error: TimingError,
    words: String,
    bound: &str,
    actual: &str,
    none: TimingError,
    value: i32,
    running: TimingError,
    late: TimingError,
)
    requires
        call_ensures(TimingError::message, (&error,), words),
        call_ensures(no_command_error, (bound, actual), none),
        call_ensures(not_stopped_error, (value,), running),
        call_ensures(wrong_stop_error, (actual, bound), late),
    ensures
        words@ == error.0@,
        none.0@ == "no command arrived within "@ + bound@ + " of issue (actual: "@ + actual@ + ")"@,
        running.0@ == "final command value was "@ + signed_decimal(value as int)
            + ", expected 0 (stop)"@,
        late.0@ == "final stop command arrived "@ + actual@ + " from expected end time (bound "@
            + bound@ + ")"@,
{
}

} // verus!
