//! The verdicts of the end-to-end tests.

use crate::clock::{duration_text, time_since, Timestamp, NANOS_PER_MS};
use crate::protocol::ReceivedCommand;
use crate::text::{decimal, decimal_text, texts};
use crate::timing::{
    actual_text, assert_command_within_bound, assert_final_zero_within_bound, final_zero_complaint,
    first_in_time, found_where_one_is_in_time, is_in_time, no_command_text, TimingError,
    LATENCY_BOUND,
};
use vstd::prelude::*;
use vstd::string::StringExecFns;

verus! {

/// An actuator index that the test server never offers.
pub const MISSING_INDEX: u32 = 99;

/// How long commands are collected after the last moment at which one may come, in milliseconds.
pub const SETTLE_MS: u64 = 500;

/// The device map of the tests: the first device is sent to all actuators, the second to one that
/// does not exist.
pub open spec fn test_map_text(broadcast_id: Seq<char>, isolated_id: Seq<char>) -> Seq<char> {
    "{\""@ + broadcast_id + "\": null, \""@ + isolated_id + "\": ["@ + decimal(MISSING_INDEX as nat)
        + "]}"@
}

/// Writes the device map of the tests.
pub fn device_map_json(broadcast_id: &str, isolated_id: &str) -> (json: String)
    ensures
        json@ == test_map_text(broadcast_id@, isolated_id@),
{
    let mut json = "{\"".to_owned();
    json.append(broadcast_id);
    json.append("\": null, \"");
    json.append(isolated_id);
    json.append("\": [");
    json.append(decimal_text(MISSING_INDEX as u64).as_str());
    json.append("]}");
    json
}

/// How long commands may still be collected, in nanoseconds; `None` where the deadline has come.
pub fn time_to_collect(deadline: Timestamp, now: Timestamp) -> (nanos: Option<u64>)
    ensures
        nanos == (if time_since(deadline, now) > 0 {
            Some(time_since(deadline, now))
        } else {
            None
        }),
{
    let remaining: u64 = deadline.saturating_duration_since(now);
    if remaining == 0 {
        None
    } else {
        Some(remaining)
    }
}

/// Until when commands are collected for a gesture that is to be over at `expected_end`.
pub fn gesture_deadline(expected_end: Timestamp) -> (deadline: Timestamp)
    requires
        expected_end.nanos + SETTLE_MS * NANOS_PER_MS <= u64::MAX,
    ensures
        deadline.nanos == expected_end.nanos + SETTLE_MS * NANOS_PER_MS,
{
    expected_end.plus_ms(SETTLE_MS)
}

/// Until when commands are collected for a play that was issued at `issued_at`.
pub fn command_deadline(issued_at: Timestamp) -> (deadline: Timestamp)
    requires
        issued_at.nanos + LATENCY_BOUND + SETTLE_MS * NANOS_PER_MS <= u64::MAX,
    ensures
        deadline.nanos == issued_at.nanos + LATENCY_BOUND + SETTLE_MS * NANOS_PER_MS,
{
    Timestamp { nanos: issued_at.nanos + LATENCY_BOUND }.plus_ms(SETTLE_MS)
}

/// A complaint under the name of its scenario.
pub open spec fn named(name: Seq<char>, complaint: Seq<char>) -> Seq<char> {
    name + ": "@ + complaint
}

/// Puts the name of its scenario before a complaint.
pub fn name_complaint(name: &str, complaint: &str) -> (text: String)
    ensures
        text@ == named(name@, complaint@),
{
    let mut text = name.to_owned();
    text.append(": ");
    text.append(complaint);
    text
}

/// The complaint that a step of a scenario failed, with the reason.
pub fn step_failure(name: &str, step: &str, reason: &str) -> (text: String)
    ensures
        text@ == named(name@, step@ + " failed: "@ + reason@),
{
    let mut complaint = step.to_owned();
    complaint.append(" failed: ");
    complaint.append(reason);
    name_complaint(name, complaint.as_str())
}

/// The complaint about the first command, if there is one: none came in time.
pub open spec fn command_complaint(
    issued_at: Timestamp,
    commands: Seq<ReceivedCommand>,
) -> Option<Seq<char>> {
    if exists|i: int| #[trigger] first_in_time(issued_at, commands, i) {
        None
    } else {
        Some(no_command_text(duration_text(LATENCY_BOUND), actual_text(issued_at, commands)))
    }
}

/// A list of the complaint, under its scenario's name, if there is one.
pub open spec fn listed_complaint(name: Seq<char>, complaint: Option<Seq<char>>) -> Seq<Seq<char>> {
    match complaint {
        Some(complaint) => seq![named(name, complaint)],
        None => seq![],
    }
}

/// The complaint about a play that was issued at `issued_at`, if no command came in time.
pub fn judge_command(name: &str, issued_at: Timestamp, commands: &[ReceivedCommand]) -> (complaints:
    Vec<String>)
    ensures
        texts(complaints@) == listed_complaint(name@, command_complaint(issued_at, commands@)),
{
    let mut complaints: Vec<String> = Vec::new();
    if let Err(error) = assert_command_within_bound(issued_at, commands) {
        complaints.push(name_complaint(name, error.0.as_str()));
    }
    assert(texts(complaints@) =~= listed_complaint(
        name@,
        command_complaint(issued_at, commands@),
    ));
    complaints
}

/// The complaints about a gesture that was issued at `issued_at` and is to be over at
/// `expected_end`: first that no command came in time, then what is wrong with the last one.
pub fn judge_gesture(
    name: &str,
    issued_at: Timestamp,
    expected_end: Timestamp,
    commands: &[ReceivedCommand],
) -> (complaints: Vec<String>)
    ensures
        texts(complaints@) == listed_complaint(name@, command_complaint(issued_at, commands@))
            + listed_complaint(name@, final_zero_complaint(expected_end, commands@)),
{
    let mut complaints = judge_command(name, issued_at, commands);
    let ghost first = complaints@;
    if let Err(error) = assert_final_zero_within_bound(expected_end, commands) {
        complaints.push(name_complaint(name, error.0.as_str()));
    }
    assert(texts(complaints@) =~= texts(first) + listed_complaint(
        name@,
        final_zero_complaint(expected_end, commands@),
    ));
    complaints
}

/// The complaint that commands came where none should have.
pub open spec fn not_silent_text(received: nat) -> Seq<char> {
    "expected no commands routed to a nonexistent target index, got "@ + decimal(received)
}

/// The complaint about a device that is sent to no actuator, if commands came from it.
pub fn judge_silence(name: &str, commands: &[ReceivedCommand]) -> (complaints: Vec<String>)
    ensures
        texts(complaints@) == listed_complaint(
            name@,
            if commands@.len() == 0 {
                None
            } else {
                Some(not_silent_text(commands@.len()))
            },
        ),
{
    let mut complaints: Vec<String> = Vec::new();
    if commands.len() > 0 {
        let mut complaint =
            "expected no commands routed to a nonexistent target index, got ".to_owned();
        complaint.append(decimal_text(commands.len() as u64).as_str());
        complaints.push(name_complaint(name, complaint.as_str()));
        assert(texts(complaints@) =~= seq![named(name@, not_silent_text(commands@.len()))]);
    } else {
        assert(texts(complaints@) =~= seq![]);
    }
    complaints
}

/// The verdict on all scenarios: nothing, or how many complaints there are.
pub fn verdict(complaints: &Vec<String>) -> (result: Result<(), String>)
    ensures
        result is Ok <==> complaints@.len() == 0,
        result matches Err(text) ==> text@ == decimal(complaints@.len()) + " scenario(s) failed"@,
{
    if complaints.len() == 0 {
        Ok(())
    } else {
        let mut text = decimal_text(complaints.len() as u64);
        text.append(" scenario(s) failed");
        Err(text)
    }
}

/// Commands are collected for half a second after a gesture is to be over.
pub proof fn gesture_is_watched_half_a_second_longer(expected_end: Timestamp, deadline: Timestamp)
    requires
        call_ensures(gesture_deadline, (expected_end,), deadline),
    ensures
        deadline.nanos - expected_end.nanos == 500_000_000,
{
}

/// Commands are collected for half a second after the last moment at which one may come in time.
pub proof fn command_is_awaited_half_a_second_longer(issued_at: Timestamp, deadline: Timestamp)
    requires
        call_ensures(command_deadline, (issued_at,), deadline),
    ensures
        deadline.nanos - issued_at.nanos == 650_000_000,
{
}

/// As long as the deadline has not come, what is left until then may be waited for.
pub proof fn collecting_ends_with_the_deadline(
    deadline: Timestamp,
    now: Timestamp,
    nanos: Option<u64>,
)
    requires
        call_ensures(time_to_collect, (deadline, now), nanos),
    ensures
        nanos is Some <==> now.nanos < deadline.nanos,
        nanos matches Some(left) ==> now.nanos + left == deadline.nanos,
{
}

/// A play is complained about once where no command came within 150 milliseconds of it, and
/// otherwise not.
pub proof fn late_play_is_complained_about(
    name: &str,
    issued_at: Timestamp,
    commands: &[ReceivedCommand],
    complaints: Vec<String>,
)
    requires
        call_ensures(judge_command, (name, issued_at, commands), complaints),
    ensures
        complaints@.len() <= 1,
        complaints@.len() == 0 <==> exists|i: int|
            0 <= i < commands@.len() && (#[trigger] commands@[i]).at.nanos <= issued_at.nanos
                + 150_000_000,
{
    assert(texts(complaints@).len() == complaints@.len());
    lemma_in_time(issued_at, commands@);
}

/// Some command is in time exactly where it came no later than 150 milliseconds after the issue.
proof fn lemma_in_time(issued_at: Timestamp, commands: Seq<ReceivedCommand>)
    ensures
        (exists|i: int| #[trigger] first_in_time(issued_at, commands, i)) <==> exists|i: int|
            0 <= i < commands.len() && (#[trigger] commands[i]).at.nanos <= issued_at.nanos
                + 150_000_000,
{
    found_where_one_is_in_time(issued_at, commands);
    if exists|i: int| 0 <= i < commands.len() && is_in_time(issued_at, #[trigger] commands[i]) {
        let i = choose|i: int|
            0 <= i < commands.len() && is_in_time(issued_at, #[trigger] commands[i]);
        assert(commands[i].at.nanos <= issued_at.nanos + 150_000_000);
    }
    if exists|i: int|
        0 <= i < commands.len() && (#[trigger] commands[i]).at.nanos <= issued_at.nanos
            + 150_000_000 {
        let i = choose|i: int|
            0 <= i < commands.len() && (#[trigger] commands[i]).at.nanos <= issued_at.nanos
                + 150_000_000;
        assert(is_in_time(issued_at, commands[i]));
    }
}

/// A gesture passes exactly where a command came in time after its issue and the last one stops in
/// time with its end, and has a complaint for each of the two that fails.
pub proof fn gesture_passes_where_start_and_end_are_right(
    name: &str,
    issued_at: Timestamp,
    expected_end: Timestamp,
    commands: &[ReceivedCommand],
    complaints: Vec<String>,
)
    requires
        call_ensures(judge_gesture, (name, issued_at, expected_end, commands), complaints),
    ensures
        ({
            let started = exists|i: int|
                0 <= i < commands@.len() && (#[trigger] commands@[i]).at.nanos <= issued_at.nanos
                    + 150_000_000;
            let stopped = {
                &&& commands@.len() > 0
                &&& commands@[commands@.len() - 1].value == 0
                &&& commands@[commands@.len() - 1].at.nanos <= expected_end.nanos + 150_000_000
                &&& expected_end.nanos <= commands@[commands@.len() - 1].at.nanos + 150_000_000
            };
            complaints@.len() == (if started {
                0int
            } else {
                1
            }) + (if stopped {
                0int
            } else {
                1
            })
        }),
{
    assert(texts(complaints@).len() == complaints@.len());
    lemma_in_time(issued_at, commands@);
}

/// A device that is sent to no actuator passes exactly where no command came.
pub proof fn silence_means_no_command(
    name: &str,
    commands: &[ReceivedCommand],
    complaints: Vec<String>,
)
    requires
        call_ensures(judge_silence, (name, commands), complaints),
    ensures
        complaints@.len() <= 1,
        complaints@.len() == 0 <==> commands@.len() == 0,
{
    assert(texts(complaints@).len() == complaints@.len());
}

/// All is well exactly where there is no complaint.
pub proof fn verdict_is_good_without_complaints(
    complaints: Vec<String>,
    result: Result<(), String>,
)
    requires
        call_ensures(verdict, (&complaints,), result),
    ensures
        result is Ok <==> complaints@.len() == 0,
{
}

/// Every complaint begins with the name of its scenario and ends with what it says.
pub proof fn complaint_bears_its_scenario(name: &str, complaint: &str, text: String)
    requires
        call_ensures(name_complaint, (name, complaint), text),
    ensures
        text@.len() == name@.len() + 2 + complaint@.len(),
        text@.subrange(0, name@.len() as int) == name@,
        text@.skip(name@.len() + 2int) == complaint@,
{
    reveal_strlit(": ");
    assert(text@.subrange(0, name@.len() as int) =~= name@);
    assert(text@.skip(name@.len() + 2int) =~= complaint@);
}

/// The device map of the tests sends the first device to all actuators and the second to one index
/// alone, that of no actuator.
pub proof fn test_map_isolates_the_second_device(
    broadcast_id: &str,
    isolated_id: &str,
    json: String,
)
    requires
        call_ensures(device_map_json, (broadcast_id, isolated_id), json),
    ensures
        json@ == "{\""@ + broadcast_id@ + "\": null, \""@ + isolated_id@ + "\": ["@ + decimal(99)
            + "]}"@,
{
}

/// Complaints are told under the name of their scenario: which step failed and why, how many
/// commands came where none should have, and at the end how many complaints there are.
pub proof fn complaints_are_told_in_words(
    name: &str,
    step: &str,
    reason: &str,
    failure: String,
    commands: &[ReceivedCommand],
    noise: Vec<String>,
    complaints: Vec<String>,
    result: Result<(), String>,
)
    requires
        call_ensures(step_failure, (name, step, reason), failure),
        call_ensures(judge_silence, (name, commands), noise),
        call_ensures(verdict, (&complaints,), result),
    ensures
        failure@ == name@ + ": "@ + (step@ + " failed: "@ + reason@),
        commands@.len() > 0 ==> noise@.len() == 1 && noise@[0]@ == name@ + ": "@ + (
        "expected no commands routed to a nonexistent target index, got "@ + decimal(
            commands@.len(),
        )),
        result matches Err(text) ==> text@ == decimal(complaints@.len())
            + " scenario(s) failed"@,
{
    if commands@.len() > 0 {
        assert(texts(noise@).len() == noise@.len());
        assert(texts(noise@)[0] == noise@[0]@);
    }
}

/// What is complained about a play or a gesture is, under the name of its scenario, what is wrong
/// with its start, and behind that what is wrong with its end.
pub proof fn verdicts_are_those_of_start_and_end(
    name: &str,
    issued_at: Timestamp,
    expected_end: Timestamp,
    commands: &[ReceivedCommand],
    start: Result<&ReceivedCommand, TimingError>,
    end: Result<(), TimingError>,
    play: Vec<String>,
    gesture: Vec<String>,
)
    requires
        call_ensures(assert_command_within_bound, (issued_at, commands), start),
        call_ensures(assert_final_zero_within_bound, (expected_end, commands), end),
        call_ensures(judge_command, (name, issued_at, commands), play),
        call_ensures(judge_gesture, (name, issued_at, expected_end, commands), gesture),
    ensures
        start matches Err(error) ==> play@.len() == 1 && play@[0]@ == name@ + ": "@ + error.0@
            && gesture@.len() > 0 && gesture@[0]@ == play@[0]@,
        start is Ok ==> play@.len() == 0,
        end matches Err(error) ==> gesture@.len() == play@.len() + 1 && gesture@[gesture@.len()
            - 1]@ == name@ + ": "@ + error.0@,
        end is Ok ==> gesture@.len() == play@.len(),
{
    assert(texts(play@).len() == play@.len());
    assert(texts(gesture@).len() == gesture@.len());
    if play@.len() > 0 {
        assert(texts(play@)[0] == play@[0]@);
    }
    if gesture@.len() > 0 {
        assert(texts(gesture@)[0] == gesture@[0]@);
        assert(texts(gesture@)[gesture@.len() - 1] == gesture@[gesture@.len() - 1]@);
    }
}

} // verus!
