//! The course of one sequence: which intensity is sent next, when, with which scale, and to whom.

use crate::clock::NANOS_PER_MS;
use crate::playback::{after_finish, resolved_targets, target_view, Playback, PlaybackView};
use crate::schedule::{all_steps_fit, interpolate_points, interpolated, Keyframe, Level};
use crate::translate::HapticPoint;
use vstd::prelude::*;

verus! {

/// A sequence that is played on a device.
pub struct Sequence<I> {
    device_id: String,
    generation: u64,
    targets: Option<Vec<u32>>,
    schedule: Vec<Keyframe<I>>,
    sent: usize,
}

/// A sequence: its device and generation, the actuators that it is sent to, its schedule, and how
/// many keyframes have been sent.
pub struct SequenceView<I> {
    pub device_id: Seq<char>,
    pub generation: u64,
    pub targets: Option<Seq<u32>>,
    pub schedule: Seq<Keyframe<I>>,
    pub sent: nat,
}

impl<I> View for Sequence<I> {
    type V = SequenceView<I>;

    closed spec fn view(&self) -> SequenceView<I> {
        SequenceView {
            device_id: self.device_id@,
            generation: self.generation,
            targets: target_view(self.targets),
            schedule: self.schedule@,
            sent: self.sent as nat,
        }
    }
}

/// What is to be done next for a sequence.
#[derive(Debug)]
pub enum Action<I> {
    /// Nothing until `until_ms` after the start of the sequence.
    Wait { until_ms: u32 },
    /// `level`, multiplied by the scale with these bits, is to be sent to the targets.
    Send { level: Level<I>, scale_bits: u32, targets: Option<Vec<u32>> },
    /// Nothing any more.
    Finish,
}

/// The time of a keyframe has come, `elapsed_nanos` nanoseconds after the start.
pub open spec fn is_due<I>(keyframe: Keyframe<I>, elapsed_nanos: u64) -> bool {
    elapsed_nanos >= keyframe.t_ms * NANOS_PER_MS
}

/// A moment at which a sequence is looked at: the time since its start, and the scale in force.
pub struct Tick {
    pub elapsed_nanos: u64,
    pub scale_bits: u32,
}

/// A keyframe is sent at `tick`: there is one left, and its time has come.
pub open spec fn sends_at<I>(sequence: SequenceView<I>, tick: Tick) -> bool {
    sequence.sent < sequence.schedule.len() && is_due(
        sequence.schedule[sequence.sent as int],
        tick.elapsed_nanos,
    )
}

/// The sequence after `tick`.
pub open spec fn after_tick<I>(sequence: SequenceView<I>, tick: Tick) -> SequenceView<I> {
    if sends_at(sequence, tick) {
        SequenceView { sent: sequence.sent + 1, ..sequence }
    } else {
        sequence
    }
}

/// `action` is what is to be done for a sequence at `tick`: the next keyframe is sent when its time
/// has come, and waited for before that; when all have been sent the sequence is over.
pub open spec fn is_action<I>(sequence: SequenceView<I>, tick: Tick, action: Action<I>) -> bool {
    if sequence.sent >= sequence.schedule.len() {
        action is Finish
    } else {
        let next = sequence.schedule[sequence.sent as int];
        if is_due(next, tick.elapsed_nanos) {
            action matches Action::Send { level, scale_bits, targets } && level == next.level
                && scale_bits == tick.scale_bits && target_view(targets) == sequence.targets
        } else {
            action == (Action::Wait::<I> { until_ms: next.t_ms })
        }
    }
}

impl<I: Copy> Sequence<I> {
    /// Begins the sequence `generation` of a device: its points are scheduled, and its targets
    /// looked up.
    pub fn begin(
        playback: &Playback,
        device_id: String,
        generation: u64,
        points: &Vec<HapticPoint<I>>,
    ) -> (sequence: Self)
        requires
            playback.wf(),
            all_steps_fit(points@),
        ensures
            sequence@ == (SequenceView {
                device_id: device_id@,
                generation,
                targets: resolved_targets(playback@.device_map, device_id@),
                schedule: interpolated(points@),
                sent: 0,
            }),
    {
        let targets = playback.targets_of(device_id.as_str());
        let schedule = interpolate_points(points);
        Sequence { device_id, generation, targets, schedule, sent: 0 }
    }

    /// What is to be done next, `elapsed_nanos` nanoseconds after the start, with the scale that is
    /// in force now. A sequence that is over leaves its device, unless a newer one has taken its
    /// place.
    pub fn play(&mut self, playback: &mut Playback, elapsed_nanos: u64) -> (action: Action<I>)
        requires
            old(playback).wf(),
        ensures
            ({
                let tick = Tick { elapsed_nanos, scale_bits: old(playback)@.scale_bits };
                &&& is_action(old(self)@, tick, action)
                &&& final(self)@ == after_tick(old(self)@, tick)
            }),
            final(playback).wf(),
            final(playback)@ == (if action is Finish {
                after_finish(old(playback)@, old(self)@.device_id, old(self)@.generation)
            } else {
                old(playback)@
            }),
    {
        if self.sent >= self.schedule.len() {
            playback.finish_sequence(self.device_id.as_str(), self.generation);
            return Action::Finish;
        }
        let next = self.schedule[self.sent];
        assert(next.t_ms * NANOS_PER_MS <= u64::MAX) by (nonlinear_arith)
            requires
                next.t_ms <= u32::MAX,
                NANOS_PER_MS == 1_000_000,
        ;
        if elapsed_nanos < next.t_ms as u64 * NANOS_PER_MS {
            return Action::Wait { until_ms: next.t_ms };
        }
        self.sent = self.sent + 1;
        let targets = match &self.targets {
            Some(indices) => {
                let copy = indices.clone();
                assert(copy@ =~= indices@);
                Some(copy)
            },
            None => None,
        };
        Action::Send { level: next.level, scale_bits: playback.scale(), targets }
    }
}

/// A keyframe that was sent: its time and level, to whom, and the moment of the sending.
pub struct Sent<I> {
    pub keyframe: Keyframe<I>,
    pub targets: Option<Seq<u32>>,
    pub tick: Tick,
}

/// The sequence after all of `ticks`.
pub open spec fn after_ticks<I>(sequence: SequenceView<I>, ticks: Seq<Tick>) -> SequenceView<I>
    decreases ticks.len(),
{
    if ticks.len() == 0 {
        sequence
    } else {
        after_tick(after_ticks(sequence, ticks.drop_last()), ticks.last())
    }
}

/// What is sent at `ticks`, in their order.
pub open spec fn sendings<I>(sequence: SequenceView<I>, ticks: Seq<Tick>) -> Seq<Sent<I>>
    decreases ticks.len(),
{
    if ticks.len() == 0 {
        seq![]
    } else {
        let so_far = after_ticks(sequence, ticks.drop_last());
        let earlier = sendings(sequence, ticks.drop_last());
        if sends_at(so_far, ticks.last()) {
            earlier.push(
                Sent {
                    keyframe: so_far.schedule[so_far.sent as int],
                    targets: so_far.targets,
                    tick: ticks.last(),
                },
            )
        } else {
            earlier
        }
    }
}

/// However a sequence is looked at, its keyframes are sent in the order of the schedule, one
/// sending for each, none before its time, all to the targets of the sequence, and each with the
/// scale in force when it is sent.
pub proof fn keyframes_are_sent_in_order<I>(
    sequence: SequenceView<I>,
    ticks: Seq<Tick>,
    k: int,
)
    requires
        sequence.sent == 0,
        0 <= k < sendings(sequence, ticks).len(),
    ensures
        k < sequence.schedule.len(),
        sendings(sequence, ticks)[k].keyframe == sequence.schedule[k],
        sendings(sequence, ticks)[k].targets == sequence.targets,
        is_due(sequence.schedule[k], sendings(sequence, ticks)[k].tick.elapsed_nanos),
        ticks.contains(sendings(sequence, ticks)[k].tick),
    decreases ticks.len(),
{
    lemma_sendings_are_counted(sequence, ticks);
    if ticks.len() > 0 {
        let rest = ticks.drop_last();
        lemma_sendings_are_counted(sequence, rest);
        if k < sendings(sequence, rest).len() {
            keyframes_are_sent_in_order(sequence, rest, k);
            let tick = sendings(sequence, rest)[k].tick;
            let i = choose|i: int| 0 <= i < rest.len() && rest[i] == tick;
            assert(ticks[i] == tick);
        } else {
            assert(ticks[ticks.len() - 1] == ticks.last());
        }
    }
}

proof fn lemma_sendings_are_counted<I>(sequence: SequenceView<I>, ticks: Seq<Tick>)
    requires
        sequence.sent == 0,
    ensures
        after_ticks(sequence, ticks) == (SequenceView {
            sent: sendings(sequence, ticks).len(),
            ..sequence
        }),
        sendings(sequence, ticks).len() <= sequence.schedule.len(),
    decreases ticks.len(),
{
    if ticks.len() > 0 {
        lemma_sendings_are_counted(sequence, ticks.drop_last());
    }
}

/// A sequence is over exactly when every keyframe has been sent.
pub proof fn sequence_ends_when_all_is_sent<I>(
    sequence: SequenceView<I>,
    ticks: Seq<Tick>,
    tick: Tick,
    action: Action<I>,
)
    requires
        sequence.sent == 0,
        is_action(after_ticks(sequence, ticks), tick, action),
    ensures
        action is Finish <==> sendings(sequence, ticks).len() == sequence.schedule.len(),
{
    lemma_sendings_are_counted(sequence, ticks);
}

/// A sequence that is looked at when its keyframes are due does not stall: where each of `ticks`
/// comes after the time of every keyframe, each sends one, until all have been sent.
pub proof fn due_keyframes_are_sent<I>(sequence: SequenceView<I>, ticks: Seq<Tick>)
    requires
        sequence.sent == 0,
        forall|i: int, k: int|
            0 <= i < ticks.len() && 0 <= k < sequence.schedule.len() ==> is_due(
                #[trigger] sequence.schedule[k],
                (#[trigger] ticks[i]).elapsed_nanos,
            ),
    ensures
        sendings(sequence, ticks).len() == (if ticks.len() < sequence.schedule.len() {
            ticks.len()
        } else {
            sequence.schedule.len()
        }),
    decreases ticks.len(),
{
    if ticks.len() > 0 {
        let rest = ticks.drop_last();
        assert forall|i: int, k: int|
            0 <= i < rest.len() && 0 <= k < sequence.schedule.len() implies is_due(
            #[trigger] sequence.schedule[k],
            (#[trigger] rest[i]).elapsed_nanos,
        ) by {
            assert(rest[i] == ticks[i]);
        }
        due_keyframes_are_sent(sequence, rest);
        lemma_sendings_are_counted(sequence, rest);
        assert(ticks.last() == ticks[ticks.len() - 1]);
    }
}

/// The end of a sequence takes its device out of those that play exactly where the device plays
/// this sequence.
pub proof fn end_frees_only_its_own_device<I>(sequence: SequenceView<I>, before: PlaybackView)
    ensures
        ({
            let after = after_finish(before, sequence.device_id, sequence.generation);
            before.tasks.contains_key(sequence.device_id) ==> (!after.tasks.contains_key(
                sequence.device_id,
            ) <==> before.tasks[sequence.device_id] == sequence.generation)
        }),
{
}

/// The actuators of an action are those of a sequence: the same list, or all of both.
pub open spec fn goes_to(targets: Option<Vec<u32>>, wanted: Option<Seq<u32>>) -> bool {
    match (targets, wanted) {
        (Some(indices), Some(wanted_indices)) => indices@ == wanted_indices,
        (None, None) => true,
        _ => false,
    }
}

/// A keyframe whose time has come is sent as it stands in the schedule, with the scale in force and
/// to exactly the targets of the sequence, whichever keyframe it is. Before its time it is waited
/// for, until that very time. When none is left the sequence is over.
pub proof fn due_keyframe_is_sent_as_scheduled<I: Copy>(
    sequence: &mut Sequence<I>,
    playback: &mut Playback,
    elapsed_nanos: u64,
    action: Action<I>,
)
    requires
        call_ensures(Sequence::<I>::play, (sequence, playback, elapsed_nanos), action),
    ensures
        old(sequence)@.sent >= old(sequence)@.schedule.len() <==> action is Finish,
        old(sequence)@.sent < old(sequence)@.schedule.len() ==> ({
            let next = old(sequence)@.schedule[old(sequence)@.sent as int];
            if elapsed_nanos < 1_000_000 * next.t_ms {
                action matches Action::Wait { until_ms } && until_ms == next.t_ms
            } else {
                action matches Action::Send { level, scale_bits, targets } && {
                    &&& level == next.level
                    &&& scale_bits == old(playback)@.scale_bits
                    &&& goes_to(targets, old(sequence)@.targets)
                }
            }
        }),
{
}

/// Playing a sequence counts the keyframes that are sent, and changes nothing else of it.
pub proof fn playing_only_counts_what_is_sent<I: Copy>(
    sequence: &mut Sequence<I>,
    playback: &mut Playback,
    elapsed_nanos: u64,
    action: Action<I>,
)
    requires
        call_ensures(Sequence::<I>::play, (sequence, playback, elapsed_nanos), action),
    ensures
        final(sequence)@.sent == old(sequence)@.sent + (if action is Send {
            1int
        } else {
            0int
        }),
        final(sequence)@.schedule == old(sequence)@.schedule,
        final(sequence)@.targets == old(sequence)@.targets,
        final(sequence)@.device_id == old(sequence)@.device_id,
        final(sequence)@.generation == old(sequence)@.generation,
{
}

/// Playing a sequence leaves playback as it is until the sequence is over. Then its device is free,
/// if it still plays this sequence; what other devices play, the scale and the map stay.
pub proof fn playing_frees_the_device_at_the_end<I: Copy>(
    sequence: &mut Sequence<I>,
    playback: &mut Playback,
    elapsed_nanos: u64,
    action: Action<I>,
    device_id: Seq<char>,
)
    requires
        call_ensures(Sequence::<I>::play, (sequence, playback, elapsed_nanos), action),
    ensures
        final(playback)@.scale_bits == old(playback)@.scale_bits,
        final(playback)@.device_map == old(playback)@.device_map,
        final(playback)@.started == old(playback)@.started,
        final(playback)@.tasks.contains_key(device_id) <==> (old(playback)@.tasks.contains_key(
            device_id,
        ) && !(action is Finish && device_id == old(sequence)@.device_id && old(
            playback)@.tasks[device_id] == old(sequence)@.generation)),
        final(playback)@.tasks.contains_key(device_id) ==> final(playback)@.tasks[device_id]
            == old(playback)@.tasks[device_id],
{
}

/// A sequence begins with nothing sent, with the schedule of its points, and with the targets that
/// its device has in the map then: all actuators where the device has no entry, or one without
/// indices.
pub proof fn sequence_begins_with_its_targets<I: Copy>(
    playback: &Playback,
    device_id: String,
    generation: u64,
    points: Vec<HapticPoint<I>>,
    sequence: Sequence<I>,
    schedule: Vec<Keyframe<I>>,
)
    requires
        call_ensures(Sequence::<I>::begin, (playback, device_id, generation, &points), sequence),
        call_ensures(interpolate_points::<I>, (&points,), schedule),
    ensures
        sequence@.sent == 0,
        sequence@.schedule == schedule@,
        sequence@.device_id == device_id@,
        sequence@.generation == generation,
        playback@.device_map.contains_key(device_id@) ==> sequence@.targets
            == playback@.device_map[device_id@],
        !playback@.device_map.contains_key(device_id@) ==> sequence@.targets is None,
{
}

/// Over a whole sequence, whenever it is looked at and however often, everything is sent to the
/// targets that it began with: the first sending is of the first keyframe, and each one after it of
/// the next, all as they were scheduled at the beginning.
pub proof fn whole_sequence_goes_to_its_targets<I>(
    states: Seq<SequenceView<I>>,
    ticks: Seq<Tick>,
    actions: Seq<Action<I>>,
    n: int,
)
    requires
        states.len() == ticks.len() + 1,
        actions.len() == ticks.len(),
        forall|k: int|
            0 <= k < ticks.len() ==> is_action(#[trigger] states[k], ticks[k], actions[k])
                && states[k + 1] == after_tick(states[k], ticks[k]),
        0 <= n < ticks.len(),
    ensures
        states[n].targets == states[0].targets,
        states[n].schedule == states[0].schedule,
        actions[n] matches Action::Send { level, scale_bits, targets } ==> {
            &&& goes_to(targets, states[0].targets)
            &&& states[n].sent < states[0].schedule.len()
            &&& level == states[0].schedule[states[n].sent as int].level
            &&& scale_bits == ticks[n].scale_bits
            &&& ticks[n].elapsed_nanos >= 1_000_000 * states[0].schedule[states[n].sent as int].t_ms
            &&& states[n + 1].sent == states[n].sent + 1
        },
        !(actions[n] is Send) ==> states[n + 1].sent == states[n].sent,
    decreases n,
{
    if n > 0 {
        whole_sequence_goes_to_its_targets(states, ticks, actions, n - 1);
        assert(states[n - 1 + 1] == after_tick(states[n - 1], ticks[n - 1]));
    }
    assert(is_action(states[n], ticks[n], actions[n]));
}

} // verus!
