//! The decisions of the plain probe, which does not hold plays back: a play of an effect that is
//! not known yet is dropped.

use crate::app::{is_outcome, last_after, plays_effect, process_play, PlayOutcome};
use crate::clock::{Timestamp, NANOS_PER_MS};
use crate::device::FfEvent;
use crate::effect::FfEffect;
use crate::store::{
    knows_effect, purge_effect_id, purged, stores_effect, upsert_effect, EffectStore,
};
use crate::throttle::{admits, Throttle, MIN_INTERVAL_MS};
use crate::wire::EffectUploaded;
use std::time::Instant;
use vstd::prelude::*;

verus! {

/// The state of the plain probe: the effects that are known, and the throttle.
pub struct Probe {
    effect_store: EffectStore,
    throttle: Throttle,
}

/// The state of the plain probe: effects by process and id, the origin of the clock and its latest
/// reading, and when the last sequence was recorded.
pub struct ProbeView {
    pub effects: Map<(u32, i16), FfEffect>,
    pub origin: Instant,
    pub clock: Timestamp,
    pub last_haptic: Option<Timestamp>,
}

impl View for Probe {
    type V = ProbeView;

    closed spec fn view(&self) -> ProbeView {
        ProbeView {
            effects: self.effect_store@,
            origin: self.throttle@.origin,
            clock: self.throttle@.clock,
            last_haptic: self.throttle@.last_haptic,
        }
    }
}

/// What becomes of an event from a device.
#[derive(Debug)]
pub enum ProbeReaction {
    /// The device is to be stopped.
    Stop,
    /// The effect was known.
    Played { outcome: PlayOutcome },
    /// The effect was not among so many that are known, and the play is dropped.
    Unknown { known_effects: usize },
}

/// The step of the plain probe when a device sends `event` at `now`.
pub open spec fn probe_step(
    before: ProbeView,
    event: FfEvent,
    now: Timestamp,
    after: ProbeView,
    reaction: ProbeReaction,
) -> bool {
    match event {
        FfEvent::Stop { effect_id } => {
            &&& reaction is Stop
            &&& after == (ProbeView { effects: purged(before.effects, effect_id), ..before })
        },
        FfEvent::Play { effect_id } => if knows_effect(before.effects, effect_id) {
            &&& reaction matches ProbeReaction::Played { outcome }
            &&& exists|effect: FfEffect| #[trigger]
                stores_effect(before.effects, effect_id, effect) && is_outcome(
                    outcome,
                    effect,
                    admits(before.last_haptic, now),
                )
            &&& after == (ProbeView {
                last_haptic: last_after(before.last_haptic, outcome, now),
                ..before
            })
        } else {
            &&& reaction matches ProbeReaction::Unknown { known_effects }
            &&& known_effects == before.effects.dom().len()
            &&& after == before
        },
    }
}

/// The state once the clock was read at `now`.
pub open spec fn probe_read_at(before: ProbeView, now: Timestamp) -> ProbeView {
    ProbeView { clock: now, ..before }
}

/// The reaction starts a sequence.
pub open spec fn probe_starts(reaction: ProbeReaction) -> bool {
    reaction matches ProbeReaction::Played { outcome } && outcome is Scheduled
}

/// The state once a reaction was performed at `now`: a sequence that it starts is recorded then.
pub open spec fn probe_performed(
    before: ProbeView,
    reaction: ProbeReaction,
    now: Timestamp,
) -> ProbeView {
    if probe_starts(reaction) {
        ProbeView { last_haptic: Some(now), ..before }
    } else {
        before
    }
}

impl Probe {
    /// The stored effects are well formed.
    pub closed spec fn wf(&self) -> bool {
        self.effect_store.wf()
    }

    /// A probe that knows no effect.
    pub fn new() -> (probe: Self)
        ensures
            probe.wf(),
            probe@ == (ProbeView {
                effects: Map::empty(),
                origin: probe@.origin,
                clock: Timestamp { nanos: 0 },
                last_haptic: None,
            }),
    {
        Probe { effect_store: EffectStore::new(), throttle: Throttle::new() }
    }

    /// Stores an effect that was uploaded, in place of any other with its id.
    pub fn handle_effect_uploaded(&mut self, uploaded: &EffectUploaded)
        requires
            old(self).wf(),
        ensures
            final(self).wf(),
            final(self)@ == (ProbeView {
                effects: purged(old(self)@.effects, uploaded.effect_id).insert(
                    (uploaded.tgid, uploaded.effect_id),
                    uploaded.effect,
                ),
                ..old(self)@
            }),
    {
        upsert_effect(
            &mut self.effect_store,
            uploaded.tgid,
            uploaded.effect_id,
            uploaded.effect,
        );
    }

    /// Decides what becomes of an event from a device. Once the reaction has been performed,
    /// [`Probe::reaction_performed`] follows.
    pub fn handle_ff_event(&mut self, event: FfEvent) -> (reaction: ProbeReaction)
        requires
            old(self).wf(),
        ensures
            final(self).wf(),
            exists|now: Timestamp|
                {
                    &&& now.nanos >= old(self)@.clock.nanos
                    &&& #[trigger] probe_step(
                        probe_read_at(old(self)@, now),
                        event,
                        now,
                        final(self)@,
                        reaction,
                    )
                },
    {
        let now = self.throttle.read_clock();
        assert(self@ == probe_read_at(old(self)@, now));
        self.ff_event_at(event, now)
    }

    /// What [`Probe::handle_ff_event`] does when the clock shows `now`.
    pub fn ff_event_at(&mut self, event: FfEvent, now: Timestamp) -> (reaction: ProbeReaction)
        requires
            old(self).wf(),
        ensures
            final(self).wf(),
            probe_step(old(self)@, event, now, final(self)@, reaction),
    {
        match event {
            FfEvent::Stop { effect_id } => {
                purge_effect_id(&mut self.effect_store, effect_id);
                ProbeReaction::Stop
            },
            FfEvent::Play { effect_id } => match self.effect_store.find(effect_id) {
                Some(effect) => {
                    let may_emit = self.throttle.admits_at(now);
                    let outcome = process_play(&mut self.throttle, &effect, now, may_emit);
                    assert(stores_effect(old(self)@.effects, effect_id, effect));
                    ProbeReaction::Played { outcome }
                },
                None => ProbeReaction::Unknown { known_effects: self.effect_store.len() },
            },
        }
    }

    /// Notes that a reaction has been performed. Where it started a sequence, the sequence counts
    /// from now on, and not from when it was decided on.
    pub fn reaction_performed(&mut self, reaction: &ProbeReaction)
        requires
            old(self).wf(),
        ensures
            final(self).wf(),
            exists|now: Timestamp|
                now.nanos >= old(self)@.clock.nanos && final(self)@ == #[trigger] probe_performed(
                    probe_read_at(old(self)@, now),
                    *reaction,
                    now,
                ),
    {
        let now = self.throttle.read_clock();
        assert(self@ == probe_read_at(old(self)@, now));
        self.reaction_performed_at(reaction, now);
    }

    /// What [`Probe::reaction_performed`] does when the clock shows `now`.
    pub fn reaction_performed_at(&mut self, reaction: &ProbeReaction, now: Timestamp)
        requires
            old(self).wf(),
        ensures
            final(self).wf(),
            final(self)@ == probe_performed(old(self)@, *reaction, now),
    {
        if let ProbeReaction::Played { outcome: PlayOutcome::Scheduled { .. } } = reaction {
            self.throttle.record_at(now);
        }
    }
}

/// A sequence that the plain probe starts is decided on, and recorded, at least the least interval
/// after the moment recorded before it; performing it can only record a later moment.
pub proof fn probe_sequences_are_apart(
    before: ProbeView,
    event: FfEvent,
    now: Timestamp,
    middle: ProbeView,
    reaction: ProbeReaction,
    second: Timestamp,
)
    requires
        probe_step(probe_read_at(before, now), event, now, middle, reaction),
        probe_starts(reaction),
        second.nanos >= middle.clock.nanos,
    ensures
        middle.last_haptic == Some(now),
        probe_performed(probe_read_at(middle, second), reaction, second).last_haptic == Some(
            second,
        ),
        second.nanos >= now.nanos,
        before.last_haptic matches Some(first) ==> now.nanos - first.nanos >= MIN_INTERVAL_MS
            * NANOS_PER_MS,
{
}

/// The plain probe records nothing but sequences that it starts.
pub proof fn probe_records_started_sequences_alone(
    before: ProbeView,
    event: FfEvent,
    now: Timestamp,
    middle: ProbeView,
    reaction: ProbeReaction,
    second: Timestamp,
)
    requires
        probe_step(before, event, now, middle, reaction),
        !probe_starts(reaction),
    ensures
        probe_performed(middle, reaction, second).last_haptic == before.last_haptic,
{
}

/// An effect that is uploaded stands under its process and id, alone under that id. Entries under
/// other ids and the throttle stay.
pub proof fn probe_keeps_the_latest_upload(
    probe: &mut Probe,
    uploaded: EffectUploaded,
    key: (u32, i16),
)
    requires
        call_ensures(Probe::handle_effect_uploaded, (probe, &uploaded), ()),
    ensures
        key.1 == uploaded.effect_id ==> (final(probe)@.effects.contains_key(key) <==> key.0
            == uploaded.tgid),
        final(probe)@.effects[(uploaded.tgid, uploaded.effect_id)] == uploaded.effect,
        key.1 != uploaded.effect_id ==> (final(probe)@.effects.contains_key(key) <==> old(
            probe)@.effects.contains_key(key)),
        key.1 != uploaded.effect_id && old(probe)@.effects.contains_key(key) ==> final(
            probe)@.effects[key] == old(probe)@.effects[key],
        final(probe)@.last_haptic == old(probe)@.last_haptic,
        final(probe)@.clock == old(probe)@.clock,
        final(probe)@.origin == old(probe)@.origin,
{
}

/// The plain probe plays what is stored: a play of an effect that some stored effect bears the id
/// of is answered with that effect, as a play at that moment would be, and any other play is
/// dropped with the number of known effects. Either leaves the effects as they are.
pub proof fn probe_plays_what_is_stored(
    probe: &mut Probe,
    effect_id: i16,
    now: Timestamp,
    reaction: ProbeReaction,
    key: (u32, i16),
)
    requires
        call_ensures(Probe::ff_event_at, (probe, FfEvent::Play { effect_id }, now), reaction),
    ensures
        !(reaction is Stop),
        old(probe)@.effects.contains_key(key) && old(probe)@.effects[key].id == effect_id
            ==> reaction is Played,
        reaction matches ProbeReaction::Played { outcome } ==> {
            &&& exists|k: (u32, i16)| #[trigger]
                old(probe)@.effects.contains_key(k) && old(probe)@.effects[k].id == effect_id
                    && plays_effect(
                    outcome,
                    old(probe)@.effects[k],
                    old(probe)@.last_haptic,
                    now,
                )
            &&& final(probe)@.last_haptic == (if outcome is Scheduled {
                Some(now)
            } else {
                old(probe)@.last_haptic
            })
        },
        reaction matches ProbeReaction::Unknown { known_effects } ==> known_effects == old(
            probe)@.effects.dom().len() && final(probe)@.last_haptic == old(probe)@.last_haptic,
        final(probe)@.effects == old(probe)@.effects,
        final(probe)@.clock == old(probe)@.clock,
        final(probe)@.origin == old(probe)@.origin,
{
    if old(probe)@.effects.contains_key(key) && old(probe)@.effects[key].id == effect_id {
        assert(knows_effect(old(probe)@.effects, effect_id));
    }
    if let ProbeReaction::Played { outcome } = reaction {
        let effect = choose|effect: FfEffect| #[trigger]
            stores_effect(old(probe)@.effects, effect_id, effect) && is_outcome(
                outcome,
                effect,
                admits(old(probe)@.last_haptic, now),
            );
        let k = choose|k: (u32, i16)| #[trigger]
            old(probe)@.effects.contains_key(k) && old(probe)@.effects[k] == effect;
        assert(plays_effect(outcome, effect, old(probe)@.last_haptic, now));
        assert(old(probe)@.effects.contains_key(k));
    }
}

/// The plain probe answers a stop with a stop, and forgets the effect, whichever process uploaded
/// it, and nothing else.
pub proof fn probe_stop_forgets_the_effect(
    probe: &mut Probe,
    effect_id: i16,
    now: Timestamp,
    reaction: ProbeReaction,
    key: (u32, i16),
)
    requires
        call_ensures(Probe::ff_event_at, (probe, FfEvent::Stop { effect_id }, now), reaction),
    ensures
        reaction is Stop,
        final(probe)@.effects.contains_key(key) <==> old(probe)@.effects.contains_key(key) && key.1
            != effect_id,
        final(probe)@.effects.contains_key(key) ==> final(probe)@.effects[key] == old(
            probe)@.effects[key],
        final(probe)@.last_haptic == old(probe)@.last_haptic,
        final(probe)@.clock == old(probe)@.clock,
        final(probe)@.origin == old(probe)@.origin,
{
}

/// An event that the plain probe handles as it comes is answered for the moment that its clock then
/// shows.
pub proof fn probe_answers_for_its_moment(
    probe: &mut Probe,
    event: FfEvent,
    reaction: ProbeReaction,
)
    requires
        call_ensures(Probe::handle_ff_event, (probe, event), reaction),
    ensures
        final(probe)@.clock.nanos >= old(probe)@.clock.nanos,
        final(probe)@.origin == old(probe)@.origin,
        event is Stop <==> reaction is Stop,
        reaction matches ProbeReaction::Played { outcome } ==> exists|k: (u32, i16)| #[trigger]
            old(probe)@.effects.contains_key(k) && old(probe)@.effects[k].id
                == event->Play_effect_id && plays_effect(
                outcome,
                old(probe)@.effects[k],
                old(probe)@.last_haptic,
                final(probe)@.clock,
            ),
        reaction is Unknown ==> forall|key: (u32, i16)| #[trigger]
            old(probe)@.effects.contains_key(key) ==> old(probe)@.effects[key].id
                != event->Play_effect_id,
{
    let now = choose|now: Timestamp|
        {
            &&& now.nanos >= old(probe)@.clock.nanos
            &&& #[trigger] probe_step(
                probe_read_at(old(probe)@, now),
                event,
                now,
                final(probe)@,
                reaction,
            )
        };
    if let FfEvent::Play { effect_id } = event {
        if let ProbeReaction::Played { outcome } = reaction {
            let effect = choose|effect: FfEffect| #[trigger]
                stores_effect(old(probe)@.effects, effect_id, effect) && is_outcome(
                    outcome,
                    effect,
                    admits(old(probe)@.last_haptic, now),
                );
            let k = choose|k: (u32, i16)| #[trigger]
                old(probe)@.effects.contains_key(k) && old(probe)@.effects[k] == effect;
            assert(plays_effect(outcome, effect, old(probe)@.last_haptic, now));
            assert(old(probe)@.effects.contains_key(k));
        }
    }
}

/// Performing a reaction of the plain probe records its moment exactly where the reaction schedules
/// a sequence, and changes nothing else.
pub proof fn probe_records_what_is_performed(
    probe: &mut Probe,
    reaction: ProbeReaction,
    now: Timestamp,
    again: &mut Probe,
)
    requires
        call_ensures(Probe::reaction_performed_at, (probe, &reaction, now), ()),
        call_ensures(Probe::reaction_performed, (again, &reaction), ()),
    ensures
        final(probe)@.last_haptic == (match reaction {
            ProbeReaction::Played { outcome: PlayOutcome::Scheduled { .. } } => Some(now),
            _ => old(probe)@.last_haptic,
        }),
        final(probe)@.effects == old(probe)@.effects,
        final(probe)@.clock == old(probe)@.clock,
        final(probe)@.origin == old(probe)@.origin,
        final(again)@.clock.nanos >= old(again)@.clock.nanos,
        final(again)@.last_haptic == (match reaction {
            ProbeReaction::Played { outcome: PlayOutcome::Scheduled { .. } } => Some(
                final(again)@.clock,
            ),
            _ => old(again)@.last_haptic,
        }),
        final(again)@.effects == old(again)@.effects,
        final(again)@.origin == old(again)@.origin,
{
}

/// The plain probe begins with nothing.
pub proof fn probe_begins_with_nothing(probe: Probe, key: (u32, i16))
    requires
        call_ensures(Probe::new, (), probe),
    ensures
        !probe@.effects.contains_key(key),
        probe@.last_haptic is None,
        probe@.clock.nanos == 0,
{
}

/// What the plain probe handles as it comes changes what it should, and nothing else: a stop
/// forgets its effect, and a play leaves the effects alone and is recorded where it is scheduled.
pub proof fn probe_handles_events_as_they_come(
    probe: &mut Probe,
    event: FfEvent,
    reaction: ProbeReaction,
    key: (u32, i16),
)
    requires
        call_ensures(Probe::handle_ff_event, (probe, event), reaction),
    ensures
        event matches FfEvent::Stop { effect_id } ==> {
            &&& final(probe)@.effects.contains_key(key) <==> old(probe)@.effects.contains_key(key)
                && key.1 != effect_id
            &&& final(probe)@.effects.contains_key(key) ==> final(probe)@.effects[key] == old(
                probe)@.effects[key]
            &&& final(probe)@.last_haptic == old(probe)@.last_haptic
        },
        event matches FfEvent::Play { effect_id } ==> {
            &&& final(probe)@.effects == old(probe)@.effects
            &&& old(probe)@.effects.contains_key(key) && old(probe)@.effects[key].id == effect_id
                ==> reaction is Played
            &&& final(probe)@.last_haptic == (match reaction {
                ProbeReaction::Played { outcome: PlayOutcome::Scheduled { .. } } => Some(
                    final(probe)@.clock,
                ),
                _ => old(probe)@.last_haptic,
            })
            &&& reaction matches ProbeReaction::Unknown { known_effects } ==> known_effects == old(
                probe)@.effects.dom().len()
        },
{
    if let FfEvent::Play { effect_id } = event {
        if old(probe)@.effects.contains_key(key) && old(probe)@.effects[key].id == effect_id {
            assert(knows_effect(old(probe)@.effects, effect_id));
        }
    }
}

} // verus!
