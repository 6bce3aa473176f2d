//! The decisions of the daemon: what becomes of an upload, an erasure, a play, a stop and a
//! rescan. Each decision changes the state and says what is to be done about it.

use crate::clock::{Timestamp, NANOS_PER_MS};
use crate::device::{DeviceInfo, FfEvent};
use crate::effect::FfEffect;
use crate::pending::{
    insert_pending, not_waiting_for, take_all_pending_matching_effect, take_pending_for_device,
    takes_all_waiting, waits_for, PendingPlay,
};
use crate::store::{
    knows_effect, purge_effect_id, purged, stores_effect, upsert_effect, EffectStore,
};
use crate::table::DeviceTable;
use crate::throttle::{admits, Throttle, ThrottleView, MIN_INTERVAL_MS};
use crate::translate::{translate, translated, HapticPoint, Intensity};
use crate::wire::EffectUploaded;
use std::time::Instant;
use vstd::prelude::*;

verus! {

/// The state of the daemon: the effects that the probe has told of, the plays that wait for
/// theirs, the devices that are read, and the throttle.
pub struct App {
    effect_store: EffectStore,
    pending_plays: DeviceTable<PendingPlay>,
    known_devices: DeviceTable<String>,
    throttle: Throttle,
}

/// The state of the daemon as maps: effects by process and id, waiting plays by device, the path
/// of each device that is read, the origin of the clock and its latest reading, and when the last
/// sequence was recorded.
pub struct AppView {
    pub effects: Map<(u32, i16), FfEffect>,
    pub pending: Map<Seq<char>, PendingPlay>,
    pub known: Map<Seq<char>, Seq<char>>,
    pub origin: Instant,
    pub clock: Timestamp,
    pub last_haptic: Option<Timestamp>,
}

impl View for App {
    type V = AppView;

    closed spec fn view(&self) -> AppView {
        AppView {
            effects: self.effect_store@,
            pending: self.pending_plays@,
            known: self.known_devices@.map_values(|path: String| path@),
            origin: self.throttle@.origin,
            clock: self.throttle@.clock,
            last_haptic: self.throttle@.last_haptic,
        }
    }
}

/// A device to be read: its id and name, and the path to open.
#[derive(Debug)]
pub struct Reader {
    pub device_id: String,
    pub name: String,
    pub path: String,
}

/// A [`Reader`] by its characters.
pub struct ReaderView {
    pub device_id: Seq<char>,
    pub name: Seq<char>,
    pub path: Seq<char>,
}

impl View for Reader {
    type V = ReaderView;

    open spec fn view(&self) -> ReaderView {
        ReaderView { device_id: self.device_id@, name: self.name@, path: self.path@ }
    }
}

/// What becomes of a play whose effect is known.
#[derive(Debug)]
pub enum PlayOutcome {
    /// The points are to be played, in place of what the device plays.
    Scheduled { points: Vec<HapticPoint<Intensity>> },
    /// The effect, which is of this kind, has no points.
    NoPoints { kind: u16 },
    /// It comes too soon after the last sequence and is dropped.
    Throttled,
}

/// A play that waited, and what becomes of it.
pub struct Resolved {
    pub device_id: String,
    pub play: PendingPlay,
    pub outcome: PlayOutcome,
}

/// What becomes of an event from a device.
pub enum Reaction {
    /// The device is to be stopped. A play that waited for it, if any, is forgotten.
    Stopped { device_id: String, cleared: Option<PendingPlay> },
    /// The effect was known.
    Played { device_id: String, outcome: PlayOutcome },
    /// The effect is not known yet, and the play is held. So many effects are known.
    Held { device_id: String, known_effects: usize },
}

/// `outcome` is what becomes of a play of `effect`, where `may_emit` says whether the throttle
/// lets a sequence start.
pub open spec fn is_outcome(outcome: PlayOutcome, effect: FfEffect, may_emit: bool) -> bool {
    match outcome {
        PlayOutcome::Throttled => !may_emit,
        PlayOutcome::NoPoints { kind } => may_emit && translated(effect).len() == 0 && kind
            == effect.kind,
        PlayOutcome::Scheduled { points } => may_emit && translated(effect).len() > 0 && points@
            == translated(effect),
    }
}

/// The moment that is recorded, once a play at `now` had this outcome: only a sequence that is
/// started is recorded.
pub open spec fn last_after(
    last_haptic: Option<Timestamp>,
    outcome: PlayOutcome,
    now: Timestamp,
) -> Option<Timestamp> {
    if outcome is Scheduled {
        Some(now)
    } else {
        last_haptic
    }
}

/// What becomes of a play of `effect` at `now`, where `may_emit` is the throttle's answer. The
/// throttle records a sequence that is started, and nothing else.
pub fn process_play(
    throttle: &mut Throttle,
    effect: &FfEffect,
    now: Timestamp,
    may_emit: bool,
) -> (outcome: PlayOutcome)
    ensures
        is_outcome(outcome, *effect, may_emit),
        final(throttle)@ == (ThrottleView {
            last_haptic: last_after(old(throttle)@.last_haptic, outcome, now),
            ..old(throttle)@
        }),
{
    if may_emit {
        let points = translate(effect);
        if points.len() > 0 {
            throttle.record_at(now);
            PlayOutcome::Scheduled { points }
        } else {
            PlayOutcome::NoPoints { kind: effect.kind }
        }
    } else {
        PlayOutcome::Throttled
    }
}

/// The state once an effect was uploaded: it takes the place of any other with its id, and no
/// play waits for it any more.
pub open spec fn after_upload(
    before: AppView,
    uploaded: EffectUploaded,
    last_haptic: Option<Timestamp>,
) -> AppView {
    AppView {
        effects: purged(before.effects, uploaded.effect_id).insert(
            (uploaded.tgid, uploaded.effect_id),
            uploaded.effect,
        ),
        pending: not_waiting_for(before.pending, uploaded.effect_id),
        last_haptic,
        ..before
    }
}

/// The waiting plays that a list of resolved ones names.
pub open spec fn resolved_plays(resolved: Seq<Resolved>) -> Seq<(String, PendingPlay)> {
    resolved.map_values(|r: Resolved| (r.device_id, r.play))
}

/// Some of the resolved plays start a sequence.
pub open spec fn some_start(resolved: Seq<Resolved>) -> bool {
    exists|i: int| 0 <= i < resolved.len() && (#[trigger] resolved[i]).outcome is Scheduled
}

/// The step of the daemon when an effect is uploaded at `now`. Every play that waited for the
/// effect is resolved with it, all of them with one decision of the throttle.
pub open spec fn upload_step(
    before: AppView,
    uploaded: EffectUploaded,
    now: Timestamp,
    after: AppView,
    resolved: Seq<Resolved>,
) -> bool {
    &&& takes_all_waiting(before.pending, uploaded.effect_id, resolved_plays(resolved))
    &&& forall|i: int|
        0 <= i < resolved.len() ==> is_outcome(
            (#[trigger] resolved[i]).outcome,
            uploaded.effect,
            admits(before.last_haptic, now),
        )
    &&& after == after_upload(
        before,
        uploaded,
        if some_start(resolved) {
            Some(now)
        } else {
            before.last_haptic
        },
    )
}

/// The state once an effect was erased.
pub open spec fn after_erase(before: AppView, effect_id: i16) -> AppView {
    AppView {
        effects: purged(before.effects, effect_id),
        pending: not_waiting_for(before.pending, effect_id),
        ..before
    }
}

/// The state once a device was stopped.
pub open spec fn after_stop(before: AppView, device_id: Seq<char>, effect_id: i16) -> AppView {
    AppView {
        effects: purged(before.effects, effect_id),
        pending: before.pending.remove(device_id),
        ..before
    }
}

/// The state once a play of a known effect had its outcome.
pub open spec fn after_play(
    before: AppView,
    device_id: Seq<char>,
    last_haptic: Option<Timestamp>,
) -> AppView {
    AppView { pending: before.pending.remove(device_id), last_haptic, ..before }
}

/// The state once a play of an unknown effect was held.
pub open spec fn after_hold(
    before: AppView,
    device_id: Seq<char>,
    effect_id: i16,
    issued_at: Instant,
) -> AppView {
    AppView {
        pending: before.pending.insert(device_id, PendingPlay { effect_id, issued_at }),
        ..before
    }
}

/// The step of the daemon when `device_id` sends `event` at `now`. A play that has to wait notes
/// `issued_at`.
pub open spec fn ff_step(
    before: AppView,
    device_id: Seq<char>,
    event: FfEvent,
    now: Timestamp,
    issued_at: Instant,
    after: AppView,
    reaction: Reaction,
) -> bool {
    match event {
        FfEvent::Stop { effect_id } => {
            &&& after == after_stop(before, device_id, effect_id)
            &&& reaction matches Reaction::Stopped { device_id: stopped, cleared }
            &&& stopped@ == device_id
            &&& cleared == (if before.pending.contains_key(device_id) {
                Some(before.pending[device_id])
            } else {
                None
            })
        },
        FfEvent::Play { effect_id } => if knows_effect(before.effects, effect_id) {
            &&& reaction matches Reaction::Played { device_id: played, outcome }
            &&& played@ == device_id
            &&& exists|effect: FfEffect| #[trigger]
                stores_effect(before.effects, effect_id, effect) && is_outcome(
                    outcome,
                    effect,
                    admits(before.last_haptic, now),
                )
            &&& after == after_play(
                before,
                device_id,
                last_after(before.last_haptic, outcome, now),
            )
        } else {
            &&& reaction matches Reaction::Held { device_id: held, known_effects }
            &&& held@ == device_id
            &&& known_effects == before.effects.dom().len()
            &&& after == after_hold(before, device_id, effect_id, issued_at)
        },
    }
}

/// The state once the clock was read at `now`.
pub open spec fn read_at(before: AppView, now: Timestamp) -> AppView {
    AppView { clock: now, ..before }
}

/// The reaction starts a sequence.
pub open spec fn starts(reaction: Reaction) -> bool {
    reaction matches Reaction::Played { outcome, .. } && outcome is Scheduled
}

/// The state once what was decided has been performed at `now`: sequences that were `started` are
/// recorded then.
pub open spec fn performed(before: AppView, started: bool, now: Timestamp) -> AppView {
    if started {
        AppView { last_haptic: Some(now), ..before }
    } else {
        before
    }
}

/// A listed device is to be read anew: it is not read yet, or is read at another path.
pub open spec fn is_new(known: Map<Seq<char>, Seq<char>>, info: DeviceInfo) -> bool {
    !known.contains_key(info.device_id@) || known[info.device_id@] != info.path@
}

/// The devices that are read, once the listed ones were gone through.
pub open spec fn known_after_rescan(
    known: Map<Seq<char>, Seq<char>>,
    infos: Seq<DeviceInfo>,
) -> Map<Seq<char>, Seq<char>>
    decreases infos.len(),
{
    if infos.len() == 0 {
        known
    } else {
        known_after_rescan(known, infos.drop_last()).insert(
            infos.last().device_id@,
            infos.last().path@,
        )
    }
}

/// The reader for a listed device.
pub open spec fn reader_for(info: DeviceInfo) -> ReaderView {
    ReaderView { device_id: info.device_id@, name: info.name@, path: info.path@ }
}

/// The readers that a rescan asks for, in the order of the list.
pub open spec fn new_readers(
    known: Map<Seq<char>, Seq<char>>,
    infos: Seq<DeviceInfo>,
) -> Seq<ReaderView>
    decreases infos.len(),
{
    if infos.len() == 0 {
        seq![]
    } else {
        let readers = new_readers(known, infos.drop_last());
        if is_new(known_after_rescan(known, infos.drop_last()), infos.last()) {
            readers.push(reader_for(infos.last()))
        } else {
            readers
        }
    }
}

/// Readers by their characters.
pub open spec fn reader_views(readers: Seq<Reader>) -> Seq<ReaderView> {
    readers.map_values(|reader: Reader| reader@)
}

impl App {
    /// The parts of the state are well formed.
    pub closed spec fn wf(&self) -> bool {
        self.effect_store.wf() && self.pending_plays.wf() && self.known_devices.wf()
    }

    /// A daemon that knows no effect and reads no device.
    pub fn new() -> (app: Self)
        ensures
            app.wf(),
            app@ == (AppView {
                effects: Map::empty(),
                pending: Map::empty(),
                known: Map::empty(),
                origin: app@.origin,
                clock: Timestamp { nanos: 0 },
                last_haptic: None,
            }),
    {
        let app = App {
            effect_store: EffectStore::new(),
            pending_plays: DeviceTable::new(),
            known_devices: DeviceTable::new(),
            throttle: Throttle::new(),
        };
        assert(app@.known =~= Map::empty());
        app
    }

    /// The number of plays that wait for their effect.
    pub fn pending_count(&self) -> (n: usize)
        requires
            self.wf(),
        ensures
            n == self@.pending.dom().len(),
    {
        self.pending_plays.len()
    }

    /// Remembers that a listed device is read, and returns the reader to start for it.
    pub fn spawn_reader(&mut self, info: &DeviceInfo) -> (reader: Reader)
        requires
            old(self).wf(),
        ensures
            final(self).wf(),
            final(self)@ == (AppView {
                known: old(self)@.known.insert(info.device_id@, info.path@),
                ..old(self)@
            }),
            reader@ == reader_for(*info),
    {
        self.known_devices.insert(info.device_id.clone(), info.path.clone());
        assert(self@.known =~= old(self)@.known.insert(info.device_id@, info.path@));
        Reader {
            device_id: info.device_id.clone(),
            name: info.name.clone(),
            path: info.path.clone(),
        }
    }

    fn reads(&self, info: &DeviceInfo) -> (reads: bool)
        requires
            self.wf(),
        ensures
            reads == !is_new(self@.known, *info),
    {
        match self.known_devices.get(info.device_id.as_str()) {
            None => false,
            Some(known_path) => *known_path == info.path,
        }
    }

    /// Goes through the devices that are listed now and returns a reader for each that is not
    /// read yet, or that has come back at another path. Where the devices could not be listed,
    /// nothing changes.
    pub fn rescan_devices(&mut self, current: &Option<Vec<DeviceInfo>>) -> (readers: Vec<Reader>)
        requires
            old(self).wf(),
        ensures
            final(self).wf(),
            current matches Some(infos) ==> {
                &&& reader_views(readers@) == new_readers(old(self)@.known, infos@)
                &&& final(self)@ == (AppView {
                    known: known_after_rescan(old(self)@.known, infos@),
                    ..old(self)@
                })
            },
            current is None ==> readers@.len() == 0 && final(self)@ == old(self)@,
    {
        let mut readers: Vec<Reader> = Vec::new();
        let infos = match current {
            Some(infos) => infos,
            None => {
                return readers;
            },
        };
        let mut i: usize = 0;
        let ghost known = self@.known;
        let ghost start = self@;
        assert(infos@.subrange(0, 0) =~= seq![]);
        while i < infos.len()
            invariant
                self.wf(),
                i <= infos@.len(),
                self@ == (AppView {
                    known: known_after_rescan(known, infos@.subrange(0, i as int)),
                    ..start
                }),
                reader_views(readers@) =~= new_readers(known, infos@.subrange(0, i as int)),
            decreases infos@.len() - i,
        {
            let info = &infos[i];
            let ghost so_far = infos@.subrange(0, i as int);
            let ghost next = infos@.subrange(0, i + 1);
            let ghost before = readers@;
            assert(next.drop_last() =~= so_far);
            assert(next.last() == *info);
            if !self.reads(info) {
                let reader = self.spawn_reader(info);
                readers.push(reader);
                assert(reader_views(readers@) =~= reader_views(before).push(reader@));
            } else {
                assert(known_after_rescan(known, next) =~= known_after_rescan(known, so_far));
            }
            i = i + 1;
        }
        assert(infos@.subrange(0, i as int) =~= infos@);
        readers
    }

    /// Stores an effect that was uploaded, and resolves every play that waited for it. Once that
    /// has been performed, [`App::upload_performed`] follows.
    pub fn handle_effect_uploaded(&mut self, uploaded: &EffectUploaded) -> (resolved: Vec<Resolved>)
        requires
            old(self).wf(),
        ensures
            final(self).wf(),
            exists|now: Timestamp|
                {
                    &&& now.nanos >= old(self)@.clock.nanos
                    &&& #[trigger] upload_step(
                        read_at(old(self)@, now),
                        *uploaded,
                        now,
                        final(self)@,
                        resolved@,
                    )
                },
    {
        let now = self.throttle.read_clock();
        assert(self@ == read_at(old(self)@, now));
        self.effect_uploaded_at(uploaded, now)
    }

    /// What [`App::handle_effect_uploaded`] does when the clock shows `now`.
    pub fn effect_uploaded_at(&mut self, uploaded: &EffectUploaded, now: Timestamp) -> (resolved:
        Vec<Resolved>)
        requires
            old(self).wf(),
        ensures
            final(self).wf(),
            upload_step(old(self)@, *uploaded, now, final(self)@, resolved@),
    {
        upsert_effect(
            &mut self.effect_store,
            uploaded.tgid,
            uploaded.effect_id,
            uploaded.effect,
        );
        let mut taken = take_all_pending_matching_effect(
            &mut self.pending_plays,
            uploaded.effect_id,
        );
        let ghost all = taken@;
        let ghost middle = self@;
        let may_emit = self.throttle.admits_at(now);
        let mut resolved: Vec<Resolved> = Vec::new();
        while taken.len() > 0
            invariant
                self.wf(),
                taken@.len() + resolved@.len() == all.len(),
                taken@ =~= all.subrange(resolved@.len() as int, all.len() as int),
                resolved_plays(resolved@) =~= all.subrange(0, resolved@.len() as int),
                forall|i: int|
                    0 <= i < resolved@.len() ==> is_outcome(
                        (#[trigger] resolved@[i]).outcome,
                        uploaded.effect,
                        may_emit,
                    ),
                self@ == (AppView {
                    last_haptic: if some_start(resolved@) {
                        Some(now)
                    } else {
                        middle.last_haptic
                    },
                    ..middle
                }),
            decreases taken@.len(),
        {
            let ghost before = resolved@;
            let (device_id, play) = taken.remove(0);
            let outcome = process_play(&mut self.throttle, &uploaded.effect, now, may_emit);
            resolved.push(Resolved { device_id, play, outcome });
            proof {
                assert(resolved@[before.len() as int].outcome == outcome);
                assert forall|i: int| 0 <= i < before.len() implies resolved@[i] == before[i] by {}
                if some_start(before) {
                    let i = choose|i: int|
                        0 <= i < before.len() && (#[trigger] before[i]).outcome is Scheduled;
                    assert(resolved@[i].outcome is Scheduled);
                }
                if some_start(resolved@) && !(outcome is Scheduled) {
                    let i = choose|i: int|
                        0 <= i < resolved@.len() && (
                        #[trigger] resolved@[i]).outcome is Scheduled;
                    assert(before[i].outcome is Scheduled);
                }
                assert(resolved_plays(resolved@) =~= resolved_plays(before).push(
                    (device_id, play),
                ));
            }
        }
        assert(resolved_plays(resolved@) =~= all);
        resolved
    }

    /// Forgets an effect that was erased, whichever process had uploaded it, and every play that
    /// waited for it. Those plays are returned.
    pub fn handle_effect_erased(&mut self, _tgid: u32, effect_id: i16) -> (cleared: Vec<
        (String, PendingPlay),
    >)
        requires
            old(self).wf(),
        ensures
            final(self).wf(),
            final(self)@ == after_erase(old(self)@, effect_id),
            takes_all_waiting(old(self)@.pending, effect_id, cleared@),
    {
        purge_effect_id(&mut self.effect_store, effect_id);
        take_all_pending_matching_effect(&mut self.pending_plays, effect_id)
    }

    /// Decides what becomes of an event from a device. A stop forgets the effect and the play that
    /// waits for the device. A play of a known effect is played, if the throttle lets it; one of an
    /// unknown effect is held. Once the reaction has been performed, [`App::reaction_performed`]
    /// follows.
    pub fn handle_ff_event(&mut self, device_id: String, event: FfEvent) -> (reaction: Reaction)
        requires
            old(self).wf(),
        ensures
            final(self).wf(),
            exists|now: Timestamp, issued_at: Instant|
                {
                    &&& now.nanos >= old(self)@.clock.nanos
                    &&& #[trigger] ff_step(
                        read_at(old(self)@, now),
                        device_id@,
                        event,
                        now,
                        issued_at,
                        final(self)@,
                        reaction,
                    )
                },
    {
        let now = self.throttle.read_clock();
        assert(self@ == read_at(old(self)@, now));
        self.ff_event_at(device_id, event, now, Instant::now())
    }

    /// What [`App::handle_ff_event`] does when the clock shows `now`. A play that has to wait notes
    /// `issued_at`.
    pub fn ff_event_at(
        &mut self,
        device_id: String,
        event: FfEvent,
        now: Timestamp,
        issued_at: Instant,
    ) -> (reaction: Reaction)
        requires
            old(self).wf(),
        ensures
            final(self).wf(),
            ff_step(old(self)@, device_id@, event, now, issued_at, final(self)@, reaction),
    {
        match event {
            FfEvent::Stop { effect_id } => {
                purge_effect_id(&mut self.effect_store, effect_id);
                let cleared = take_pending_for_device(&mut self.pending_plays, device_id.as_str());
                Reaction::Stopped { device_id, cleared }
            },
            FfEvent::Play { effect_id } => {
                let maybe_effect = self.effect_store.find(effect_id);
                match maybe_effect {
                    Some(effect) => {
                        take_pending_for_device(&mut self.pending_plays, device_id.as_str());
                        let may_emit = self.throttle.admits_at(now);
                        let outcome = process_play(&mut self.throttle, &effect, now, may_emit);
                        assert(stores_effect(old(self)@.effects, effect_id, effect));
                        Reaction::Played { device_id, outcome }
                    },
                    None => {
                        let known_effects = self.effect_store.len();
                        insert_pending(
                            &mut self.pending_plays,
                            device_id.clone(),
                            effect_id,
                            issued_at,
                        );
                        Reaction::Held { device_id, known_effects }
                    },
                }
            },
        }
    }

    /// Notes that a reaction has been performed. Where it started a sequence, the sequence counts
    /// from now on, and not from when it was decided on.
    pub fn reaction_performed(&mut self, reaction: &Reaction)
        requires
            old(self).wf(),
        ensures
            final(self).wf(),
            exists|now: Timestamp|
                now.nanos >= old(self)@.clock.nanos && final(self)@ == #[trigger] performed(
                    read_at(old(self)@, now),
                    starts(*reaction),
                    now,
                ),
    {
        let now = self.throttle.read_clock();
        assert(self@ == read_at(old(self)@, now));
        self.reaction_performed_at(reaction, now);
    }

    /// What [`App::reaction_performed`] does when the clock shows `now`.
    pub fn reaction_performed_at(&mut self, reaction: &Reaction, now: Timestamp)
        requires
            old(self).wf(),
        ensures
            final(self).wf(),
            final(self)@ == performed(old(self)@, starts(*reaction), now),
    {
        if let Reaction::Played { outcome: PlayOutcome::Scheduled { .. }, .. } = reaction {
            self.throttle.record_at(now);
        }
    }

    /// Notes that what an upload resolved has been performed. Where it started sequences, they
    /// count from now on, and not from when they were decided on.
    pub fn upload_performed(&mut self, resolved: &Vec<Resolved>)
        requires
            old(self).wf(),
        ensures
            final(self).wf(),
            exists|now: Timestamp|
                now.nanos >= old(self)@.clock.nanos && final(self)@ == #[trigger] performed(
                    read_at(old(self)@, now),
                    some_start(resolved@),
                    now,
                ),
    {
        let now = self.throttle.read_clock();
        assert(self@ == read_at(old(self)@, now));
        self.upload_performed_at(resolved, now);
    }

    /// What [`App::upload_performed`] does when the clock shows `now`.
    pub fn upload_performed_at(&mut self, resolved: &Vec<Resolved>, now: Timestamp)
        requires
            old(self).wf(),
        ensures
            final(self).wf(),
            final(self)@ == performed(old(self)@, some_start(resolved@), now),
    {
        let mut i: usize = 0;
        while i < resolved.len()
            invariant
                *self == *old(self),
                self.wf(),
                i <= resolved@.len(),
                forall|k: int| 0 <= k < i ==> !((#[trigger] resolved@[k]).outcome is Scheduled),
            decreases resolved@.len() - i,
        {
            if let PlayOutcome::Scheduled { .. } = &resolved[i].outcome {
                assert(some_start(resolved@));
                self.throttle.record_at(now);
                return;
            }
            i = i + 1;
        }
    }
}

/// Effects are stored under the id that they bear, and at most one for each id.
pub open spec fn coherent(effects: Map<(u32, i16), FfEffect>) -> bool {
    &&& forall|key: (u32, i16)| #[trigger] effects.contains_key(key) ==> effects[key].id == key.1
    &&& forall|a: (u32, i16), b: (u32, i16)|
        #[trigger] effects.contains_key(a) && #[trigger] effects.contains_key(b) && a.1 == b.1 ==> a
            == b
}

/// The stored effects are coherent, and no play waits for an effect that is known.
pub open spec fn sound(state: AppView) -> bool {
    &&& coherent(state.effects)
    &&& forall|device_id: Seq<char>| #[trigger]
        state.pending.contains_key(device_id) ==> !knows_effect(
            state.effects,
            state.pending[device_id].effect_id,
        )
}

proof fn lemma_purge_is_coherent(effects: Map<(u32, i16), FfEffect>, effect_id: i16)
    requires
        coherent(effects),
    ensures
        coherent(purged(effects, effect_id)),
        !knows_effect(purged(effects, effect_id), effect_id),
        forall|other: i16|
            other != effect_id ==> (#[trigger] knows_effect(purged(effects, effect_id), other)
                <==> knows_effect(effects, other)),
{
    let rest = purged(effects, effect_id);
    assert forall|key: (u32, i16)| #[trigger] rest.contains_key(key) implies effects.contains_key(
        key,
    ) && rest[key] == effects[key] && key.1 != effect_id by {}
    assert forall|other: i16| other != effect_id implies (#[trigger] knows_effect(rest, other)
        <==> knows_effect(effects, other)) by {
        if knows_effect(effects, other) {
            let key = choose|key: (u32, i16)| #[trigger]
                effects.contains_key(key) && effects[key].id == other;
            assert(rest.contains_key(key));
        }
        if knows_effect(rest, other) {
            let key = choose|key: (u32, i16)| #[trigger]
                rest.contains_key(key) && rest[key].id == other;
            assert(effects.contains_key(key));
        }
    }
}

proof fn lemma_upload_is_coherent(before: AppView, uploaded: EffectUploaded, after: AppView)
    requires
        coherent(before.effects),
        uploaded.effect.id == uploaded.effect_id,
        after.effects == after_upload(before, uploaded, after.last_haptic).effects,
    ensures
        coherent(after.effects),
        knows_effect(after.effects, uploaded.effect_id),
        forall|effect: FfEffect| #[trigger]
            stores_effect(after.effects, uploaded.effect_id, effect) ==> effect == uploaded.effect,
        forall|other: i16|
            other != uploaded.effect_id ==> (#[trigger] knows_effect(after.effects, other)
                <==> knows_effect(before.effects, other)),
{
    let key = (uploaded.tgid, uploaded.effect_id);
    let rest = purged(before.effects, uploaded.effect_id);
    lemma_purge_is_coherent(before.effects, uploaded.effect_id);
    assert(after.effects.contains_key(key));
    assert forall|effect: FfEffect| #[trigger]
        stores_effect(after.effects, uploaded.effect_id, effect) implies effect
        == uploaded.effect by {
        let k = choose|k: (u32, i16)| #[trigger]
            after.effects.contains_key(k) && after.effects[k] == effect;
        if k != key {
            assert(rest.contains_key(k));
        }
    }
    assert forall|other: i16| other != uploaded.effect_id implies (#[trigger] knows_effect(
        after.effects,
        other,
    ) <==> knows_effect(before.effects, other)) by {
        if knows_effect(after.effects, other) {
            let k = choose|k: (u32, i16)| #[trigger]
                after.effects.contains_key(k) && after.effects[k].id == other;
            assert(rest.contains_key(k));
            assert(knows_effect(rest, other));
        }
        if knows_effect(before.effects, other) {
            assert(knows_effect(rest, other));
            let k = choose|k: (u32, i16)| #[trigger] rest.contains_key(k) && rest[k].id == other;
            assert(after.effects.contains_key(k));
        }
    }
}

/// Nothing but time has passed from `before` to `after`: the clock may have been read, and
/// sequences may have been recorded.
pub open spec fn only_time_passed(before: AppView, after: AppView) -> bool {
    after == (AppView { clock: after.clock, last_haptic: after.last_haptic, ..before })
}

/// A daemon that starts is sound.
pub proof fn start_is_sound(start: AppView)
    requires
        start.effects == Map::<(u32, i16), FfEffect>::empty(),
        start.pending == Map::<Seq<char>, PendingPlay>::empty(),
    ensures
        sound(start),
{
}

/// An upload keeps the daemon sound, where the effect bears the id that it was uploaded under.
pub proof fn upload_keeps_sound(
    before: AppView,
    uploaded: EffectUploaded,
    now: Timestamp,
    after: AppView,
    resolved: Seq<Resolved>,
)
    requires
        sound(before),
        uploaded.effect.id == uploaded.effect_id,
        upload_step(before, uploaded, now, after, resolved),
    ensures
        sound(after),
{
    lemma_upload_is_coherent(before, uploaded, after);
    assert forall|device_id: Seq<char>| #[trigger] after.pending.contains_key(
        device_id,
    ) implies !knows_effect(after.effects, after.pending[device_id].effect_id) by {
        assert(before.pending.contains_key(device_id));
        assert(!knows_effect(before.effects, before.pending[device_id].effect_id));
    }
}

/// An erasure keeps the daemon sound.
pub proof fn erase_keeps_sound(before: AppView, effect_id: i16)
    requires
        sound(before),
    ensures
        sound(after_erase(before, effect_id)),
{
    let after = after_erase(before, effect_id);
    lemma_purge_is_coherent(before.effects, effect_id);
    assert forall|device_id: Seq<char>| #[trigger] after.pending.contains_key(
        device_id,
    ) implies !knows_effect(after.effects, after.pending[device_id].effect_id) by {
        assert(before.pending.contains_key(device_id));
    }
}

/// An event from a device keeps the daemon sound.
pub proof fn ff_event_keeps_sound(
    before: AppView,
    device_id: Seq<char>,
    event: FfEvent,
    now: Timestamp,
    issued_at: Instant,
    after: AppView,
    reaction: Reaction,
)
    requires
        sound(before),
        ff_step(before, device_id, event, now, issued_at, after, reaction),
    ensures
        sound(after),
{
    if let FfEvent::Stop { effect_id } = event {
        lemma_purge_is_coherent(before.effects, effect_id);
        assert forall|d: Seq<char>| #[trigger] after.pending.contains_key(d) implies !knows_effect(
            after.effects,
            after.pending[d].effect_id,
        ) by {
            assert(before.pending.contains_key(d));
        }
    } else {
        assert forall|d: Seq<char>| #[trigger] after.pending.contains_key(d) implies !knows_effect(
            after.effects,
            after.pending[d].effect_id,
        ) by {
            if d != device_id {
                assert(before.pending.contains_key(d));
            }
        }
    }
}

/// The latest upload of an id is what a play of that id plays, on every device: whichever
/// processes uploaded under the id before, the play is not held, and its outcome is that of the
/// effect uploaded last.
pub proof fn latest_upload_is_played(
    before: AppView,
    uploaded: EffectUploaded,
    now: Timestamp,
    middle: AppView,
    resolved: Seq<Resolved>,
    resumed: AppView,
    device_id: Seq<char>,
    later: Timestamp,
    issued_at: Instant,
    after: AppView,
    reaction: Reaction,
)
    requires
        coherent(before.effects),
        uploaded.effect.id == uploaded.effect_id,
        upload_step(before, uploaded, now, middle, resolved),
        only_time_passed(middle, resumed),
        ff_step(
            resumed,
            device_id,
            FfEvent::Play { effect_id: uploaded.effect_id },
            later,
            issued_at,
            after,
            reaction,
        ),
    ensures
        reaction matches Reaction::Played { device_id: played, outcome } && played@ == device_id
            && is_outcome(outcome, uploaded.effect, admits(resumed.last_haptic, later)),
        !after.pending.contains_key(device_id),
{
    lemma_upload_is_coherent(before, uploaded, middle);
}

/// A play that comes before the upload of its effect is not lost: the upload resolves it, with the
/// effect uploaded, on the device that it was meant for, and the device waits no more.
pub proof fn held_play_is_resolved_by_upload(
    before: AppView,
    device_id: Seq<char>,
    uploaded: EffectUploaded,
    now: Timestamp,
    issued_at: Instant,
    middle: AppView,
    reaction: Reaction,
    resumed: AppView,
    later: Timestamp,
    after: AppView,
    resolved: Seq<Resolved>,
)
    requires
        !knows_effect(before.effects, uploaded.effect_id),
        ff_step(
            before,
            device_id,
            FfEvent::Play { effect_id: uploaded.effect_id },
            now,
            issued_at,
            middle,
            reaction,
        ),
        only_time_passed(middle, resumed),
        upload_step(resumed, uploaded, later, after, resolved),
    ensures
        reaction is Held,
        exists|i: int|
            0 <= i < resolved.len() && (#[trigger] resolved[i]).device_id@ == device_id
                && is_outcome(
                resolved[i].outcome,
                uploaded.effect,
                admits(resumed.last_haptic, later),
            ),
        !after.pending.contains_key(device_id),
{
    assert(waits_for(resumed.pending, device_id, uploaded.effect_id));
    let plays = resolved_plays(resolved);
    let i = choose|i: int| 0 <= i < plays.len() && (#[trigger] plays[i]).0@ == device_id;
    assert(resolved[i].device_id@ == device_id);
}

/// An upload resolves every device that waits for its id, each once, and no other device.
pub proof fn upload_resolves_exactly_the_waiting(
    before: AppView,
    uploaded: EffectUploaded,
    now: Timestamp,
    after: AppView,
    resolved: Seq<Resolved>,
    device_id: Seq<char>,
)
    requires
        upload_step(before, uploaded, now, after, resolved),
    ensures
        waits_for(before.pending, device_id, uploaded.effect_id) <==> exists|i: int|
            0 <= i < resolved.len() && (#[trigger] resolved[i]).device_id@ == device_id,
        forall|i: int, j: int|
            0 <= i < j < resolved.len() ==> (#[trigger] resolved[i]).device_id@ != (
            #[trigger] resolved[j]).device_id@,
        !waits_for(after.pending, device_id, uploaded.effect_id),
{
    let plays = resolved_plays(resolved);
    if waits_for(before.pending, device_id, uploaded.effect_id) {
        let i = choose|i: int| 0 <= i < plays.len() && (#[trigger] plays[i]).0@ == device_id;
        assert(resolved[i].device_id@ == device_id);
    }
    if exists|i: int| 0 <= i < resolved.len() && (#[trigger] resolved[i]).device_id@ == device_id {
        let i = choose|i: int|
            0 <= i < resolved.len() && (#[trigger] resolved[i]).device_id@ == device_id;
        assert(plays[i].0@ == device_id);
    }
    assert forall|i: int, j: int| 0 <= i < j < resolved.len() implies (
    #[trigger] resolved[i]).device_id@ != (#[trigger] resolved[j]).device_id@ by {
        assert(plays[i].0@ != plays[j].0@);
    }
}

/// A stop clears the play that waits for the device: an upload that comes after it, of whatever
/// effect, starts nothing on that device.
pub proof fn stopped_device_is_not_resolved(
    before: AppView,
    device_id: Seq<char>,
    effect_id: i16,
    now: Timestamp,
    issued_at: Instant,
    middle: AppView,
    reaction: Reaction,
    resumed: AppView,
    uploaded: EffectUploaded,
    later: Timestamp,
    after: AppView,
    resolved: Seq<Resolved>,
)
    requires
        ff_step(
            before,
            device_id,
            FfEvent::Stop { effect_id },
            now,
            issued_at,
            middle,
            reaction,
        ),
        only_time_passed(middle, resumed),
        upload_step(resumed, uploaded, later, after, resolved),
    ensures
        forall|i: int|
            0 <= i < resolved.len() ==> (#[trigger] resolved[i]).device_id@ != device_id,
        !after.pending.contains_key(device_id),
{
    upload_resolves_exactly_the_waiting(
        resumed,
        uploaded,
        later,
        after,
        resolved,
        device_id,
    );
}

/// A stop of one device leaves the plays that wait for others as they are.
pub proof fn stop_leaves_other_devices(
    before: AppView,
    device_id: Seq<char>,
    effect_id: i16,
    other: Seq<char>,
)
    requires
        other != device_id,
    ensures
        after_stop(before, device_id, effect_id).pending.contains_key(other)
            == before.pending.contains_key(other),
        before.pending.contains_key(other) ==> after_stop(
            before,
            device_id,
            effect_id,
        ).pending[other] == before.pending[other],
{
}

/// An erasure clears every play that waits for the id, on whichever device: a later upload of the
/// id resolves nothing. A play of the id after the erasure is held, where the stored effects are
/// coherent.
pub proof fn erased_effect_is_gone(
    before: AppView,
    effect_id: i16,
    resumed: AppView,
    uploaded: EffectUploaded,
    now: Timestamp,
    after: AppView,
    resolved: Seq<Resolved>,
)
    requires
        uploaded.effect_id == effect_id,
        only_time_passed(after_erase(before, effect_id), resumed),
        upload_step(resumed, uploaded, now, after, resolved),
    ensures
        resolved.len() == 0,
        coherent(before.effects) ==> !knows_effect(
            after_erase(before, effect_id).effects,
            effect_id,
        ),
{
    if resolved.len() > 0 {
        let plays = resolved_plays(resolved);
        assert(waits_for(resumed.pending, plays[0].0@, effect_id));
    }
    if coherent(before.effects) {
        lemma_purge_is_coherent(before.effects, effect_id);
    }
}

/// Of two plays that a device has to wait for, the newer one counts: the older is forgotten, so
/// that the upload of its effect starts nothing there.
pub proof fn newer_play_replaces_older(
    before: AppView,
    device_id: Seq<char>,
    older: i16,
    newer: i16,
    first: Instant,
    second: Instant,
)
    ensures
        after_hold(after_hold(before, device_id, older, first), device_id, newer, second)
            == after_hold(before, device_id, newer, second),
        older != newer ==> !waits_for(
            after_hold(
                after_hold(before, device_id, older, first),
                device_id,
                newer,
                second,
            ).pending,
            device_id,
            older,
        ),
{
    let once = before.pending.insert(
        device_id,
        PendingPlay { effect_id: newer, issued_at: second },
    );
    let twice = before.pending.insert(
        device_id,
        PendingPlay { effect_id: older, issued_at: first },
    ).insert(device_id, PendingPlay { effect_id: newer, issued_at: second });
    assert(once =~= twice);
}

/// A list of devices names each device id at one path.
pub open spec fn one_path_each(infos: Seq<DeviceInfo>) -> bool {
    forall|i: int, j: int|
        0 <= i < infos.len() && 0 <= j < infos.len() && (#[trigger] infos[i]).device_id@ == (
        #[trigger] infos[j]).device_id@ ==> infos[i].path@ == infos[j].path@
}

/// After a rescan every listed device is read at its listed path, where the list names no device
/// at two paths.
pub proof fn rescan_reads_all_listed(
    known: Map<Seq<char>, Seq<char>>,
    infos: Seq<DeviceInfo>,
    i: int,
)
    requires
        one_path_each(infos),
        0 <= i < infos.len(),
    ensures
        !is_new(known_after_rescan(known, infos), infos[i]),
    decreases infos.len(),
{
    let rest = infos.drop_last();
    if i < infos.len() - 1 {
        assert(one_path_each(rest)) by {
            assert forall|a: int, b: int|
                0 <= a < rest.len() && 0 <= b < rest.len() && (#[trigger] rest[a]).device_id@ == (
                #[trigger] rest[b]).device_id@ implies rest[a].path@ == rest[b].path@ by {
                assert(infos[a].device_id@ == infos[b].device_id@);
            }
        }
        rescan_reads_all_listed(known, rest, i);
        assert(rest[i] == infos[i]);
        if infos[i].device_id@ == infos.last().device_id@ {
            assert(infos[i].path@ == infos[infos.len() - 1].path@);
        }
    }
}

/// No device is listed twice.
pub open spec fn distinct_ids(infos: Seq<DeviceInfo>) -> bool {
    forall|i: int, j: int|
        0 <= i < j < infos.len() ==> (#[trigger] infos[i]).device_id@ != (
        #[trigger] infos[j]).device_id@
}

/// A device is listed.
pub open spec fn lists(infos: Seq<DeviceInfo>, device_id: Seq<char>) -> bool {
    exists|i: int| 0 <= i < infos.len() && (#[trigger] infos[i]).device_id@ == device_id
}

proof fn lemma_unlisted_stay(
    known: Map<Seq<char>, Seq<char>>,
    infos: Seq<DeviceInfo>,
    device_id: Seq<char>,
)
    requires
        !lists(infos, device_id),
    ensures
        known_after_rescan(known, infos).contains_key(device_id) == known.contains_key(device_id),
        known.contains_key(device_id) ==> known_after_rescan(known, infos)[device_id]
            == known[device_id],
    decreases infos.len(),
{
    if infos.len() > 0 {
        let rest = infos.drop_last();
        assert(infos[infos.len() - 1] == infos.last());
        if lists(rest, device_id) {
            let i = choose|i: int|
                0 <= i < rest.len() && (#[trigger] rest[i]).device_id@ == device_id;
            assert(infos[i].device_id@ == device_id);
        }
        lemma_unlisted_stay(known, rest, device_id);
    }
}

/// What a rescan comes to, where no device is listed twice: the readers are those of the listed
/// devices that were not read or were read at another path, in the order of the list; every listed
/// device is then read at its listed path; and devices that are not listed stay as they were.
pub proof fn rescan_reads_what_is_new(
    known: Map<Seq<char>, Seq<char>>,
    infos: Seq<DeviceInfo>,
    device_id: Seq<char>,
)
    requires
        distinct_ids(infos),
    ensures
        new_readers(known, infos) == infos.filter(
            |info: DeviceInfo| is_new(known, info),
        ).map_values(|info: DeviceInfo| reader_for(info)),
        forall|i: int|
            0 <= i < infos.len() ==> known_after_rescan(known, infos).contains_key(
                (#[trigger] infos[i]).device_id@,
            ) && known_after_rescan(known, infos)[infos[i].device_id@] == infos[i].path@,
        !lists(infos, device_id) ==> {
            &&& known_after_rescan(known, infos).contains_key(device_id) == known.contains_key(
                device_id,
            )
            &&& known.contains_key(device_id) ==> known_after_rescan(known, infos)[device_id]
                == known[device_id]
        },
    decreases infos.len(),
{
    let wanted = |info: DeviceInfo| is_new(known, info);
    let reader = |info: DeviceInfo| reader_for(info);
    reveal(Seq::filter);
    if infos.len() == 0 {
        assert(infos.filter(wanted).map_values(reader) =~= seq![]);
    } else {
        let rest = infos.drop_last();
        let last = infos.last();
        assert(infos[infos.len() - 1] == last);
        assert forall|i: int, j: int| 0 <= i < j < rest.len() implies (
        #[trigger] rest[i]).device_id@ != (#[trigger] rest[j]).device_id@ by {
            assert(infos[i].device_id@ != infos[j].device_id@);
        }
        rescan_reads_what_is_new(known, rest, device_id);
        if lists(rest, last.device_id@) {
            let i = choose|i: int|
                0 <= i < rest.len() && (#[trigger] rest[i]).device_id@ == last.device_id@;
            assert(infos[i].device_id@ != infos[infos.len() - 1].device_id@);
        }
        lemma_unlisted_stay(known, rest, last.device_id@);
        assert(is_new(known_after_rescan(known, rest), last) == is_new(known, last));
        if is_new(known, last) {
            assert(infos.filter(wanted) =~= rest.filter(wanted).push(last));
            assert(infos.filter(wanted).map_values(reader) =~= rest.filter(wanted).map_values(
                reader,
            ).push(reader_for(last)));
        } else {
            assert(infos.filter(wanted) =~= rest.filter(wanted));
        }
        assert forall|i: int| 0 <= i < infos.len() implies known_after_rescan(
            known,
            infos,
        ).contains_key((#[trigger] infos[i]).device_id@) && known_after_rescan(
            known,
            infos,
        )[infos[i].device_id@] == infos[i].path@ by {
            if i < rest.len() {
                assert(rest[i] == infos[i]);
                assert(infos[i].device_id@ != infos[infos.len() - 1].device_id@);
            }
        }
        if !lists(infos, device_id) {
            lemma_unlisted_stay(known, infos, device_id);
        }
    }
}

proof fn lemma_nothing_new(known: Map<Seq<char>, Seq<char>>, infos: Seq<DeviceInfo>)
    requires
        forall|i: int| 0 <= i < infos.len() ==> !is_new(known, #[trigger] infos[i]),
    ensures
        known_after_rescan(known, infos) == known,
        new_readers(known, infos).len() == 0,
    decreases infos.len(),
{
    if infos.len() > 0 {
        let rest = infos.drop_last();
        assert forall|i: int| 0 <= i < rest.len() implies !is_new(known, #[trigger] rest[i]) by {
            assert(rest[i] == infos[i]);
        }
        lemma_nothing_new(known, rest);
        assert(!is_new(known, infos[infos.len() - 1]));
        assert(known_after_rescan(known, infos) =~= known);
    }
}

/// A second rescan of the same devices starts no reader and changes nothing, where the list names
/// no device at two paths.
pub proof fn rescan_is_idempotent(known: Map<Seq<char>, Seq<char>>, infos: Seq<DeviceInfo>)
    requires
        one_path_each(infos),
    ensures
        new_readers(known_after_rescan(known, infos), infos).len() == 0,
        known_after_rescan(known_after_rescan(known, infos), infos) == known_after_rescan(
            known,
            infos,
        ),
{
    let after = known_after_rescan(known, infos);
    assert forall|i: int| 0 <= i < infos.len() implies !is_new(after, #[trigger] infos[i]) by {
        rescan_reads_all_listed(known, infos, i);
    }
    lemma_nothing_new(after, infos);
}

/// A play that waits goes on to wait until something concerns it: events from other devices, and
/// uploads and erasures of other effects, leave it as it is.
pub proof fn held_play_goes_on_to_wait(
    before: AppView,
    device_id: Seq<char>,
    other_device: Seq<char>,
    event: FfEvent,
    uploaded: EffectUploaded,
    now: Timestamp,
    issued_at: Instant,
    after_event: AppView,
    reaction: Reaction,
    after_other_upload: AppView,
    resolved: Seq<Resolved>,
    erased_id: i16,
)
    requires
        before.pending.contains_key(device_id),
        other_device != device_id,
        ff_step(before, other_device, event, now, issued_at, after_event, reaction),
        uploaded.effect_id != before.pending[device_id].effect_id,
        upload_step(before, uploaded, now, after_other_upload, resolved),
        erased_id != before.pending[device_id].effect_id,
    ensures
        after_event.pending.contains_key(device_id),
        after_event.pending[device_id] == before.pending[device_id],
        after_other_upload.pending.contains_key(device_id),
        after_other_upload.pending[device_id] == before.pending[device_id],
        after_erase(before, erased_id).pending.contains_key(device_id),
        after_erase(before, erased_id).pending[device_id] == before.pending[device_id],
{
}

/// The daemon records the sequences that it starts, and nothing else: a stop, a play that is held
/// or dropped, one of an effect without points, an upload that starts nothing and an erasure leave
/// the recorded moment as it is, and so does performing them.
pub proof fn started_sequences_alone_are_recorded(
    before: AppView,
    device_id: Seq<char>,
    event: FfEvent,
    uploaded: EffectUploaded,
    effect_id: i16,
    now: Timestamp,
    issued_at: Instant,
    after_event: AppView,
    reaction: Reaction,
    after_its_upload: AppView,
    resolved: Seq<Resolved>,
    later: Timestamp,
)
    requires
        ff_step(before, device_id, event, now, issued_at, after_event, reaction),
        upload_step(before, uploaded, now, after_its_upload, resolved),
    ensures
        after_event.last_haptic == (if starts(reaction) {
            Some(now)
        } else {
            before.last_haptic
        }),
        performed(after_event, starts(reaction), later).last_haptic == (if starts(reaction) {
            Some(later)
        } else {
            before.last_haptic
        }),
        after_its_upload.last_haptic == (if some_start(resolved) {
            Some(now)
        } else {
            before.last_haptic
        }),
        performed(after_its_upload, some_start(resolved), later).last_haptic == (if some_start(
            resolved,
        ) {
            Some(later)
        } else {
            before.last_haptic
        }),
        after_erase(before, effect_id).last_haptic == before.last_haptic,
{
}

/// A sequence is started from `before` to `after`: a moment is recorded, at least the least
/// interval after the one recorded before.
pub open spec fn starts_apart(before: AppView, after: AppView) -> bool {
    after.last_haptic matches Some(second) && (before.last_haptic matches Some(first)
        ==> second.nanos - first.nanos >= MIN_INTERVAL_MS * NANOS_PER_MS)
}

/// No sequence is started from `before` to `after`: nothing is recorded, or a later moment for the
/// sequence that was started last.
pub open spec fn starts_nothing(before: AppView, after: AppView) -> bool {
    ||| after.last_haptic == before.last_haptic
    ||| before.last_haptic matches Some(first) && after.last_haptic matches Some(second)
        && second.nanos >= first.nanos
}

/// A play that starts a sequence is decided on, and recorded, at least the least interval after the
/// moment recorded before. Any other event starts nothing. Performing the reaction records the
/// moment after it, and starts nothing either.
pub proof fn played_sequences_are_apart(
    before: AppView,
    device_id: Seq<char>,
    event: FfEvent,
    now: Timestamp,
    issued_at: Instant,
    middle: AppView,
    reaction: Reaction,
    later: Timestamp,
)
    requires
        ff_step(read_at(before, now), device_id, event, now, issued_at, middle, reaction),
        later.nanos >= middle.clock.nanos,
    ensures
        starts(reaction) ==> middle.last_haptic == Some(now) && starts_apart(before, middle),
        !starts(reaction) ==> starts_nothing(before, middle),
        starts_nothing(middle, performed(read_at(middle, later), starts(reaction), later)),
{
}

/// Plays that an upload resolves, and that start sequences, are decided on, and recorded, at least
/// the least interval after the moment recorded before. An upload that starts none starts nothing.
/// Performing what was resolved records the moment after it, and starts nothing either.
pub proof fn resolved_sequences_are_apart(
    before: AppView,
    uploaded: EffectUploaded,
    now: Timestamp,
    middle: AppView,
    resolved: Seq<Resolved>,
    later: Timestamp,
)
    requires
        upload_step(read_at(before, now), uploaded, now, middle, resolved),
        later.nanos >= middle.clock.nanos,
    ensures
        some_start(resolved) ==> middle.last_haptic == Some(now) && starts_apart(before, middle),
        !some_start(resolved) ==> starts_nothing(before, middle),
        starts_nothing(middle, performed(read_at(middle, later), some_start(resolved), later)),
{
}

/// What the daemon does next, with what came of it.
pub enum DaemonStep {
    Event {
        device_id: Seq<char>,
        event: FfEvent,
        now: Timestamp,
        issued_at: Instant,
        reaction: Reaction,
    },
    Upload { uploaded: EffectUploaded, now: Timestamp, resolved: Seq<Resolved> },
    Erase { effect_id: i16 },
    /// Other devices are read.
    Devices { known: Map<Seq<char>, Seq<char>> },
    /// What was decided has been performed.
    Performed { started: bool, now: Timestamp },
}

impl DaemonStep {
    /// The daemon goes from `before` to `after` by this step. The clock does not go back, and only
    /// sequences that were decided on are performed.
    pub open spec fn leads(self, before: AppView, after: AppView) -> bool {
        match self {
            DaemonStep::Event { device_id, event, now, issued_at, reaction } => {
                &&& now.nanos >= before.clock.nanos
                &&& ff_step(
                    read_at(before, now),
                    device_id,
                    event,
                    now,
                    issued_at,
                    after,
                    reaction,
                )
            },
            DaemonStep::Upload { uploaded, now, resolved } => {
                &&& now.nanos >= before.clock.nanos
                &&& upload_step(read_at(before, now), uploaded, now, after, resolved)
            },
            DaemonStep::Erase { effect_id } => after == after_erase(before, effect_id),
            DaemonStep::Devices { known } => after == (AppView { known, ..before }),
            DaemonStep::Performed { started, now } => {
                &&& now.nanos >= before.clock.nanos
                &&& started ==> before.last_haptic is Some
                &&& after == performed(read_at(before, now), started, now)
            },
        }
    }

    /// When this step starts a sequence, if it does.
    pub open spec fn start(self) -> Option<Timestamp> {
        match self {
            DaemonStep::Event { now, reaction, .. } => if starts(reaction) {
                Some(now)
            } else {
                None
            },
            DaemonStep::Upload { now, resolved, .. } => if some_start(resolved) {
                Some(now)
            } else {
                None
            },
            _ => None,
        }
    }
}

/// The daemon goes through `states` by `steps`, and has started nothing before.
pub open spec fn is_run(states: Seq<AppView>, steps: Seq<DaemonStep>) -> bool {
    &&& states.len() == steps.len() + 1
    &&& states[0].last_haptic is None
    &&& forall|n: int|
        0 <= n < steps.len() ==> (#[trigger] steps[n]).leads(states[n], states[n + 1])
}

/// However long the daemon runs, and whatever it is told, any two sequences are started at least
/// the least interval apart.
pub proof fn started_sequences_stay_apart(
    states: Seq<AppView>,
    steps: Seq<DaemonStep>,
    i: int,
    j: int,
)
    requires
        is_run(states, steps),
        0 <= i < j < steps.len(),
        steps[i].start() is Some,
        steps[j].start() is Some,
    ensures
        steps[j].start()->0.nanos - steps[i].start()->0.nanos >= MIN_INTERVAL_MS * NANOS_PER_MS,
{
    assert(steps[i].leads(states[i], states[i + 1]));
    lemma_moments_go_forward(states, steps, i + 1, j);
    assert(steps[j].leads(states[j], states[j + 1]));
}

proof fn lemma_recorded_moments_are_past(states: Seq<AppView>, steps: Seq<DaemonStep>, n: int)
    requires
        is_run(states, steps),
        0 <= n < states.len(),
    ensures
        states[n].last_haptic matches Some(last) ==> last.nanos <= states[n].clock.nanos,
    decreases n,
{
    if n > 0 {
        lemma_recorded_moments_are_past(states, steps, n - 1);
        assert(steps[n - 1].leads(states[n - 1], states[n - 1 + 1]));
    }
}

proof fn lemma_moments_go_forward(states: Seq<AppView>, steps: Seq<DaemonStep>, i: int, j: int)
    requires
        is_run(states, steps),
        0 <= i <= j < states.len(),
        states[i].last_haptic is Some,
    ensures
        states[j].last_haptic matches Some(later) && later.nanos
            >= states[i].last_haptic->0.nanos,
    decreases j - i,
{
    if i < j {
        lemma_moments_go_forward(states, steps, i, j - 1);
        lemma_recorded_moments_are_past(states, steps, j - 1);
        assert(steps[j - 1].leads(states[j - 1], states[j - 1 + 1]));
    }
}

/// A stop is never throttled: what it does depends neither on the throttle nor on the clock.
pub proof fn stop_ignores_the_throttle(
    before: AppView,
    device_id: Seq<char>,
    effect_id: i16,
    now: Timestamp,
    issued_at: Instant,
    other_now: Timestamp,
    other_issued_at: Instant,
    after: AppView,
    reaction: Reaction,
)
    requires
        ff_step(before, device_id, FfEvent::Stop { effect_id }, now, issued_at, after, reaction),
    ensures
        ff_step(
            before,
            device_id,
            FfEvent::Stop { effect_id },
            other_now,
            other_issued_at,
            after,
            reaction,
        ),
{
}

/// `outcome` is right for a play of `effect` at `now`, where a sequence was recorded last at
/// `last_haptic`. It is dropped exactly where that was less than ten milliseconds ago. Otherwise an
/// effect of one of the four kinds that are translated is played, with all the points of its
/// translation, and another effect has no points.
pub open spec fn plays_effect(
    outcome: PlayOutcome,
    effect: FfEffect,
    last_haptic: Option<Timestamp>,
    now: Timestamp,
) -> bool {
    let too_soon = last_haptic matches Some(last) && now.nanos < last.nanos + 10_000_000;
    &&& outcome is Throttled <==> too_soon
    &&& outcome matches PlayOutcome::NoPoints { kind } ==> kind == effect.kind && kind != 0x50
        && kind != 0x51 && kind != 0x52 && kind != 0x57
    &&& outcome matches PlayOutcome::Scheduled { points } ==> points@.len() > 0 && (
    effect.kind == 0x50 || effect.kind == 0x51 || effect.kind == 0x52 || effect.kind == 0x57)
        && forall|translation: Vec<HapticPoint<Intensity>>| #[trigger]
        call_ensures(translate, (&effect,), translation) ==> points@ == translation@
}

proof fn lemma_outcome_plays_effect(
    outcome: PlayOutcome,
    effect: FfEffect,
    last_haptic: Option<Timestamp>,
    now: Timestamp,
)
    requires
        is_outcome(outcome, effect, admits(last_haptic, now)),
    ensures
        plays_effect(outcome, effect, last_haptic, now),
{
}

/// What becomes of a play, given the throttle's answer: where it says no the play is dropped,
/// whatever the effect. Where it says yes, an effect of one of the four kinds that are translated
/// is played with all the points of its translation, however many they are, and only an effect
/// whose translation is empty has no points.
pub proof fn play_schedules_the_whole_translation(
    throttle: &mut Throttle,
    effect: FfEffect,
    now: Timestamp,
    may_emit: bool,
    outcome: PlayOutcome,
    translation: Vec<HapticPoint<Intensity>>,
)
    requires
        call_ensures(process_play, (throttle, &effect, now, may_emit), outcome),
        call_ensures(translate, (&effect,), translation),
    ensures
        outcome is Throttled <==> !may_emit,
        outcome is NoPoints <==> may_emit && translation@.len() == 0,
        outcome is Scheduled <==> may_emit && translation@.len() > 0,
        outcome matches PlayOutcome::Scheduled { points } ==> points@ == translation@,
        outcome matches PlayOutcome::NoPoints { kind } ==> kind == effect.kind,
        may_emit && (effect.kind == 0x50 || effect.kind == 0x51 || effect.kind == 0x52
            || effect.kind == 0x57) ==> outcome is Scheduled,
{
}

/// A play that is scheduled is recorded at its moment; one that is dropped or has no points leaves
/// what was recorded as it is.
pub proof fn scheduled_play_is_recorded(
    throttle: &mut Throttle,
    effect: FfEffect,
    now: Timestamp,
    may_emit: bool,
    outcome: PlayOutcome,
)
    requires
        call_ensures(process_play, (throttle, &effect, now, may_emit), outcome),
    ensures
        outcome is Scheduled ==> final(throttle)@.last_haptic == Some(now),
        !(outcome is Scheduled) ==> final(throttle)@.last_haptic == old(throttle)@.last_haptic,
        final(throttle)@.clock == old(throttle)@.clock,
        final(throttle)@.origin == old(throttle)@.origin,
{
}

/// A daemon begins with nothing: no effect, no play that waits, no device that is read, nothing
/// recorded.
pub proof fn daemon_begins_with_nothing(
    app: App,
    n: usize,
    key: (u32, i16),
    device_id: Seq<char>,
)
    requires
        call_ensures(App::new, (), app),
        call_ensures(App::pending_count, (&app,), n),
    ensures
        n == 0,
        !app@.effects.contains_key(key),
        !app@.pending.contains_key(device_id),
        !app@.known.contains_key(device_id),
        app@.last_haptic is None,
        app@.clock.nanos == 0,
{
}

/// A play of a stored effect, on whatever device and under whatever id, is answered with that
/// effect: it is not held.
pub proof fn known_effect_is_played(
    app: &mut App,
    device_id: String,
    effect_id: i16,
    now: Timestamp,
    issued_at: Instant,
    reaction: Reaction,
    key: (u32, i16),
)
    requires
        call_ensures(
            App::ff_event_at,
            (app, device_id, FfEvent::Play { effect_id }, now, issued_at),
            reaction,
        ),
        old(app)@.effects.contains_key(key),
        old(app)@.effects[key].id == effect_id,
    ensures
        reaction matches Reaction::Played { device_id: played, outcome } && {
            &&& played@ == device_id@
            &&& exists|k: (u32, i16)| #[trigger]
                old(app)@.effects.contains_key(k) && old(app)@.effects[k].id == effect_id
                    && plays_effect(
                    outcome,
                    old(app)@.effects[k],
                    old(app)@.last_haptic,
                    now,
                )
            &&& final(app)@.last_haptic == (if outcome is Scheduled {
                Some(now)
            } else {
                old(app)@.last_haptic
            })
        },
{
    assert(knows_effect(old(app)@.effects, effect_id));
    if let Reaction::Played { outcome, .. } = reaction {
        let effect = choose|effect: FfEffect| #[trigger]
            stores_effect(old(app)@.effects, effect_id, effect) && is_outcome(
                outcome,
                effect,
                admits(old(app)@.last_haptic, now),
            );
        let k = choose|k: (u32, i16)| #[trigger]
            old(app)@.effects.contains_key(k) && old(app)@.effects[k] == effect;
        lemma_outcome_plays_effect(outcome, effect, old(app)@.last_haptic, now);
        assert(old(app)@.effects.contains_key(k));
    }
}

/// A play of an effect that is not stored is held: its device waits for the effect from then on, in
/// place of what it waited for, and nothing is recorded. The answer tells how many effects are
/// known.
pub proof fn unknown_effect_is_waited_for(
    app: &mut App,
    device_id: String,
    effect_id: i16,
    now: Timestamp,
    issued_at: Instant,
    reaction: Reaction,
)
    requires
        call_ensures(
            App::ff_event_at,
            (app, device_id, FfEvent::Play { effect_id }, now, issued_at),
            reaction,
        ),
        forall|key: (u32, i16)| #[trigger]
            old(app)@.effects.contains_key(key) ==> old(app)@.effects[key].id != effect_id,
    ensures
        reaction matches Reaction::Held { device_id: held, known_effects } && held@ == device_id@
            && known_effects == old(app)@.effects.dom().len(),
        final(app)@.pending.contains_key(device_id@),
        final(app)@.pending[device_id@].effect_id == effect_id,
        final(app)@.pending[device_id@].issued_at == issued_at,
        final(app)@.last_haptic == old(app)@.last_haptic,
{
}

/// A play concerns its own device alone: what other devices wait for, the effects that are stored,
/// the devices that are read and the clock stay as they are. A device whose play is not held waits
/// for nothing.
pub proof fn play_concerns_its_device_alone(
    app: &mut App,
    device_id: String,
    effect_id: i16,
    now: Timestamp,
    issued_at: Instant,
    reaction: Reaction,
    other: Seq<char>,
)
    requires
        call_ensures(
            App::ff_event_at,
            (app, device_id, FfEvent::Play { effect_id }, now, issued_at),
            reaction,
        ),
    ensures
        other != device_id@ ==> (final(app)@.pending.contains_key(other) <==> old(
            app)@.pending.contains_key(other)),
        other != device_id@ && old(app)@.pending.contains_key(other) ==> final(app)@.pending[other]
            == old(app)@.pending[other],
        !(reaction is Held) ==> !final(app)@.pending.contains_key(device_id@),
        !(reaction is Stopped),
        final(app)@.effects == old(app)@.effects,
        final(app)@.known == old(app)@.known,
        final(app)@.clock == old(app)@.clock,
        final(app)@.origin == old(app)@.origin,
{
}

/// A stop is always answered with a stop of its device, and with the play that the device waited
/// for, if it did. The device waits for nothing then, and the effect is forgotten, whichever
/// process uploaded it. Other effects, other devices and the throttle are left alone.
pub proof fn stop_forgets_the_play_and_the_effect(
    app: &mut App,
    device_id: String,
    effect_id: i16,
    now: Timestamp,
    issued_at: Instant,
    reaction: Reaction,
    other: Seq<char>,
    key: (u32, i16),
)
    requires
        call_ensures(
            App::ff_event_at,
            (app, device_id, FfEvent::Stop { effect_id }, now, issued_at),
            reaction,
        ),
    ensures
        reaction matches Reaction::Stopped { device_id: stopped, cleared } && {
            &&& stopped@ == device_id@
            &&& cleared is Some <==> old(app)@.pending.contains_key(device_id@)
            &&& cleared matches Some(play) ==> play == old(app)@.pending[device_id@]
        },
        final(app)@.pending.contains_key(other) <==> old(app)@.pending.contains_key(other) && other
            != device_id@,
        final(app)@.pending.contains_key(other) ==> final(app)@.pending[other] == old(
            app)@.pending[other],
        final(app)@.effects.contains_key(key) <==> old(app)@.effects.contains_key(key) && key.1
            != effect_id,
        final(app)@.effects.contains_key(key) ==> final(app)@.effects[key] == old(
            app)@.effects[key],
        final(app)@.known == old(app)@.known,
        final(app)@.last_haptic == old(app)@.last_haptic,
        final(app)@.clock == old(app)@.clock,
        final(app)@.origin == old(app)@.origin,
{
}

/// An event that is handled as it comes is answered for the moment that the daemon's clock then
/// shows, which is not before the last one that it showed: a stop stops its device, and a play is
/// dropped only where it comes within ten milliseconds of what was recorded.
pub proof fn event_is_answered_for_its_moment(
    app: &mut App,
    device_id: String,
    event: FfEvent,
    reaction: Reaction,
)
    requires
        call_ensures(App::handle_ff_event, (app, device_id, event), reaction),
    ensures
        final(app)@.clock.nanos >= old(app)@.clock.nanos,
        final(app)@.origin == old(app)@.origin,
        final(app)@.known == old(app)@.known,
        event is Stop <==> reaction is Stopped,
        match reaction {
            Reaction::Stopped { device_id: d, .. } => d@ == device_id@,
            Reaction::Played { device_id: d, .. } => d@ == device_id@,
            Reaction::Held { device_id: d, .. } => d@ == device_id@,
        },
        reaction matches Reaction::Played { outcome, .. } ==> {
            &&& outcome is Throttled <==> (old(app)@.last_haptic matches Some(last) && final(
                app)@.clock.nanos < last.nanos + 10_000_000)
            &&& final(app)@.last_haptic == (if outcome is Scheduled {
                Some(final(app)@.clock)
            } else {
                old(app)@.last_haptic
            })
            &&& exists|k: (u32, i16)| #[trigger]
                old(app)@.effects.contains_key(k) && old(app)@.effects[k].id
                    == event->Play_effect_id && plays_effect(
                    outcome,
                    old(app)@.effects[k],
                    old(app)@.last_haptic,
                    final(app)@.clock,
                )
        },
        reaction is Held ==> final(app)@.pending.contains_key(device_id@) && final(
            app)@.pending[device_id@].effect_id == event->Play_effect_id && forall|
            key: (u32, i16),
        | #[trigger]
            old(app)@.effects.contains_key(key) ==> old(app)@.effects[key].id
                != event->Play_effect_id,
{
    let (now, issued_at) = choose|now: Timestamp, issued_at: Instant|
        {
            &&& now.nanos >= old(app)@.clock.nanos
            &&& #[trigger] ff_step(
                read_at(old(app)@, now),
                device_id@,
                event,
                now,
                issued_at,
                final(app)@,
                reaction,
            )
        };
    if let FfEvent::Play { effect_id } = event {
        if let Reaction::Played { outcome, .. } = reaction {
            let effect = choose|effect: FfEffect| #[trigger]
                stores_effect(old(app)@.effects, effect_id, effect) && is_outcome(
                    outcome,
                    effect,
                    admits(old(app)@.last_haptic, now),
                );
            let k = choose|k: (u32, i16)| #[trigger]
                old(app)@.effects.contains_key(k) && old(app)@.effects[k] == effect;
            lemma_outcome_plays_effect(outcome, effect, old(app)@.last_haptic, now);
            assert(old(app)@.effects.contains_key(k));
        }
    }
}

/// An upload is answered with every play that waited for its id, each with its device and once, and
/// each of them is played with the effect that was uploaded, as a play at that moment would be.
pub proof fn upload_plays_what_waited_for_it(
    app: &mut App,
    uploaded: EffectUploaded,
    now: Timestamp,
    resolved: Vec<Resolved>,
    device_id: Seq<char>,
    i: int,
    j: int,
)
    requires
        call_ensures(App::effect_uploaded_at, (app, &uploaded, now), resolved),
    ensures
        old(app)@.pending.contains_key(device_id) && old(app)@.pending[device_id].effect_id
            == uploaded.effect_id ==> exists|k: int|
            0 <= k < resolved@.len() && (#[trigger] resolved@[k]).device_id@ == device_id,
        0 <= i < resolved@.len() ==> {
            &&& old(app)@.pending.contains_key(resolved@[i].device_id@)
            &&& resolved@[i].play == old(app)@.pending[resolved@[i].device_id@]
            &&& resolved@[i].play.effect_id == uploaded.effect_id
            &&& plays_effect(
                resolved@[i].outcome,
                uploaded.effect,
                old(app)@.last_haptic,
                now,
            )
        },
        0 <= i < j < resolved@.len() ==> resolved@[i].device_id@ != resolved@[j].device_id@,
{
    upload_resolves_exactly_the_waiting(
        old(app)@,
        uploaded,
        now,
        final(app)@,
        resolved@,
        device_id,
    );
    if old(app)@.pending.contains_key(device_id) && old(app)@.pending[device_id].effect_id
        == uploaded.effect_id {
        assert(waits_for(old(app)@.pending, device_id, uploaded.effect_id));
    }
    if 0 <= i < resolved@.len() {
        let plays = resolved_plays(resolved@);
        assert(waits_for(old(app)@.pending, plays[i].0@, uploaded.effect_id));
        assert(plays[i].1 == resolved@[i].play);
        lemma_outcome_plays_effect(
            resolved@[i].outcome,
            uploaded.effect,
            old(app)@.last_haptic,
            now,
        );
    }
}

/// After an upload its id belongs to the process that uploaded last, with its effect, and no play
/// waits for it. Other effects, plays that wait for others and the devices that are read stay. The
/// moment is recorded exactly where a play was scheduled.
pub proof fn upload_changes_its_id_alone(
    app: &mut App,
    uploaded: EffectUploaded,
    now: Timestamp,
    resolved: Vec<Resolved>,
    device_id: Seq<char>,
    key: (u32, i16),
    i: int,
)
    requires
        call_ensures(App::effect_uploaded_at, (app, &uploaded, now), resolved),
    ensures
        key.1 == uploaded.effect_id ==> (final(app)@.effects.contains_key(key) <==> key.0
            == uploaded.tgid),
        final(app)@.effects[(uploaded.tgid, uploaded.effect_id)] == uploaded.effect,
        key.1 != uploaded.effect_id ==> (final(app)@.effects.contains_key(key) <==> old(
            app)@.effects.contains_key(key)),
        key.1 != uploaded.effect_id && old(app)@.effects.contains_key(key) ==> final(
            app)@.effects[key] == old(app)@.effects[key],
        final(app)@.pending.contains_key(device_id) <==> old(app)@.pending.contains_key(device_id)
            && old(app)@.pending[device_id].effect_id != uploaded.effect_id,
        final(app)@.pending.contains_key(device_id) ==> final(app)@.pending[device_id] == old(
            app)@.pending[device_id],
        0 <= i < resolved@.len() && resolved@[i].outcome is Scheduled ==> final(app)@.last_haptic
            == Some(now),
        (forall|k: int|
            0 <= k < resolved@.len() ==> !((#[trigger] resolved@[k]).outcome is Scheduled))
            ==> final(app)@.last_haptic == old(app)@.last_haptic,
        final(app)@.known == old(app)@.known,
        final(app)@.clock == old(app)@.clock,
        final(app)@.origin == old(app)@.origin,
{
    if 0 <= i < resolved@.len() && resolved@[i].outcome is Scheduled {
        assert(some_start(resolved@));
    }
}

/// An upload that is handled as it comes is answered for the moment that the daemon's clock then
/// shows: every play that waited for it is resolved with the effect, and nothing else is.
pub proof fn upload_is_answered_for_its_moment(
    app: &mut App,
    uploaded: EffectUploaded,
    resolved: Vec<Resolved>,
    device_id: Seq<char>,
    key: (u32, i16),
    i: int,
)
    requires
        call_ensures(App::handle_effect_uploaded, (app, &uploaded), resolved),
    ensures
        final(app)@.clock.nanos >= old(app)@.clock.nanos,
        final(app)@.origin == old(app)@.origin,
        final(app)@.known == old(app)@.known,
        old(app)@.pending.contains_key(device_id) && old(app)@.pending[device_id].effect_id
            == uploaded.effect_id <==> exists|k: int|
            0 <= k < resolved@.len() && (#[trigger] resolved@[k]).device_id@ == device_id,
        0 <= i < resolved@.len() ==> plays_effect(
            resolved@[i].outcome,
            uploaded.effect,
            old(app)@.last_haptic,
            final(app)@.clock,
        ),
        final(app)@.effects.contains_key((uploaded.tgid, uploaded.effect_id)),
        final(app)@.effects[(uploaded.tgid, uploaded.effect_id)] == uploaded.effect,
        key.1 == uploaded.effect_id && key.0 != uploaded.tgid ==> !final(
            app)@.effects.contains_key(key),
        key.1 != uploaded.effect_id ==> (final(app)@.effects.contains_key(key) <==> old(
            app)@.effects.contains_key(key)),
        key.1 != uploaded.effect_id && old(app)@.effects.contains_key(key) ==> final(
            app)@.effects[key] == old(app)@.effects[key],
        final(app)@.pending.contains_key(device_id) <==> old(app)@.pending.contains_key(device_id)
            && old(app)@.pending[device_id].effect_id != uploaded.effect_id,
{
    let now = choose|now: Timestamp|
        {
            &&& now.nanos >= old(app)@.clock.nanos
            &&& #[trigger] upload_step(
                read_at(old(app)@, now),
                uploaded,
                now,
                final(app)@,
                resolved@,
            )
        };
    upload_resolves_exactly_the_waiting(
        read_at(old(app)@, now),
        uploaded,
        now,
        final(app)@,
        resolved@,
        device_id,
    );
    assert(waits_for(old(app)@.pending, device_id, uploaded.effect_id) <==> old(
        app)@.pending.contains_key(device_id) && old(app)@.pending[device_id].effect_id
        == uploaded.effect_id);
    if 0 <= i < resolved@.len() {
        lemma_outcome_plays_effect(
            resolved@[i].outcome,
            uploaded.effect,
            old(app)@.last_haptic,
            now,
        );
    }
}

/// What was uploaded last under an id is what a play of the id plays, whichever process uploaded it
/// and whatever was stored before, where the effect bears the id that it was uploaded under and the
/// stored effects are coherent.
pub proof fn play_after_upload_plays_the_upload(
    app: &mut App,
    uploaded: EffectUploaded,
    now: Timestamp,
    resolved: Vec<Resolved>,
    again: &mut App,
    device_id: String,
    later: Timestamp,
    issued_at: Instant,
    reaction: Reaction,
)
    requires
        coherent(old(app)@.effects),
        uploaded.effect.id == uploaded.effect_id,
        call_ensures(App::effect_uploaded_at, (app, &uploaded, now), resolved),
        old(again)@ == final(app)@,
        call_ensures(
            App::ff_event_at,
            (
                again,
                device_id,
                FfEvent::Play { effect_id: uploaded.effect_id },
                later,
                issued_at,
            ),
            reaction,
        ),
    ensures
        reaction matches Reaction::Played { device_id: played, outcome } && played@ == device_id@
            && plays_effect(outcome, uploaded.effect, final(app)@.last_haptic, later),
{
    lemma_upload_is_coherent(old(app)@, uploaded, final(app)@);
    if let Reaction::Played { outcome, .. } = reaction {
        lemma_outcome_plays_effect(outcome, uploaded.effect, final(app)@.last_haptic, later);
    }
}

/// An erasure forgets the effect, whichever process uploaded it, and every play that waits for it,
/// and is answered with those plays. Other effects, plays that wait for others, the devices and the
/// throttle are left alone.
pub proof fn erasure_forgets_its_id_alone(
    app: &mut App,
    tgid: u32,
    effect_id: i16,
    cleared: Vec<(String, PendingPlay)>,
    device_id: Seq<char>,
    key: (u32, i16),
    i: int,
)
    requires
        call_ensures(App::handle_effect_erased, (app, tgid, effect_id), cleared),
    ensures
        final(app)@.effects.contains_key(key) <==> old(app)@.effects.contains_key(key) && key.1
            != effect_id,
        final(app)@.effects.contains_key(key) ==> final(app)@.effects[key] == old(
            app)@.effects[key],
        final(app)@.pending.contains_key(device_id) <==> old(app)@.pending.contains_key(device_id)
            && old(app)@.pending[device_id].effect_id != effect_id,
        final(app)@.pending.contains_key(device_id) ==> final(app)@.pending[device_id] == old(
            app)@.pending[device_id],
        old(app)@.pending.contains_key(device_id) && old(app)@.pending[device_id].effect_id
            == effect_id ==> exists|k: int|
            0 <= k < cleared@.len() && (#[trigger] cleared@[k]).0@ == device_id,
        0 <= i < cleared@.len() ==> old(app)@.pending.contains_key(cleared@[i].0@) && old(
            app)@.pending[cleared@[i].0@] == cleared@[i].1 && cleared@[i].1.effect_id == effect_id,
        final(app)@.known == old(app)@.known,
        final(app)@.last_haptic == old(app)@.last_haptic,
        final(app)@.clock == old(app)@.clock,
        final(app)@.origin == old(app)@.origin,
{
    if old(app)@.pending.contains_key(device_id) && old(app)@.pending[device_id].effect_id
        == effect_id {
        assert(waits_for(old(app)@.pending, device_id, effect_id));
    }
    if 0 <= i < cleared@.len() {
        assert(waits_for(old(app)@.pending, cleared@[i].0@, effect_id));
    }
}

/// A device that is read anew is read by its own id, name and path, and is known by that path from
/// then on. Nothing else changes.
pub proof fn spawned_reader_reads_its_device(
    app: &mut App,
    info: DeviceInfo,
    reader: Reader,
    other: Seq<char>,
)
    requires
        call_ensures(App::spawn_reader, (app, &info), reader),
    ensures
        reader.device_id@ == info.device_id@,
        reader.name@ == info.name@,
        reader.path@ == info.path@,
        final(app)@.known.contains_key(info.device_id@),
        final(app)@.known[info.device_id@] == info.path@,
        other != info.device_id@ ==> (final(app)@.known.contains_key(other) <==> old(
            app)@.known.contains_key(other)),
        other != info.device_id@ && old(app)@.known.contains_key(other) ==> final(app)@.known[other]
            == old(app)@.known[other],
        final(app)@.effects == old(app)@.effects,
        final(app)@.pending == old(app)@.pending,
        final(app)@.last_haptic == old(app)@.last_haptic,
        final(app)@.clock == old(app)@.clock,
        final(app)@.origin == old(app)@.origin,
{
}

/// A rescan that could not list the devices does nothing. One that lists no device twice reads, in
/// the order of the list, those that were not read or were read at another path, each by its own
/// id, name and path. Listed devices are then known at their listed paths, and others as before.
pub proof fn rescan_reads_new_and_moved_devices(
    app: &mut App,
    current: Option<Vec<DeviceInfo>>,
    readers: Vec<Reader>,
    device_id: Seq<char>,
    i: int,
)
    requires
        call_ensures(App::rescan_devices, (app, &current), readers),
    ensures
        current is None ==> readers@.len() == 0 && final(app)@ == old(app)@,
        current matches Some(infos) ==> (distinct_ids(infos@) ==> {
            &&& reader_views(readers@) == infos@.filter(
                |info: DeviceInfo|
                    !(old(app)@.known.contains_key(info.device_id@) && old(
                        app)@.known[info.device_id@] == info.path@),
            ).map_values(
                |info: DeviceInfo|
                    ReaderView { device_id: info.device_id@, name: info.name@, path: info.path@ },
            )
            &&& 0 <= i < infos@.len() ==> final(app)@.known.contains_key(infos@[i].device_id@)
                && final(app)@.known[infos@[i].device_id@] == infos@[i].path@
            &&& (forall|k: int|
                0 <= k < infos@.len() ==> (#[trigger] infos@[k]).device_id@ != device_id) ==> {
                &&& final(app)@.known.contains_key(device_id) <==> old(app)@.known.contains_key(
                    device_id,
                )
                &&& old(app)@.known.contains_key(device_id) ==> final(app)@.known[device_id] == old(
                    app)@.known[device_id]
            }
        }),
        final(app)@.effects == old(app)@.effects,
        final(app)@.pending == old(app)@.pending,
        final(app)@.last_haptic == old(app)@.last_haptic,
        final(app)@.clock == old(app)@.clock,
        final(app)@.origin == old(app)@.origin,
{
    if let Some(infos) = current {
        if distinct_ids(infos@) {
            rescan_reads_what_is_new(old(app)@.known, infos@, device_id);
            assert((|info: DeviceInfo| is_new(old(app)@.known, info)) =~= (|info: DeviceInfo|
                !(old(app)@.known.contains_key(info.device_id@) && old(
                    app)@.known[info.device_id@] == info.path@)));
            assert((|info: DeviceInfo| reader_for(info)) =~= (|info: DeviceInfo|
                ReaderView { device_id: info.device_id@, name: info.name@, path: info.path@ }));
        }
    }
}

/// Performing a reaction records its moment exactly where the reaction schedules a sequence, and
/// changes nothing else.
pub proof fn performed_reaction_is_recorded(app: &mut App, reaction: Reaction, now: Timestamp)
    requires
        call_ensures(App::reaction_performed_at, (app, &reaction, now), ()),
    ensures
        final(app)@.last_haptic == (match reaction {
            Reaction::Played { outcome: PlayOutcome::Scheduled { .. }, .. } => Some(now),
            _ => old(app)@.last_haptic,
        }),
        final(app)@.effects == old(app)@.effects,
        final(app)@.pending == old(app)@.pending,
        final(app)@.known == old(app)@.known,
        final(app)@.clock == old(app)@.clock,
        final(app)@.origin == old(app)@.origin,
{
}

/// Performing what an upload resolved records its moment exactly where one of the plays is
/// scheduled, and changes nothing else.
pub proof fn performed_upload_is_recorded(
    app: &mut App,
    resolved: Vec<Resolved>,
    now: Timestamp,
    i: int,
)
    requires
        call_ensures(App::upload_performed_at, (app, &resolved, now), ()),
    ensures
        0 <= i < resolved@.len() && resolved@[i].outcome is Scheduled ==> final(app)@.last_haptic
            == Some(now),
        (forall|k: int|
            0 <= k < resolved@.len() ==> !((#[trigger] resolved@[k]).outcome is Scheduled))
            ==> final(app)@.last_haptic == old(app)@.last_haptic,
        final(app)@.effects == old(app)@.effects,
        final(app)@.pending == old(app)@.pending,
        final(app)@.known == old(app)@.known,
        final(app)@.clock == old(app)@.clock,
        final(app)@.origin == old(app)@.origin,
{
    if 0 <= i < resolved@.len() && resolved@[i].outcome is Scheduled {
        assert(some_start(resolved@));
    }
}

/// What is performed as it comes is recorded at the moment that the daemon's clock then shows.
pub proof fn performing_reads_the_clock(
    app: &mut App,
    reaction: Reaction,
    again: &mut App,
    resolved: Vec<Resolved>,
    i: int,
)
    requires
        call_ensures(App::reaction_performed, (app, &reaction), ()),
        call_ensures(App::upload_performed, (again, &resolved), ()),
    ensures
        final(app)@.clock.nanos >= old(app)@.clock.nanos,
        final(app)@.last_haptic == (match reaction {
            Reaction::Played { outcome: PlayOutcome::Scheduled { .. }, .. } => Some(
                final(app)@.clock,
            ),
            _ => old(app)@.last_haptic,
        }),
        final(app)@.effects == old(app)@.effects,
        final(app)@.pending == old(app)@.pending,
        final(app)@.known == old(app)@.known,
        final(app)@.origin == old(app)@.origin,
        final(again)@.clock.nanos >= old(again)@.clock.nanos,
        0 <= i < resolved@.len() && resolved@[i].outcome is Scheduled ==> final(again)@.last_haptic
            == Some(final(again)@.clock),
        (forall|k: int|
            0 <= k < resolved@.len() ==> !((#[trigger] resolved@[k]).outcome is Scheduled))
            ==> final(again)@.last_haptic == old(again)@.last_haptic,
        final(again)@.effects == old(again)@.effects,
        final(again)@.pending == old(again)@.pending,
        final(again)@.known == old(again)@.known,
        final(again)@.origin == old(again)@.origin,
{
    if 0 <= i < resolved@.len() && resolved@[i].outcome is Scheduled {
        assert(some_start(resolved@));
    }
}

/// A stop that is handled as it comes forgets what it should, and nothing else: the play that its
/// device waited for, which the answer tells, and the effect, whichever process uploaded it.
pub proof fn handled_stop_forgets_the_play_and_the_effect(
    app: &mut App,
    device_id: String,
    effect_id: i16,
    reaction: Reaction,
    other: Seq<char>,
    key: (u32, i16),
)
    requires
        call_ensures(
            App::handle_ff_event,
            (app, device_id, FfEvent::Stop { effect_id }),
            reaction,
        ),
    ensures
        reaction matches Reaction::Stopped { device_id: stopped, cleared } && {
            &&& stopped@ == device_id@
            &&& cleared is Some <==> old(app)@.pending.contains_key(device_id@)
            &&& cleared matches Some(play) ==> play == old(app)@.pending[device_id@]
        },
        final(app)@.pending.contains_key(other) <==> old(app)@.pending.contains_key(other) && other
            != device_id@,
        final(app)@.pending.contains_key(other) ==> final(app)@.pending[other] == old(
            app)@.pending[other],
        final(app)@.effects.contains_key(key) <==> old(app)@.effects.contains_key(key) && key.1
            != effect_id,
        final(app)@.effects.contains_key(key) ==> final(app)@.effects[key] == old(
            app)@.effects[key],
        final(app)@.last_haptic == old(app)@.last_haptic,
{
}

/// A play that is handled as it comes concerns its own device alone: it is played where a stored
/// effect bears its id and held otherwise, and what other devices wait for and the stored effects
/// stay as they are.
pub proof fn handled_play_concerns_its_device_alone(
    app: &mut App,
    device_id: String,
    effect_id: i16,
    reaction: Reaction,
    other: Seq<char>,
    key: (u32, i16),
)
    requires
        call_ensures(
            App::handle_ff_event,
            (app, device_id, FfEvent::Play { effect_id }),
            reaction,
        ),
    ensures
        old(app)@.effects.contains_key(key) && old(app)@.effects[key].id == effect_id
            ==> reaction is Played,
        other != device_id@ ==> (final(app)@.pending.contains_key(other) <==> old(
            app)@.pending.contains_key(other)),
        other != device_id@ && old(app)@.pending.contains_key(other) ==> final(app)@.pending[other]
            == old(app)@.pending[other],
        reaction is Played ==> !final(app)@.pending.contains_key(device_id@),
        reaction matches Reaction::Held { known_effects, .. } ==> known_effects == old(
            app)@.effects.dom().len() && final(app)@.last_haptic == old(app)@.last_haptic,
        final(app)@.effects == old(app)@.effects,
{
    if old(app)@.effects.contains_key(key) && old(app)@.effects[key].id == effect_id {
        assert(knows_effect(old(app)@.effects, effect_id));
    }
}

/// What an upload that is handled as it comes resolves are the plays that waited, as they waited,
/// each once; plays that wait for others go on to wait, and the moment is recorded exactly where
/// one is scheduled.
pub proof fn handled_upload_resolves_the_plays_that_waited(
    app: &mut App,
    uploaded: EffectUploaded,
    resolved: Vec<Resolved>,
    device_id: Seq<char>,
    i: int,
    j: int,
)
    requires
        call_ensures(App::handle_effect_uploaded, (app, &uploaded), resolved),
    ensures
        0 <= i < resolved@.len() ==> old(app)@.pending.contains_key(resolved@[i].device_id@)
            && resolved@[i].play == old(app)@.pending[resolved@[i].device_id@],
        0 <= i < j < resolved@.len() ==> resolved@[i].device_id@ != resolved@[j].device_id@,
        final(app)@.pending.contains_key(device_id) ==> final(app)@.pending[device_id] == old(
            app)@.pending[device_id],
        0 <= i < resolved@.len() && resolved@[i].outcome is Scheduled ==> final(app)@.last_haptic
            == Some(final(app)@.clock),
        (forall|k: int|
            0 <= k < resolved@.len() ==> !((#[trigger] resolved@[k]).outcome is Scheduled))
            ==> final(app)@.last_haptic == old(app)@.last_haptic,
{
    let now = choose|now: Timestamp|
        {
            &&& now.nanos >= old(app)@.clock.nanos
            &&& #[trigger] upload_step(
                read_at(old(app)@, now),
                uploaded,
                now,
                final(app)@,
                resolved@,
            )
        };
    upload_resolves_exactly_the_waiting(
        read_at(old(app)@, now),
        uploaded,
        now,
        final(app)@,
        resolved@,
        device_id,
    );
    if 0 <= i < resolved@.len() {
        let plays = resolved_plays(resolved@);
        assert(waits_for(old(app)@.pending, plays[i].0@, uploaded.effect_id));
        assert(plays[i].1 == resolved@[i].play);
        if resolved@[i].outcome is Scheduled {
            assert(some_start(resolved@));
        }
    }
}

} // verus!
