//! Which sequence plays on which device, and which actuators it is sent to.

use crate::assoc::{as_map, key_at, lemma_entry, unique_keys};
use crate::table::{walk_is_complete, DeviceTable};
use vstd::prelude::*;
use vstd::string::StringExecFns;

verus! {

/// Actuator indices by their sequence.
pub open spec fn target_view(targets: Option<Vec<u32>>) -> Option<Seq<u32>> {
    match targets {
        Some(indices) => Some(indices@),
        None => None,
    }
}

/// The indices of the actuators that each device is sent to. A device that has no entry, or an
/// entry without indices, is sent to all.
pub struct DeviceMap {
    entries: DeviceTable<Option<Vec<u32>>>,
}

impl View for DeviceMap {
    type V = Map<Seq<char>, Option<Seq<u32>>>;

    closed spec fn view(&self) -> Map<Seq<char>, Option<Seq<u32>>> {
        self.entries@.map_values(|targets: Option<Vec<u32>>| target_view(targets))
    }
}

impl DeviceMap {
    /// No device has two entries.
    pub closed spec fn wf(&self) -> bool {
        self.entries.wf()
    }

    /// A map without entries.
    pub fn new() -> (map: Self)
        ensures
            map.wf(),
            map@ == Map::<Seq<char>, Option<Seq<u32>>>::empty(),
    {
        let map = DeviceMap { entries: DeviceTable::new() };
        assert(map@ =~= Map::<Seq<char>, Option<Seq<u32>>>::empty());
        map
    }

    /// Whether there are no entries.
    pub fn is_empty(&self) -> (empty: bool)
        requires
            self.wf(),
        ensures
            empty <==> self@ == Map::<Seq<char>, Option<Seq<u32>>>::empty(),
    {
        let empty = self.entries.is_empty();
        proof {
            if empty {
                assert(self@ =~= Map::<Seq<char>, Option<Seq<u32>>>::empty());
            } else if self@ == Map::<Seq<char>, Option<Seq<u32>>>::empty() {
                assert(self.entries@.dom() =~= self@.dom());
                assert(self.entries@ =~= Map::<Seq<char>, Option<Vec<u32>>>::empty());
            }
        }
        empty
    }

    /// Gives `device_id` an entry, in place of any that it had.
    pub fn insert(&mut self, device_id: String, targets: Option<Vec<u32>>)
        requires
            old(self).wf(),
        ensures
            final(self).wf(),
            final(self)@ == old(self)@.insert(device_id@, target_view(targets)),
    {
        self.entries.insert(device_id, targets);
        assert(self@ =~= old(self)@.insert(device_id@, target_view(targets)));
    }

    /// The entry of `device_id`.
    pub fn get(&self, device_id: &str) -> (targets: Option<&Option<Vec<u32>>>)
        requires
            self.wf(),
        ensures
            targets is Some <==> self@.contains_key(device_id@),
            targets matches Some(t) ==> target_view(*t) == self@[device_id@],
    {
        self.entries.get(device_id)
    }
}

/// The actuators that `device_id` is sent to: those of its entry, or all (`None`).
pub open spec fn resolved_targets(
    device_map: Map<Seq<char>, Option<Seq<u32>>>,
    device_id: Seq<char>,
) -> Option<Seq<u32>> {
    if device_map.contains_key(device_id) {
        device_map[device_id]
    } else {
        None
    }
}

/// The actuators that `device_id` is sent to: those of its entry, or all (`None`).
pub fn resolve_targets(device_map: &DeviceMap, device_id: &str) -> (targets: Option<Vec<u32>>)
    requires
        device_map.wf(),
    ensures
        target_view(targets) == resolved_targets(device_map@, device_id@),
{
    match device_map.get(device_id) {
        Some(Some(indices)) => {
            let copy = indices.clone();
            assert(copy@ =~= indices@);
            Some(copy)
        },
        _ => None,
    }
}

/// An actuator is one of the targets.
pub open spec fn is_target(targets: Option<Seq<u32>>, index: u32) -> bool {
    targets matches Some(indices) ==> indices.contains(index)
}

/// Whether an actuator is one of the targets.
pub fn is_targeted(targets: &Option<Vec<u32>>, index: u32) -> (targeted: bool)
    ensures
        targeted == is_target(target_view(*targets), index),
{
    match targets {
        None => true,
        Some(indices) => {
            let mut i: usize = 0;
            while i < indices.len()
                invariant
                    target_view(*targets) == Some(indices@),
                    i <= indices@.len(),
                    forall|k: int| 0 <= k < i ==> indices@[k] != index,
                decreases indices@.len() - i,
            {
                if indices[i] == index {
                    assert(indices@[i as int] == index);
                    return true;
                }
                i = i + 1;
            }
            false
        },
    }
}

/// The connected actuators that a command is sent to, in their order.
pub fn select_targets(targets: &Option<Vec<u32>>, connected: &Vec<u32>) -> (selected: Vec<u32>)
    ensures
        selected@ == connected@.filter(|index: u32| is_target(target_view(*targets), index)),
{
    let ghost chosen = |index: u32| is_target(target_view(*targets), index);
    let mut selected: Vec<u32> = Vec::new();
    let mut i: usize = 0;
    assert(connected@.subrange(0, 0).filter(chosen) =~= seq![]) by {
        reveal(Seq::filter);
    }
    while i < connected.len()
        invariant
            chosen == (|index: u32| is_target(target_view(*targets), index)),
            i <= connected@.len(),
            selected@ == connected@.subrange(0, i as int).filter(chosen),
        decreases connected@.len() - i,
    {
        let index: u32 = connected[i];
        if is_targeted(targets, index) {
            selected.push(index);
        }
        proof {
            reveal(Seq::filter);
            let next = connected@.subrange(0, i + 1);
            assert(next.drop_last() =~= connected@.subrange(0, i as int));
            assert(next.last() == index);
        }
        i = i + 1;
    }
    assert(connected@.subrange(0, i as int) =~= connected@);
    selected
}

/// Which sequence plays on which device. Each sequence has a generation of its own, by which it
/// can tell, when it ends, whether it is still the one that its device plays.
pub struct Playback {
    device_map: DeviceMap,
    scale_bits: u32,
    tasks: DeviceTable<u64>,
    gen_counter: u64,
}

/// The state of playback: the targets of each device, the bits of the intensity scale, the
/// generation of the sequence that each device plays, and how many sequences were started.
pub struct PlaybackView {
    pub device_map: Map<Seq<char>, Option<Seq<u32>>>,
    pub scale_bits: u32,
    pub tasks: Map<Seq<char>, u64>,
    pub started: u64,
}

impl View for Playback {
    type V = PlaybackView;

    closed spec fn view(&self) -> PlaybackView {
        PlaybackView {
            device_map: self.device_map@,
            scale_bits: self.scale_bits,
            tasks: self.tasks@,
            started: self.gen_counter,
        }
    }
}

/// No device plays a generation that was not started, and no two devices play the same one.
pub open spec fn generations_are_sound(state: PlaybackView) -> bool {
    &&& forall|device_id: Seq<char>| #[trigger]
        state.tasks.contains_key(device_id) ==> 0 < state.tasks[device_id] <= state.started
    &&& forall|a: Seq<char>, b: Seq<char>|
        #[trigger] state.tasks.contains_key(a) && #[trigger] state.tasks.contains_key(b) && a != b
            ==> state.tasks[a] != state.tasks[b]
}

/// The generation that a device plays.
pub open spec fn playing(tasks: Map<Seq<char>, u64>, device_id: Seq<char>) -> Option<u64> {
    if tasks.contains_key(device_id) {
        Some(tasks[device_id])
    } else {
        None
    }
}

/// A sequence that was started.
#[derive(Debug, Clone, Copy, PartialEq, Eq, Structural)]
pub struct Started {
    /// Its generation.
    pub generation: u64,
    /// The generation that the device played until now. It is to be broken off.
    pub superseded: Option<u64>,
}

/// A device that was stopped.
#[derive(Debug)]
pub struct Stopped {
    /// The generation that the device played. It is to be broken off.
    pub aborted: Option<u64>,
    /// The actuators that are to be silenced.
    pub targets: Option<Vec<u32>>,
}

/// The state once a device started a new sequence.
pub open spec fn after_start(before: PlaybackView, device_id: Seq<char>) -> PlaybackView {
    let generation = (before.started + 1) as u64;
    PlaybackView {
        tasks: before.tasks.insert(device_id, generation),
        started: generation,
        ..before
    }
}

/// The state once the sequence `generation` of a device came to its end.
pub open spec fn after_finish(
    before: PlaybackView,
    device_id: Seq<char>,
    generation: u64,
) -> PlaybackView {
    if playing(before.tasks, device_id) == Some(generation) {
        PlaybackView { tasks: before.tasks.remove(device_id), ..before }
    } else {
        before
    }
}

/// `aborted` holds the generation of every device that plays, each once.
pub open spec fn are_all_generations(tasks: Map<Seq<char>, u64>, aborted: Seq<u64>) -> bool {
    &&& aborted.no_duplicates()
    &&& forall|generation: u64| #[trigger]
        aborted.contains(generation) <==> tasks.contains_value(generation)
}

impl Playback {
    /// The parts of the state are well formed, and the generations are sound.
    pub closed spec fn wf(&self) -> bool {
        self.device_map.wf() && self.tasks.wf() && generations_are_sound(self@)
    }

    /// Playback on which no device plays.
    pub fn new(scale_bits: u32, device_map: DeviceMap) -> (playback: Self)
        requires
            device_map.wf(),
        ensures
            playback.wf(),
            playback@ == (PlaybackView {
                device_map: device_map@,
                scale_bits,
                tasks: Map::empty(),
                started: 0,
            }),
    {
        Playback { device_map, scale_bits, tasks: DeviceTable::new(), gen_counter: 0 }
    }

    /// Sets the scale that every intensity is multiplied by, given by its bits.
    pub fn set_scale(&mut self, scale_bits: u32)
        requires
            old(self).wf(),
        ensures
            final(self).wf(),
            final(self)@ == (PlaybackView { scale_bits, ..old(self)@ }),
    {
        self.scale_bits = scale_bits;
    }

    /// The scale that every intensity is multiplied by, by its bits.
    pub fn scale(&self) -> (scale_bits: u32)
        ensures
            scale_bits == self@.scale_bits,
    {
        self.scale_bits
    }

    /// The actuators that `device_id` is sent to.
    pub fn targets_of(&self, device_id: &str) -> (targets: Option<Vec<u32>>)
        requires
            self.wf(),
        ensures
            target_view(targets) == resolved_targets(self@.device_map, device_id@),
    {
        resolve_targets(&self.device_map, device_id)
    }

    /// Whether another sequence can be counted.
    pub fn can_start(&self) -> (can: bool)
        ensures
            can == (self@.started < u64::MAX),
    {
        self.gen_counter < u64::MAX
    }

    /// Starts a new sequence on a device, in place of the one that it plays.
    pub fn schedule_sequence(&mut self, device_id: String) -> (started: Started)
        requires
            old(self).wf(),
            old(self)@.started < u64::MAX,
        ensures
            final(self).wf(),
            final(self)@ == after_start(old(self)@, device_id@),
            started.generation == old(self)@.started + 1,
            started.superseded == playing(old(self)@.tasks, device_id@),
    {
        let ghost id = device_id@;
        self.gen_counter = self.gen_counter + 1;
        let generation: u64 = self.gen_counter;
        let superseded = self.tasks.insert(device_id, generation);
        proof {
            assert forall|a: Seq<char>, b: Seq<char>|
                #[trigger] self@.tasks.contains_key(a) && #[trigger] self@.tasks.contains_key(b)
                    && a != b implies self@.tasks[a] != self@.tasks[b] by {
                if a != id {
                    assert(old(self)@.tasks.contains_key(a));
                }
                if b != id {
                    assert(old(self)@.tasks.contains_key(b));
                }
            }
            assert forall|d: Seq<char>| #[trigger] self@.tasks.contains_key(d) implies 0
                < self@.tasks[d] <= self@.started by {
                if d != id {
                    assert(old(self)@.tasks.contains_key(d));
                }
            }
        }
        Started { generation, superseded }
    }

    /// Notes that a sequence has come to its end. A sequence that was superseded leaves the one
    /// that took its place alone.
    pub fn finish_sequence(&mut self, device_id: &str, generation: u64)
        requires
            old(self).wf(),
        ensures
            final(self).wf(),
            final(self)@ == after_finish(old(self)@, device_id@, generation),
    {
        let current = match self.tasks.get(device_id) {
            Some(current) => *current == generation,
            None => false,
        };
        if current {
            self.tasks.remove(device_id);
            proof {
                assert forall|d: Seq<char>| #[trigger] self@.tasks.contains_key(d) implies old(
                    self,
                )@.tasks.contains_key(d) && self@.tasks[d] == old(self)@.tasks[d] by {}
            }
        }
    }

    /// Stops a device.
    pub fn stop(&mut self, device_id: &str) -> (stopped: Stopped)
        requires
            old(self).wf(),
        ensures
            final(self).wf(),
            final(self)@ == (PlaybackView {
                tasks: old(self)@.tasks.remove(device_id@),
                ..old(self)@
            }),
            stopped.aborted == playing(old(self)@.tasks, device_id@),
            target_view(stopped.targets) == resolved_targets(old(self)@.device_map, device_id@),
    {
        let aborted = self.tasks.remove(device_id);
        proof {
            assert forall|d: Seq<char>| #[trigger] self@.tasks.contains_key(d) implies old(
                self,
            )@.tasks.contains_key(d) && self@.tasks[d] == old(self)@.tasks[d] by {}
        }
        let targets = resolve_targets(&self.device_map, device_id);
        Stopped { aborted, targets }
    }

    /// Stops all devices, and returns the generations that they played, in no particular order.
    pub fn stop_all(&mut self) -> (aborted: Vec<u64>)
        requires
            old(self).wf(),
        ensures
            final(self).wf(),
            final(self)@ == (PlaybackView { tasks: Map::empty(), ..old(self)@ }),
            are_all_generations(old(self)@.tasks, aborted@),
    {
        let mut aborted: Vec<u64> = Vec::new();
        let n = self.tasks.len();
        let ghost walk = self.tasks.walk();
        let ghost tasks = self.tasks@;
        proof {
            walk_is_complete(self.tasks);
        }
        let mut i: usize = 0;
        while i < n
            invariant
                self.wf(),
                *self == *old(self),
                walk == self.tasks.walk(),
                tasks == self.tasks@,
                as_map(walk) == tasks,
                unique_keys(walk),
                n == walk.len(),
                i <= n,
                aborted@.len() == i,
                forall|k: int| 0 <= k < i ==> #[trigger] aborted@[k] == walk[k].1,
            decreases n - i,
        {
            let (_, generation) = self.tasks.entry(i);
            aborted.push(*generation);
            i = i + 1;
        }
        proof {
            assert forall|k: int, l: int| 0 <= k < l < walk.len() implies walk[k].1
                != walk[l].1 by {
                lemma_entry(walk, k);
                lemma_entry(walk, l);
                assert(walk[k].0 != walk[l].0);
                assert(self@.tasks.contains_key(walk[k].0) && self@.tasks.contains_key(walk[l].0));
            }
            assert forall|generation: u64| #[trigger]
                aborted@.contains(generation) <==> tasks.contains_value(generation) by {
                if aborted@.contains(generation) {
                    let k = choose|k: int| 0 <= k < aborted@.len() && aborted@[k] == generation;
                    lemma_entry(walk, k);
                    assert(tasks.contains_key(walk[k].0) && tasks[walk[k].0] == generation);
                }
                if tasks.contains_value(generation) {
                    let d = choose|d: Seq<char>| #[trigger]
                        tasks.contains_key(d) && tasks[d] == generation;
                    let k = choose|k: int| key_at(walk, d, k);
                    lemma_entry(walk, k);
                    assert(aborted@[k] == generation);
                }
            }
        }
        self.tasks = DeviceTable::new();
        aborted
    }
}

/// A sequence that was superseded cannot take its successor's place away, whenever it ends, and
/// whether it was superseded by the next sequence or by a later one: the device goes on to play
/// the newest.
pub proof fn superseded_sequence_leaves_successor(
    before: PlaybackView,
    device_id: Seq<char>,
    generation: u64,
)
    requires
        before.started < u64::MAX,
        generation <= before.started,
    ensures
        after_finish(after_start(before, device_id), device_id, generation) == after_start(
            before,
            device_id,
        ),
        playing(after_start(before, device_id).tasks, device_id) == Some(
            (before.started + 1) as u64,
        ),
{
}

/// A sequence that is not superseded leaves its device free when it ends.
pub proof fn finished_sequence_leaves_device_free(before: PlaybackView, device_id: Seq<char>)
    requires
        before.started < u64::MAX,
    ensures
        playing(
            after_finish(
                after_start(before, device_id),
                device_id,
                (before.started + 1) as u64,
            ).tasks,
            device_id,
        ) is None,
{
}

/// What one device starts or ends leaves what the others play as it is.
pub proof fn devices_play_independently(
    before: PlaybackView,
    device_id: Seq<char>,
    generation: u64,
    other: Seq<char>,
)
    requires
        other != device_id,
    ensures
        playing(after_start(before, device_id).tasks, other) == playing(before.tasks, other),
        playing(after_finish(before, device_id, generation).tasks, other) == playing(
            before.tasks,
            other,
        ),
{
}

/// A device without an entry and a device whose entry is empty are both sent to all actuators.
pub proof fn missing_and_null_broadcast(
    device_map: Map<Seq<char>, Option<Seq<u32>>>,
    device_id: Seq<char>,
    index: u32,
)
    ensures
        resolved_targets(device_map.remove(device_id), device_id) is None,
        resolved_targets(device_map.insert(device_id, None), device_id) is None,
        is_target(None, index),
{
}

/// A device with a list of actuators is sent to those and to no others, whatever the other devices
/// are sent to.
pub proof fn listed_targets_are_exact(
    device_map: Map<Seq<char>, Option<Seq<u32>>>,
    device_id: Seq<char>,
    indices: Seq<u32>,
    index: u32,
)
    ensures
        is_target(
            resolved_targets(device_map.insert(device_id, Some(indices)), device_id),
            index,
        ) <==> indices.contains(index),
{
}

/// An entry for one device leaves where the others are sent to as it is.
pub proof fn devices_are_routed_independently(
    device_map: Map<Seq<char>, Option<Seq<u32>>>,
    device_id: Seq<char>,
    targets: Option<Seq<u32>>,
    other: Seq<char>,
)
    requires
        other != device_id,
    ensures
        resolved_targets(device_map.insert(device_id, targets), other) == resolved_targets(
            device_map,
            other,
        ),
{
}

/// Playback that is well formed has sound generations.
pub proof fn wf_gives_sound_generations(playback: Playback)
    requires
        playback.wf(),
    ensures
        generations_are_sound(playback@),
{
}

/// A scale that was set stays in force until another is set: starting and ending sequences leave
/// it as it is.
pub proof fn scale_stays_until_it_is_set(
    before: PlaybackView,
    device_id: Seq<char>,
    generation: u64,
)
    ensures
        after_start(before, device_id).scale_bits == before.scale_bits,
        after_finish(before, device_id, generation).scale_bits == before.scale_bits,
{
}

/// A device is sent to the indices of its entry, in their order, and to all where it has no entry
/// or one without indices.
pub proof fn targets_are_those_of_the_entry(
    device_map: &DeviceMap,
    device_id: &str,
    targets: Option<Vec<u32>>,
)
    requires
        call_ensures(resolve_targets, (device_map, device_id), targets),
    ensures
        match targets {
            Some(indices) => device_map@.contains_key(device_id@) && device_map@[device_id@]
                == Some(indices@),
            None => device_map@.contains_key(device_id@) ==> device_map@[device_id@] is None,
        },
{
}

/// The targets that playback gives for a device are those of its entry in the map of playback.
pub proof fn playback_sends_by_its_map(
    playback: &Playback,
    device_id: &str,
    targets: Option<Vec<u32>>,
)
    requires
        call_ensures(Playback::targets_of, (playback, device_id), targets),
    ensures
        match targets {
            Some(indices) => playback@.device_map.contains_key(device_id@)
                && playback@.device_map[device_id@] == Some(indices@),
            None => playback@.device_map.contains_key(device_id@)
                ==> playback@.device_map[device_id@] is None,
        },
{
}

/// An actuator is targeted where all are, or where it is one of those that are listed.
pub proof fn targeted_means_listed(targets: &Option<Vec<u32>>, index: u32, targeted: bool)
    requires
        call_ensures(is_targeted, (targets, index), targeted),
    ensures
        match *targets {
            Some(indices) => targeted <==> exists|i: int|
                0 <= i < indices@.len() && #[trigger] indices@[i] == index,
            None => targeted,
        },
{
    if let Some(indices) = *targets {
        if indices@.contains(index) {
            let i = choose|i: int| 0 <= i < indices@.len() && indices@[i] == index;
            assert(indices@[i] == index);
        }
    }
}

/// A command is sent to every connected actuator where there is no list, and otherwise to the
/// connected ones that are listed, in the order in which they are connected.
pub proof fn connected_targets_are_selected(
    targets: &Option<Vec<u32>>,
    connected: Vec<u32>,
    selected: Vec<u32>,
)
    requires
        call_ensures(select_targets, (targets, &connected), selected),
    ensures
        match *targets {
            Some(indices) => selected@ == connected@.filter(
                |index: u32| indices@.contains(index),
            ),
            None => selected@ == connected@,
        },
{
    match *targets {
        Some(indices) => {
            assert((|index: u32| is_target(target_view(*targets), index)) =~= (|index: u32|
                indices@.contains(index)));
        },
        None => {
            lemma_filter_keeps_all(
                connected@,
                |index: u32| is_target(target_view(*targets), index),
            );
        },
    }
}

proof fn lemma_filter_keeps_all(all: Seq<u32>, kept: spec_fn(u32) -> bool)
    requires
        forall|index: u32| #[trigger] kept(index),
    ensures
        all.filter(kept) == all,
    decreases all.len(),
{
    reveal(Seq::filter);
    if all.len() > 0 {
        lemma_filter_keeps_all(all.drop_last(), kept);
        assert(kept(all.last()));
        assert(all.filter(kept) =~= all);
    } else {
        assert(all.filter(kept) =~= all);
    }
}

/// An entry that is given to a device is the one that is found for it, and the entries of other
/// devices stay as they are.
pub proof fn given_entry_is_found(
    device_map: &mut DeviceMap,
    device_id: String,
    targets: Option<Vec<u32>>,
    other: &str,
    found: Option<&Option<Vec<u32>>>,
)
    requires
        call_ensures(DeviceMap::insert, (device_map, device_id, targets), ()),
        call_ensures(DeviceMap::get, (&*final(device_map), other), found),
    ensures
        other@ == device_id@ ==> (found matches Some(t) && match (*t, targets) {
            (Some(a), Some(b)) => a@ == b@,
            (None, None) => true,
            _ => false,
        }),
        other@ != device_id@ ==> (found is Some <==> old(device_map)@.contains_key(other@)),
        other@ != device_id@ ==> (found matches Some(t) ==> match *t {
            Some(a) => old(device_map)@[other@] == Some(a@),
            None => old(device_map)@[other@] is None,
        }),
{
}

/// A new map has no entry for any device.
pub proof fn new_map_has_no_entries(device_map: DeviceMap, empty: bool, device_id: Seq<char>)
    requires
        call_ensures(DeviceMap::new, (), device_map),
        call_ensures(DeviceMap::is_empty, (&device_map,), empty),
    ensures
        empty,
        !device_map@.contains_key(device_id),
{
}

/// A map with an entry is not empty.
pub proof fn map_with_an_entry_is_not_empty(
    device_map: &DeviceMap,
    empty: bool,
    device_id: Seq<char>,
)
    requires
        call_ensures(DeviceMap::is_empty, (device_map,), empty),
        device_map@.contains_key(device_id),
    ensures
        !empty,
{
}

/// Playback begins with the scale and the map that it is given; nothing has been started and no
/// device plays.
pub proof fn playback_begins_idle(
    scale_bits: u32,
    device_map: DeviceMap,
    playback: Playback,
    device_id: Seq<char>,
)
    requires
        call_ensures(Playback::new, (scale_bits, device_map), playback),
    ensures
        playback@.scale_bits == scale_bits,
        playback@.device_map == device_map@,
        playback@.started == 0,
        !playback@.tasks.contains_key(device_id),
{
}

/// The scale that was set last is the one in force; setting it changes nothing else.
pub proof fn set_scale_is_in_force(playback: &mut Playback, scale_bits: u32, read: u32)
    requires
        call_ensures(Playback::set_scale, (playback, scale_bits), ()),
        call_ensures(Playback::scale, (&*final(playback),), read),
    ensures
        read == scale_bits,
        final(playback)@.scale_bits == scale_bits,
        final(playback)@.tasks == old(playback)@.tasks,
        final(playback)@.device_map == old(playback)@.device_map,
        final(playback)@.started == old(playback)@.started,
{
}

/// As long as the counter is not exhausted another sequence can be started.
pub proof fn sequences_can_be_started_until_the_counter_ends(playback: &Playback, can: bool)
    requires
        call_ensures(Playback::can_start, (playback,), can),
    ensures
        can <==> playback@.started != u64::MAX,
{
}

/// A sequence that is started has a generation that no sequence had before, and is what its device
/// plays from then on. The one that the device played is the one to be broken off. What other
/// devices play, the scale and the map stay.
pub proof fn started_sequence_takes_its_device(
    playback: &mut Playback,
    device_id: String,
    started: Started,
    other: Seq<char>,
)
    requires
        old(playback)@.started < u64::MAX,
        call_ensures(Playback::schedule_sequence, (playback, device_id), started),
    ensures
        started.generation == old(playback)@.started + 1,
        final(playback)@.started == started.generation,
        final(playback)@.tasks.contains_key(device_id@),
        final(playback)@.tasks[device_id@] == started.generation,
        started.superseded is Some <==> old(playback)@.tasks.contains_key(device_id@),
        started.superseded matches Some(generation) ==> generation == old(
            playback)@.tasks[device_id@],
        other != device_id@ ==> (final(playback)@.tasks.contains_key(other) <==> old(
            playback)@.tasks.contains_key(other)),
        other != device_id@ && old(playback)@.tasks.contains_key(other) ==> final(
            playback)@.tasks[other] == old(playback)@.tasks[other],
        final(playback)@.scale_bits == old(playback)@.scale_bits,
        final(playback)@.device_map == old(playback)@.device_map,
{
}

/// A sequence that ends frees its device exactly where the device still plays it. Nothing else
/// changes.
pub proof fn ended_sequence_frees_its_device(
    playback: &mut Playback,
    device_id: &str,
    generation: u64,
    other: Seq<char>,
)
    requires
        call_ensures(Playback::finish_sequence, (playback, device_id, generation), ()),
    ensures
        final(playback)@.tasks.contains_key(other) <==> (old(playback)@.tasks.contains_key(other)
            && !(other == device_id@ && old(playback)@.tasks[other] == generation)),
        final(playback)@.tasks.contains_key(other) ==> final(playback)@.tasks[other] == old(
            playback)@.tasks[other],
        final(playback)@.started == old(playback)@.started,
        final(playback)@.scale_bits == old(playback)@.scale_bits,
        final(playback)@.device_map == old(playback)@.device_map,
{
}

/// A device that is stopped plays nothing; what it played is to be broken off, and the actuators of
/// its entry are to be silenced. Other devices go on, and nothing else changes.
pub proof fn stopped_device_is_silenced(
    playback: &mut Playback,
    device_id: &str,
    stopped: Stopped,
    other: Seq<char>,
)
    requires
        call_ensures(Playback::stop, (playback, device_id), stopped),
    ensures
        !final(playback)@.tasks.contains_key(device_id@),
        stopped.aborted is Some <==> old(playback)@.tasks.contains_key(device_id@),
        stopped.aborted matches Some(generation) ==> generation == old(
            playback)@.tasks[device_id@],
        match stopped.targets {
            Some(indices) => old(playback)@.device_map.contains_key(device_id@) && old(
                playback)@.device_map[device_id@] == Some(indices@),
            None => old(playback)@.device_map.contains_key(device_id@) ==> old(
                playback)@.device_map[device_id@] is None,
        },
        other != device_id@ ==> (final(playback)@.tasks.contains_key(other) <==> old(
            playback)@.tasks.contains_key(other)),
        other != device_id@ && old(playback)@.tasks.contains_key(other) ==> final(
            playback)@.tasks[other] == old(playback)@.tasks[other],
        final(playback)@.started == old(playback)@.started,
        final(playback)@.scale_bits == old(playback)@.scale_bits,
        final(playback)@.device_map == old(playback)@.device_map,
{
}

/// When all devices are stopped none plays, and what each of them played is to be broken off, once,
/// and nothing else. The scale, the map and the counter stay.
pub proof fn all_devices_are_stopped(
    playback: &mut Playback,
    aborted: Vec<u64>,
    device_id: Seq<char>,
    i: int,
    j: int,
)
    requires
        call_ensures(Playback::stop_all, (playback,), aborted),
    ensures
        !final(playback)@.tasks.contains_key(device_id),
        old(playback)@.tasks.contains_key(device_id) ==> aborted@.contains(
            old(playback)@.tasks[device_id],
        ),
        0 <= i < aborted@.len() ==> exists|d: Seq<char>| #[trigger]
            old(playback)@.tasks.contains_key(d) && old(playback)@.tasks[d] == aborted@[i],
        0 <= i < j < aborted@.len() ==> aborted@[i] != aborted@[j],
        final(playback)@.started == old(playback)@.started,
        final(playback)@.scale_bits == old(playback)@.scale_bits,
        final(playback)@.device_map == old(playback)@.device_map,
{
    let tasks = old(playback)@.tasks;
    if tasks.contains_key(device_id) {
        assert(tasks.contains_value(tasks[device_id]));
    }
    if 0 <= i < aborted@.len() {
        assert(aborted@.contains(aborted@[i]));
        assert(tasks.contains_value(aborted@[i]));
    }
}

} // verus!
