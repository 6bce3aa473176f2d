//! Plays that wait for the upload of their effect.

use crate::assoc::{as_map, key_at, lemma_entry, unique_keys};
use crate::table::{walk_is_complete, DeviceTable};
use std::time::Instant;
use vstd::prelude::*;

verus! {

/// A play that came before its effect was known. It is held until the effect is uploaded, the
/// device is stopped or the effect is erased, whichever comes first. A device has at most one: a
/// later play that has to wait takes the place of the earlier one.
#[derive(Clone, Copy)]
pub struct PendingPlay {
    /// The effect that the play waits for.
    pub effect_id: i16,
    /// When the play came. It is only reported, and decides nothing.
    pub issued_at: Instant,
}

/// The entries of `pending` that wait for another effect than `effect_id`.
pub open spec fn not_waiting_for(
    pending: Map<Seq<char>, PendingPlay>,
    effect_id: i16,
) -> Map<Seq<char>, PendingPlay> {
    Map::new(
        |device_id: Seq<char>|
            pending.contains_key(device_id) && pending[device_id].effect_id != effect_id,
        |device_id: Seq<char>| pending[device_id],
    )
}

/// `device_id` waits for the effect `effect_id`.
pub open spec fn waits_for(
    pending: Map<Seq<char>, PendingPlay>,
    device_id: Seq<char>,
    effect_id: i16,
) -> bool {
    pending.contains_key(device_id) && pending[device_id].effect_id == effect_id
}

/// `taken` names each device that waits for `effect_id` once, with its play, and no other device.
pub open spec fn takes_all_waiting(
    pending: Map<Seq<char>, PendingPlay>,
    effect_id: i16,
    taken: Seq<(String, PendingPlay)>,
) -> bool {
    &&& forall|i: int|
        0 <= i < taken.len() ==> #[trigger] waits_for(pending, taken[i].0@, effect_id)
            && pending[taken[i].0@] == taken[i].1
    &&& forall|i: int, j: int|
        0 <= i < j < taken.len() ==> (#[trigger] taken[i]).0@ != (#[trigger] taken[j]).0@
    &&& forall|device_id: Seq<char>| #[trigger]
        waits_for(pending, device_id, effect_id) ==> exists|i: int|
            0 <= i < taken.len() && (#[trigger] taken[i]).0@ == device_id
}

/// Holds a play for `device_id`, in place of any that was held for it.
pub fn insert_pending(
    pending: &mut DeviceTable<PendingPlay>,
    device_id: String,
    effect_id: i16,
    issued_at: Instant,
)
    requires
        old(pending).wf(),
    ensures
        final(pending).wf(),
        final(pending)@ == old(pending)@.insert(
            device_id@,
            (PendingPlay { effect_id, issued_at }),
        ),
{
    pending.insert(device_id, PendingPlay { effect_id, issued_at });
}

/// Takes out the play that is held for `device_id`, if there is one.
pub fn take_pending_for_device(
    pending: &mut DeviceTable<PendingPlay>,
    device_id: &str,
) -> (taken: Option<PendingPlay>)
    requires
        old(pending).wf(),
    ensures
        final(pending).wf(),
        final(pending)@ == old(pending)@.remove(device_id@),
        taken == (if old(pending)@.contains_key(device_id@) {
            Some(old(pending)@[device_id@])
        } else {
            None
        }),
{
    pending.remove(device_id)
}

/// The devices that wait for `effect_id`.
fn devices_waiting_for(pending: &DeviceTable<PendingPlay>, effect_id: i16) -> (devices: Vec<String>)
    requires
        pending.wf(),
    ensures
        forall|i: int|
            0 <= i < devices@.len() ==> #[trigger] waits_for(pending@, devices@[i]@, effect_id),
        forall|i: int, j: int|
            0 <= i < j < devices@.len() ==> (#[trigger] devices@[i])@ != (#[trigger] devices@[j])@,
        forall|device_id: Seq<char>| #[trigger]
            waits_for(pending@, device_id, effect_id) ==> exists|i: int|
                0 <= i < devices@.len() && (#[trigger] devices@[i])@ == device_id,
{
    let mut devices: Vec<String> = Vec::new();
    let n = pending.len();
    let ghost walk = pending.walk();
    proof {
        walk_is_complete(*pending);
    }
    let mut k: usize = 0;
    // For each collected device, the place of the walk at which it stands.
    let ghost mut places: Seq<int> = Seq::empty();
    while k < n
        invariant
            pending.wf(),
            walk == pending.walk(),
            unique_keys(walk),
            as_map(walk) == pending@,
            n == walk.len(),
            k <= n,
            places.len() == devices@.len(),
            forall|i: int|
                0 <= i < devices@.len() ==> 0 <= #[trigger] places[i] < k && walk[places[i]].0
                    == devices@[i]@ && walk[places[i]].1.effect_id == effect_id,
            forall|i: int, j: int| 0 <= i < j < places.len() ==> places[i] < places[j],
            forall|p: int|
                0 <= p < k && (#[trigger] walk[p]).1.effect_id == effect_id ==> exists|i: int|
                    0 <= i < places.len() && #[trigger] places[i] == p,
        decreases n - k,
    {
        let ghost before = places;
        let (device_id, play) = pending.entry(k);
        if play.effect_id == effect_id {
            devices.push(device_id.clone());
            proof {
                places = places.push(k as int);
                assert forall|p: int|
                    0 <= p < k + 1 && (#[trigger] walk[p]).1.effect_id == effect_id implies exists|
                    i: int,
                |
                    0 <= i < places.len() && #[trigger] places[i] == p by {
                    if p == k {
                        assert(places[places.len() - 1] == p);
                    } else {
                        let i = choose|i: int| 0 <= i < before.len() && #[trigger] before[i] == p;
                        assert(places[i] == p);
                    }
                }
            }
        }
        k = k + 1;
    }
    proof {
        assert forall|i: int| 0 <= i < devices@.len() implies #[trigger] waits_for(
            pending@,
            devices@[i]@,
            effect_id,
        ) by {
            lemma_entry(walk, places[i]);
        }
        assert forall|i: int, j: int| 0 <= i < j < devices@.len() implies (#[trigger] devices@[i])@
            != (#[trigger] devices@[j])@ by {
            assert(places[i] < places[j]);
        }
        assert forall|device_id: Seq<char>| #[trigger]
            waits_for(pending@, device_id, effect_id) implies exists|i: int|
            0 <= i < devices@.len() && (#[trigger] devices@[i])@ == device_id by {
            let p = choose|p: int| key_at(walk, device_id, p);
            lemma_entry(walk, p);
            let i = choose|i: int| 0 <= i < places.len() && #[trigger] places[i] == p;
            assert(devices@[i]@ == device_id);
        }
    }
    devices
}

/// Takes out every play that waits for `effect_id`, each with its device. The order is that in
/// which the table is walked, of which nothing is promised.
pub fn take_all_pending_matching_effect(
    pending: &mut DeviceTable<PendingPlay>,
    effect_id: i16,
) -> (taken: Vec<(String, PendingPlay)>)
    requires
        old(pending).wf(),
    ensures
        final(pending).wf(),
        final(pending)@ == not_waiting_for(old(pending)@, effect_id),
        takes_all_waiting(old(pending)@, effect_id, taken@),
{
    let ghost start = pending@;
    let devices = devices_waiting_for(pending, effect_id);
    let mut taken: Vec<(String, PendingPlay)> = Vec::new();
    let mut k: usize = 0;
    while k < devices.len()
        invariant
            pending.wf(),
            k <= devices@.len(),
            forall|i: int|
                0 <= i < devices@.len() ==> #[trigger] waits_for(start, devices@[i]@, effect_id),
            forall|i: int, j: int|
                0 <= i < j < devices@.len() ==> (#[trigger] devices@[i])@ != (
                #[trigger] devices@[j])@,
            taken@.len() == k,
            forall|i: int|
                0 <= i < k ==> (#[trigger] taken@[i]).0@ == devices@[i]@ && taken@[i].1
                    == start[devices@[i]@],
            forall|d: Seq<char>| #[trigger]
                pending@.contains_key(d) ==> start.contains_key(d) && pending@[d] == start[d],
            forall|d: Seq<char>| #[trigger]
                start.contains_key(d) ==> (pending@.contains_key(d) <==> !(exists|i: int|
                    0 <= i < k && (#[trigger] devices@[i])@ == d)),
        decreases devices@.len() - k,
    {
        let ghost before = pending@;
        let device_id = devices[k].clone();
        assert(waits_for(start, devices@[k as int]@, effect_id));
        assert(before.contains_key(device_id@));
        if let Some(play) = pending.remove(device_id.as_str()) {
            taken.push((device_id, play));
        }
        proof {
            assert forall|d: Seq<char>| #[trigger]
                start.contains_key(d) implies (pending@.contains_key(d) <==> !(exists|i: int|
                0 <= i < k + 1 && (#[trigger] devices@[i])@ == d)) by {
                if d == devices@[k as int]@ {
                } else if pending@.contains_key(d) {
                } else {
                    assert(!before.contains_key(d));
                    let i = choose|i: int| 0 <= i < k && (#[trigger] devices@[i])@ == d;
                    assert(devices@[i]@ == d);
                }
            }
        }
        k = k + 1;
    }
    proof {
        assert forall|device_id: Seq<char>| #[trigger]
            waits_for(start, device_id, effect_id) implies exists|i: int|
            0 <= i < taken@.len() && (#[trigger] taken@[i]).0@ == device_id by {
            let i = choose|i: int|
                0 <= i < devices@.len() && (#[trigger] devices@[i])@ == device_id;
            assert(taken@[i].0@ == device_id);
        }
        assert forall|i: int| 0 <= i < taken@.len() implies #[trigger] waits_for(
            start,
            taken@[i].0@,
            effect_id,
        ) && start[taken@[i].0@] == taken@[i].1 by {
            assert(waits_for(start, devices@[i]@, effect_id));
        }
        assert forall|i: int, j: int| 0 <= i < j < taken@.len() implies (#[trigger] taken@[i]).0@
            != (#[trigger] taken@[j]).0@ by {
            assert(devices@[i]@ != devices@[j]@);
        }
        assert forall|d: Seq<char>| #[trigger] start.contains_key(d) implies (pending@.contains_key(
            d,
        ) <==> start[d].effect_id != effect_id) by {
            if start[d].effect_id == effect_id {
                assert(waits_for(start, d, effect_id));
                let i = choose|i: int| 0 <= i < devices@.len() && (#[trigger] devices@[i])@ == d;
                assert(devices@[i]@ == d);
            } else if exists|i: int| 0 <= i < devices@.len() && (#[trigger] devices@[i])@ == d {
                let i = choose|i: int| 0 <= i < devices@.len() && (#[trigger] devices@[i])@ == d;
                assert(waits_for(start, devices@[i]@, effect_id));
            }
        }
        assert(pending@ =~= not_waiting_for(start, effect_id));
    }
    taken
}

/// A play that is held is what its device waits for, in place of any other. What other devices wait
/// for stays.
pub proof fn held_play_is_what_its_device_waits_for(
    pending: &mut DeviceTable<PendingPlay>,
    device_id: String,
    effect_id: i16,
    issued_at: Instant,
    other: Seq<char>,
)
    requires
        call_ensures(insert_pending, (pending, device_id, effect_id, issued_at), ()),
    ensures
        final(pending)@.contains_key(device_id@),
        final(pending)@[device_id@].effect_id == effect_id,
        final(pending)@[device_id@].issued_at == issued_at,
        other != device_id@ ==> (final(pending)@.contains_key(other) <==> old(
            pending)@.contains_key(other)),
        other != device_id@ && old(pending)@.contains_key(other) ==> final(pending)@[other] == old(
            pending)@[other],
{
}

/// What a device waits for can be taken out once; what others wait for stays.
pub proof fn taken_play_is_gone(
    pending: &mut DeviceTable<PendingPlay>,
    device_id: &str,
    taken: Option<PendingPlay>,
    other: Seq<char>,
)
    requires
        call_ensures(take_pending_for_device, (pending, device_id), taken),
    ensures
        taken is Some <==> old(pending)@.contains_key(device_id@),
        taken matches Some(play) ==> play == old(pending)@[device_id@],
        final(pending)@.contains_key(other) <==> old(pending)@.contains_key(other) && other
            != device_id@,
        final(pending)@.contains_key(other) ==> final(pending)@[other] == old(pending)@[other],
{
}

/// Every play that waits for an effect is taken out with its device, each device once, whatever the
/// id. Plays that wait for another effect stay, and are not taken.
pub proof fn all_plays_of_an_effect_are_taken(
    pending: &mut DeviceTable<PendingPlay>,
    effect_id: i16,
    taken: Vec<(String, PendingPlay)>,
    device_id: Seq<char>,
    i: int,
    j: int,
)
    requires
        call_ensures(take_all_pending_matching_effect, (pending, effect_id), taken),
    ensures
        old(pending)@.contains_key(device_id) && old(pending)@[device_id].effect_id == effect_id
            ==> exists|k: int|
            0 <= k < taken@.len() && (#[trigger] taken@[k]).0@ == device_id && taken@[k].1 == old(
                pending)@[device_id],
        0 <= i < taken@.len() ==> old(pending)@.contains_key(taken@[i].0@) && old(
            pending)@[taken@[i].0@] == taken@[i].1 && taken@[i].1.effect_id == effect_id,
        0 <= i < j < taken@.len() ==> taken@[i].0@ != taken@[j].0@,
        final(pending)@.contains_key(device_id) <==> old(pending)@.contains_key(device_id) && old(
            pending)@[device_id].effect_id != effect_id,
        final(pending)@.contains_key(device_id) ==> final(pending)@[device_id] == old(
            pending)@[device_id],
{
    if old(pending)@.contains_key(device_id) && old(pending)@[device_id].effect_id == effect_id {
        assert(waits_for(old(pending)@, device_id, effect_id));
        let k = choose|k: int| 0 <= k < taken@.len() && (#[trigger] taken@[k]).0@ == device_id;
        assert(waits_for(old(pending)@, taken@[k].0@, effect_id));
    }
    if 0 <= i < taken@.len() {
        assert(waits_for(old(pending)@, taken@[i].0@, effect_id));
    }
}

} // verus!
