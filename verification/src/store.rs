//! The effects that games have uploaded, by process and effect id.

use crate::assoc::{
    as_map, has_key, key_at, lemma_entry, lemma_len, lemma_push, lemma_remove, unique_keys,
};
use crate::effect::FfEffect;
use vstd::prelude::*;

verus! {

/// A map from process (`tgid`) and effect id to the effect, at most one effect for each pair.
pub struct EffectStore {
    entries: Vec<((u32, i16), FfEffect)>,
}

impl View for EffectStore {
    type V = Map<(u32, i16), FfEffect>;

    closed spec fn view(&self) -> Map<(u32, i16), FfEffect> {
        as_map(self.entries@)
    }
}

/// The entries of `store` under another effect id than `effect_id`.
pub open spec fn purged(
    store: Map<(u32, i16), FfEffect>,
    effect_id: i16,
) -> Map<(u32, i16), FfEffect> {
    store.remove_keys(Set::new(|key: (u32, i16)| key.1 == effect_id))
}

/// `effect` is stored, and bears the id `effect_id`.
pub open spec fn stores_effect(
    store: Map<(u32, i16), FfEffect>,
    effect_id: i16,
    effect: FfEffect,
) -> bool {
    effect.id == effect_id && store.contains_value(effect)
}

/// Some stored effect bears the id `effect_id`.
pub open spec fn knows_effect(store: Map<(u32, i16), FfEffect>, effect_id: i16) -> bool {
    exists|key: (u32, i16)| #[trigger] store.contains_key(key) && store[key].id == effect_id
}

impl EffectStore {
    /// No pair of process and effect id occurs twice.
    pub closed spec fn wf(&self) -> bool {
        unique_keys(self.entries@)
    }

    /// An empty store.
    pub fn new() -> (store: Self)
        ensures
            store.wf(),
            store@ == Map::<(u32, i16), FfEffect>::empty(),
    {
        let store = EffectStore { entries: Vec::new() };
        assert(store@ =~= Map::<(u32, i16), FfEffect>::empty());
        store
    }

    /// How many effects are stored.
    pub fn len(&self) -> (n: usize)
        requires
            self.wf(),
        ensures
            self@.dom().finite(),
            n == self@.dom().len(),
    {
        proof {
            lemma_len(self.entries@);
        }
        self.entries.len()
    }

    /// Whether an effect is stored under this process and effect id.
    pub fn contains_key(&self, tgid: u32, effect_id: i16) -> (found: bool)
        requires
            self.wf(),
        ensures
            found == self@.contains_key((tgid, effect_id)),
    {
        self.position(tgid, effect_id).is_some()
    }

    fn position(&self, tgid: u32, effect_id: i16) -> (at: Option<usize>)
        ensures
            at matches Some(i) ==> key_at(self.entries@, (tgid, effect_id), i as int),
            at is None ==> !has_key(self.entries@, (tgid, effect_id)),
    {
        let mut i: usize = 0;
        while i < self.entries.len()
            invariant
                i <= self.entries@.len(),
                forall|k: int| 0 <= k < i ==> !key_at(self.entries@, (tgid, effect_id), k),
            decreases self.entries@.len() - i,
        {
            if self.entries[i].0.0 == tgid && self.entries[i].0.1 == effect_id {
                return Some(i);
            }
            i = i + 1;
        }
        None
    }

    /// Stores `effect` under this process and effect id, in place of the one that stood there.
    pub fn insert(&mut self, tgid: u32, effect_id: i16, effect: FfEffect)
        requires
            old(self).wf(),
        ensures
            final(self).wf(),
            final(self)@ == old(self)@.insert((tgid, effect_id), effect),
    {
        let key = (tgid, effect_id);
        let ghost start = self.entries@;
        match self.position(tgid, effect_id) {
            Some(i) => {
                self.entries.remove(i);
                proof {
                    lemma_remove(start, i as int);
                    assert(self.entries@ =~= start.remove(i as int));
                }
            },
            None => {
                assert(as_map(start).remove(key) =~= as_map(start));
            },
        }
        let ghost before = self.entries@;
        self.entries.push((key, effect));
        proof {
            lemma_push(before, key, effect);
            assert(as_map(start).remove(key).insert(key, effect) =~= as_map(start).insert(
                key,
                effect,
            ));
        }
    }

    /// A stored effect that bears the id `effect_id`. It is found by the id that the effect
    /// itself carries. Where several bear the id, any of them may be returned.
    pub fn find(&self, effect_id: i16) -> (effect: Option<FfEffect>)
        requires
            self.wf(),
        ensures
            effect is Some <==> knows_effect(self@, effect_id),
            effect matches Some(e) ==> stores_effect(self@, effect_id, e),
    {
        let mut i: usize = 0;
        while i < self.entries.len()
            invariant
                self.wf(),
                i <= self.entries@.len(),
                forall|k: int| 0 <= k < i ==> self.entries@[k].1.id != effect_id,
            decreases self.entries@.len() - i,
        {
            if self.entries[i].1.id == effect_id {
                let effect = self.entries[i].1;
                proof {
                    lemma_entry(self.entries@, i as int);
                    assert(self@.contains_key(self.entries@[i as int].0));
                    assert(self@[self.entries@[i as int].0] == effect);
                }
                return Some(effect);
            }
            i = i + 1;
        }
        proof {
            if knows_effect(self@, effect_id) {
                let key = choose|key: (u32, i16)| #[trigger]
                    self@.contains_key(key) && self@[key].id == effect_id;
                let k = choose|k: int| key_at(self.entries@, key, k);
                lemma_entry(self.entries@, k);
            }
        }
        None
    }
}

/// Removes every entry for `effect_id`, whichever process owns it.
pub fn purge_effect_id(store: &mut EffectStore, effect_id: i16)
    requires
        old(store).wf(),
    ensures
        final(store).wf(),
        final(store)@ == purged(old(store)@, effect_id),
{
    let ghost start = store@;
    let mut i: usize = 0;
    while i < store.entries.len()
        invariant
            store.wf(),
            i <= store.entries@.len(),
            forall|k: int| 0 <= k < i ==> store.entries@[k].0.1 != effect_id,
            purged(store@, effect_id) == purged(start, effect_id),
        decreases store.entries@.len() - i,
    {
        if store.entries[i].0.1 == effect_id {
            let ghost before = store.entries@;
            store.entries.remove(i);
            proof {
                lemma_remove(before, i as int);
                assert(store.entries@ =~= before.remove(i as int));
                assert(purged(store@, effect_id) =~= purged(as_map(before), effect_id));
            }
        } else {
            i = i + 1;
        }
    }
    proof {
        assert forall|key: (u32, i16)| store@.contains_key(key) implies key.1 != effect_id by {
            let k = choose|k: int| key_at(store.entries@, key, k);
            assert(store.entries@[k].0.1 != effect_id);
        }
        assert(store@ =~= purged(store@, effect_id));
    }
}

/// Stores an uploaded effect. A numeric effect id means only what was uploaded last, since the
/// kernel hands ids out again across processes and no event tells of every effect that goes, so
/// the entry of any other process for this id goes first.
pub fn upsert_effect(store: &mut EffectStore, tgid: u32, effect_id: i16, effect: FfEffect)
    requires
        old(store).wf(),
    ensures
        final(store).wf(),
        final(store)@ == purged(old(store)@, effect_id).insert((tgid, effect_id), effect),
{
    purge_effect_id(store, effect_id);
    store.insert(tgid, effect_id, effect);
}

/// An upload leaves one entry for its id, that of the process that uploaded last, and leaves the
/// entries for other ids as they are.
pub proof fn upsert_leaves_the_latest(
    store: Map<(u32, i16), FfEffect>,
    tgid: u32,
    effect_id: i16,
    effect: FfEffect,
    key: (u32, i16),
)
    ensures
        ({
            let after = purged(store, effect_id).insert((tgid, effect_id), effect);
            &&& key.1 == effect_id ==> (after.contains_key(key) <==> key.0 == tgid)
            &&& after[(tgid, effect_id)] == effect
            &&& key.1 != effect_id ==> (after.contains_key(key) <==> store.contains_key(key))
            &&& key.1 != effect_id && store.contains_key(key) ==> after[key] == store[key]
        }),
{
}

/// A new store holds nothing.
pub proof fn new_store_is_empty(store: EffectStore, n: usize, key: (u32, i16))
    requires
        call_ensures(EffectStore::new, (), store),
        call_ensures(EffectStore::len, (&store,), n),
    ensures
        n == 0,
        !store@.contains_key(key),
{
}

/// An effect that is stored is found under its process and id, in place of what stood there. Every
/// other entry stays.
pub proof fn stored_effect_stands_under_its_key(
    store: &mut EffectStore,
    tgid: u32,
    effect_id: i16,
    effect: FfEffect,
    key: (u32, i16),
)
    requires
        call_ensures(EffectStore::insert, (store, tgid, effect_id, effect), ()),
    ensures
        final(store)@.contains_key((tgid, effect_id)),
        final(store)@[(tgid, effect_id)] == effect,
        key != (tgid, effect_id) ==> (final(store)@.contains_key(key) <==> old(
            store)@.contains_key(key)),
        key != (tgid, effect_id) && old(store)@.contains_key(key) ==> final(store)@[key] == old(
            store)@[key],
{
}

/// A store says of every process and id whether an effect stands there.
pub proof fn store_tells_its_keys(store: &EffectStore, tgid: u32, effect_id: i16, found: bool)
    requires
        call_ensures(EffectStore::contains_key, (store, tgid, effect_id), found),
    ensures
        found <==> store@.contains_key((tgid, effect_id)),
{
}

/// An effect is found by the id that it bears, whichever process uploaded it and whatever the id:
/// where a stored effect bears the id one is found, and what is found is stored and bears it.
pub proof fn effect_is_found_by_its_id(
    store: &EffectStore,
    effect_id: i16,
    found: Option<FfEffect>,
    key: (u32, i16),
)
    requires
        call_ensures(EffectStore::find, (store, effect_id), found),
    ensures
        store@.contains_key(key) && store@[key].id == effect_id ==> found is Some,
        found matches Some(effect) ==> effect.id == effect_id && exists|k: (u32, i16)| #[trigger]
            store@.contains_key(k) && store@[k] == effect,
{
}

/// A purge removes the entries of every process under the id, and no other entry.
pub proof fn purge_removes_the_id_alone(
    store: &mut EffectStore,
    effect_id: i16,
    key: (u32, i16),
)
    requires
        call_ensures(purge_effect_id, (store, effect_id), ()),
    ensures
        final(store)@.contains_key(key) <==> old(store)@.contains_key(key) && key.1 != effect_id,
        final(store)@.contains_key(key) ==> final(store)@[key] == old(store)@[key],
{
}

/// After an upload the id belongs to the process that uploaded last, with its effect; entries under
/// other ids stay.
pub proof fn upload_owns_its_id(
    store: &mut EffectStore,
    tgid: u32,
    effect_id: i16,
    effect: FfEffect,
    key: (u32, i16),
)
    requires
        call_ensures(upsert_effect, (store, tgid, effect_id, effect), ()),
    ensures
        key.1 == effect_id ==> (final(store)@.contains_key(key) <==> key.0 == tgid),
        final(store)@[(tgid, effect_id)] == effect,
        key.1 != effect_id ==> (final(store)@.contains_key(key) <==> old(store)@.contains_key(key)),
        key.1 != effect_id && old(store)@.contains_key(key) ==> final(store)@[key] == old(
            store)@[key],
{
}

} // verus!
