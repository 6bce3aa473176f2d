//! Tables keyed by device id.

use crate::assoc::{
    as_map, has_key, key_at, lemma_entry, lemma_len, lemma_push, lemma_remove, unique_keys,
};
use vstd::prelude::*;

verus! {

/// A map from device ids to values, at most one value for each id.
pub struct DeviceTable<V> {
    entries: Vec<(String, V)>,
}

/// The pairs of a table, each id by its characters.
pub open spec fn keyed<V>(entries: Seq<(String, V)>) -> Seq<(Seq<char>, V)> {
    Seq::new(entries.len(), |i: int| (entries[i].0@, entries[i].1))
}

impl<V> View for DeviceTable<V> {
    type V = Map<Seq<char>, V>;

    closed spec fn view(&self) -> Map<Seq<char>, V> {
        as_map(keyed(self.entries@))
    }
}

impl<V> DeviceTable<V> {
    /// No id occurs twice.
    pub closed spec fn wf(&self) -> bool {
        unique_keys(keyed(self.entries@))
    }

    /// The table's pairs, in the order in which they are walked.
    pub closed spec fn walk(&self) -> Seq<(Seq<char>, V)> {
        keyed(self.entries@)
    }

    /// An empty table.
    pub fn new() -> (table: Self)
        ensures
            table.wf(),
            table@ == Map::<Seq<char>, V>::empty(),
    {
        let table = DeviceTable { entries: Vec::new() };
        assert(table@ =~= Map::<Seq<char>, V>::empty());
        table
    }

    /// How many ids have a value.
    pub fn len(&self) -> (n: usize)
        requires
            self.wf(),
        ensures
            self@.dom().finite(),
            n == self@.dom().len(),
            n == self.walk().len(),
    {
        proof {
            lemma_len(keyed(self.entries@));
        }
        self.entries.len()
    }

    /// Whether no id has a value.
    pub fn is_empty(&self) -> (empty: bool)
        requires
            self.wf(),
        ensures
            empty <==> self@ == Map::<Seq<char>, V>::empty(),
    {
        let empty = self.entries.len() == 0;
        proof {
            if empty {
                assert(self@ =~= Map::<Seq<char>, V>::empty());
            } else {
                lemma_entry(keyed(self.entries@), 0);
                assert(self@.contains_key(self.entries@[0].0@));
            }
        }
        empty
    }

    fn position(&self, device_id: &str) -> (at: Option<usize>)
        ensures
            at matches Some(i) ==> key_at(keyed(self.entries@), device_id@, i as int),
            at is None ==> !has_key(keyed(self.entries@), device_id@),
    {
        let wanted = device_id.to_owned();
        let mut i: usize = 0;
        while i < self.entries.len()
            invariant
                wanted@ == device_id@,
                i <= self.entries@.len(),
                forall|k: int| 0 <= k < i ==> !key_at(keyed(self.entries@), device_id@, k),
            decreases self.entries@.len() - i,
        {
            if self.entries[i].0 == wanted {
                return Some(i);
            }
            i = i + 1;
        }
        None
    }

    /// The value of `device_id`.
    pub fn get(&self, device_id: &str) -> (value: Option<&V>)
        requires
            self.wf(),
        ensures
            value is Some <==> self@.contains_key(device_id@),
            value matches Some(v) ==> *v == self@[device_id@],
    {
        match self.position(device_id) {
            Some(i) => {
                proof {
                    lemma_entry(keyed(self.entries@), i as int);
                }
                Some(&self.entries[i].1)
            },
            None => None,
        }
    }

    /// Whether `device_id` has a value.
    pub fn contains_key(&self, device_id: &str) -> (found: bool)
        requires
            self.wf(),
        ensures
            found == self@.contains_key(device_id@),
    {
        self.get(device_id).is_some()
    }

    /// Gives `device_id` the value `value` and returns the one that it had.
    pub fn insert(&mut self, device_id: String, value: V) -> (previous: Option<V>)
        requires
            old(self).wf(),
        ensures
            final(self).wf(),
            final(self)@ == old(self)@.insert(device_id@, value),
            previous is Some <==> old(self)@.contains_key(device_id@),
            previous matches Some(v) ==> v == old(self)@[device_id@],
    {
        let ghost key = device_id@;
        let previous = self.remove(device_id.as_str());
        let ghost before = self.entries@;
        self.entries.push((device_id, value));
        proof {
            lemma_push(keyed(before), key, value);
            assert(keyed(self.entries@) =~= keyed(before).push((key, value)));
            assert(old(self)@.remove(key).insert(key, value) =~= old(self)@.insert(key, value));
        }
        previous
    }

    /// Takes the value of `device_id` out of the table.
    pub fn remove(&mut self, device_id: &str) -> (value: Option<V>)
        requires
            old(self).wf(),
        ensures
            final(self).wf(),
            final(self)@ == old(self)@.remove(device_id@),
            !final(self)@.contains_key(device_id@),
            value is Some <==> old(self)@.contains_key(device_id@),
            value matches Some(v) ==> v == old(self)@[device_id@],
    {
        match self.position(device_id) {
            Some(i) => {
                let ghost before = self.entries@;
                let (_, value) = self.entries.remove(i);
                proof {
                    lemma_entry(keyed(before), i as int);
                    lemma_remove(keyed(before), i as int);
                    assert(keyed(self.entries@) =~= keyed(before).remove(i as int));
                }
                Some(value)
            },
            None => {
                assert(old(self)@ =~= old(self)@.remove(device_id@));
                None
            },
        }
    }

    /// The pair at `i` of the walk.
    pub fn entry(&self, i: usize) -> (pair: (&String, &V))
        requires
            self.wf(),
            i < self.walk().len(),
        ensures
            pair.0@ == self.walk()[i as int].0,
            *pair.1 == self.walk()[i as int].1,
            self@.contains_key(pair.0@),
            self@[pair.0@] == *pair.1,
    {
        proof {
            lemma_entry(keyed(self.entries@), i as int);
        }
        (&self.entries[i].0, &self.entries[i].1)
    }
}

/// The walk of a table comes to every id once, with its value.
pub proof fn walk_is_complete<V>(table: DeviceTable<V>)
    requires
        table.wf(),
    ensures
        unique_keys(table.walk()),
        as_map(table.walk()) == table@,
{
}

/// A value that is given to an id is what is found for it, and the one that it had before is handed
/// back. The values of other ids stay.
pub proof fn given_value_is_found<V>(
    table: &mut DeviceTable<V>,
    device_id: String,
    value: V,
    previous: Option<V>,
    other: &str,
    found: Option<&V>,
)
    requires
        call_ensures(DeviceTable::<V>::insert, (table, device_id, value), previous),
        call_ensures(DeviceTable::<V>::get, (&*final(table), other), found),
    ensures
        previous is Some <==> old(table)@.contains_key(device_id@),
        previous matches Some(v) ==> v == old(table)@[device_id@],
        other@ == device_id@ ==> (found matches Some(v) && *v == value),
        other@ != device_id@ ==> (found is Some <==> old(table)@.contains_key(other@)),
        other@ != device_id@ ==> (found matches Some(v) ==> *v == old(table)@[other@]),
{
}

/// A value that is taken out is handed over and found no more. The values of other ids stay.
pub proof fn taken_value_is_not_found<V>(
    table: &mut DeviceTable<V>,
    device_id: &str,
    value: Option<V>,
    other: &str,
    found: bool,
)
    requires
        call_ensures(DeviceTable::<V>::remove, (table, device_id), value),
        call_ensures(DeviceTable::<V>::contains_key, (&*final(table), other), found),
    ensures
        value is Some <==> old(table)@.contains_key(device_id@),
        value matches Some(v) ==> v == old(table)@[device_id@],
        found <==> old(table)@.contains_key(other@) && other@ != device_id@,
        found ==> final(table)@[other@] == old(table)@[other@],
{
}

/// A new table is empty, and a table with a value is not.
pub proof fn table_without_values_is_empty<V>(
    fresh: DeviceTable<V>,
    table: &DeviceTable<V>,
    n: usize,
    empty: bool,
    device_id: Seq<char>,
)
    requires
        call_ensures(DeviceTable::<V>::new, (), fresh),
        call_ensures(DeviceTable::<V>::len, (table,), n),
        call_ensures(DeviceTable::<V>::is_empty, (table,), empty),
    ensures
        !fresh@.contains_key(device_id),
        table@.contains_key(device_id) ==> !empty && n > 0,
        n == table@.dom().len(),
{
    if table@.contains_key(device_id) {
        let rest = table@.dom().remove(device_id);
        assert(table@.dom().contains(device_id));
        assert(rest.len() + 1 == table@.dom().len());
    }
}

/// Every place of the walk holds an id with the value that is found for it.
pub proof fn walked_value_is_found<V>(
    table: &DeviceTable<V>,
    i: usize,
    pair: (&String, &V),
    device_id: &str,
    found: Option<&V>,
)
    requires
        call_ensures(DeviceTable::<V>::entry, (table, i), pair),
        call_ensures(DeviceTable::<V>::get, (table, device_id), found),
        device_id@ == pair.0@,
    ensures
        found matches Some(v) && *v == *pair.1,
        table.walk()[i as int] == (pair.0@, *pair.1),
{
}

} // verus!
