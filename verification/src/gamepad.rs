//! The virtual gamepad of the end-to-end tests: which effects it offers, and which ids it gives.

use crate::effect::{Waveform, FF_CONSTANT, FF_PERIODIC, FF_RAMP, FF_RUMBLE};
use crate::words::{signed_word, to_signed};
use vstd::prelude::*;

verus! {

/// A virtual gamepad, by the path of its device.
#[derive(Debug)]
pub struct FakeGamepad {
    pub device_node: String,
}

/// How many effects the gamepad holds.
pub const EFFECTS_MAX: i16 = 16;

/// The kinds and waveforms that the gamepad offers.
pub fn advertised_effects() -> (codes: Vec<u16>)
    ensures
        codes@ == seq![
            FF_RUMBLE,
            FF_PERIODIC,
            FF_CONSTANT,
            FF_RAMP,
            Waveform::Square.code(),
            Waveform::Triangle.code(),
            Waveform::Sine.code(),
            Waveform::SawUp.code(),
            Waveform::SawDown.code(),
        ],
{
    let codes = vec![
        FF_RUMBLE,
        FF_PERIODIC,
        FF_CONSTANT,
        FF_RAMP,
        Waveform::Square.as_u16(),
        Waveform::Triangle.as_u16(),
        Waveform::Sine.as_u16(),
        Waveform::SawUp.as_u16(),
        Waveform::SawDown.as_u16(),
    ];
    codes
}

/// The effect ids that the gamepad has to give.
pub struct IdPool {
    free: Vec<i16>,
}

/// Each id is greater than the ones before it.
pub open spec fn ascending(ids: Seq<i16>) -> bool {
    forall|i: int, j: int| 0 <= i < j < ids.len() ==> ids[i] < ids[j]
}

impl View for IdPool {
    type V = Set<i16>;

    closed spec fn view(&self) -> Set<i16> {
        self.free@.to_set()
    }
}

/// `id` is the lowest of `ids`.
pub open spec fn is_lowest(ids: Set<i16>, id: i16) -> bool {
    ids.contains(id) && forall|other: i16| #[trigger] ids.contains(other) ==> id <= other
}

/// The answer to an upload.
#[derive(Debug, Clone, Copy, PartialEq, Eq, Structural)]
pub struct UploadAnswer {
    /// The id that the effect gets, if there is one left.
    pub effect_id: Option<i16>,
    /// Zero where the effect gets an id, and minus one where not.
    pub retval: i32,
}

impl IdPool {
    /// The ids are kept in order, each once.
    pub closed spec fn wf(&self) -> bool {
        ascending(self.free@)
    }

    /// All ids are free.
    pub fn new() -> (pool: Self)
        ensures
            pool.wf(),
            forall|id: i16| pool@.contains(id) <==> 0 <= id < EFFECTS_MAX,
    {
        let mut free: Vec<i16> = Vec::new();
        let mut id: i16 = 0;
        while id < EFFECTS_MAX
            invariant
                0 <= id <= EFFECTS_MAX,
                free@.len() == id,
                forall|k: int| 0 <= k < id ==> #[trigger] free@[k] == k,
            decreases EFFECTS_MAX - id,
        {
            free.push(id);
            id = id + 1;
        }
        let pool = IdPool { free };
        proof {
            assert forall|id: i16| pool@.contains(id) <==> 0 <= id < EFFECTS_MAX by {
                if 0 <= id < EFFECTS_MAX {
                    assert(free@[id as int] == id);
                }
            }
        }
        pool
    }

    /// Answers an upload: the effect gets the lowest free id.
    pub fn upload(&mut self) -> (answer: UploadAnswer)
        requires
            old(self).wf(),
        ensures
            final(self).wf(),
            match answer.effect_id {
                Some(id) => is_lowest(old(self)@, id) && final(self)@ == old(self)@.remove(id)
                    && answer.retval == 0,
                None => old(self)@ == Set::<i16>::empty() && final(self)@ == old(self)@
                    && answer.retval == -1,
            },
    {
        if self.free.len() == 0 {
            assert(self@ =~= Set::<i16>::empty());
            return UploadAnswer { effect_id: None, retval: -1 };
        }
        let ghost before = self.free@;
        let id: i16 = self.free.remove(0);
        proof {
            assert(before[0] == id);
            assert forall|other: i16| old(self)@.contains(other) implies id <= other by {
                let k = choose|k: int| 0 <= k < before.len() && before[k] == other;
            }
            assert forall|other: i16| #[trigger] self@.contains(other) <==> old(self)@.remove(
                id,
            ).contains(other) by {
                if self@.contains(other) {
                    let k = choose|k: int| 0 <= k < self.free@.len() && self.free@[k] == other;
                    assert(before[k + 1] == other);
                }
                if old(self)@.contains(other) && other != id {
                    let k = choose|k: int| 0 <= k < before.len() && before[k] == other;
                    assert(self.free@[k - 1] == other);
                }
            }
            assert(self@ =~= old(self)@.remove(id));
        }
        UploadAnswer { effect_id: Some(id), retval: 0 }
    }

    /// Takes an erased effect's id back. The id is the lower half of the request's number.
    pub fn erase(&mut self, effect_id: u32)
        requires
            old(self).wf(),
        ensures
            final(self).wf(),
            final(self)@ == old(self)@.insert(
                signed_word((effect_id % 0x1_0000) as u16) as i16,
            ),
    {
        let id: i16 = to_signed((effect_id % 0x1_0000) as u16);
        let ghost before = self.free@;
        let mut at: usize = 0;
        while at < self.free.len() && self.free[at] < id
            invariant
                *self == *old(self),
                before == self.free@,
                at <= before.len(),
                forall|k: int| 0 <= k < at ==> before[k] < id,
            decreases before.len() - at,
        {
            at = at + 1;
        }
        if at < self.free.len() && self.free[at] == id {
            assert(before[at as int] == id);
            assert(self@ =~= old(self)@.insert(id));
            return;
        }
        self.free.insert(at, id);
        proof {
            let after = self.free@;
            assert(after =~= before.insert(at as int, id));
            assert forall|other: i16| #[trigger] self@.contains(other) <==> old(self)@.insert(
                id,
            ).contains(other) by {
                if self@.contains(other) && other != id {
                    let k = choose|k: int| 0 <= k < after.len() && after[k] == other;
                    assert(before[if k < at { k } else { k - 1 }] == other);
                }
                if old(self)@.contains(other) {
                    let k = choose|k: int| 0 <= k < before.len() && before[k] == other;
                    assert(after[if k < at { k } else { k + 1 }] == other);
                }
                assert(after[at as int] == id);
            }
            assert(self@ =~= old(self)@.insert(id));
        }
    }
}

/// An id that was given is not given again before it is taken back.
pub proof fn given_id_is_not_given_again(free: Set<i16>, given: i16, next: i16)
    requires
        is_lowest(free, given),
        is_lowest(free.remove(given), next),
    ensures
        next != given,
        given < next,
{
}

/// An id that is taken back is free again, and nothing else changes.
pub proof fn erased_id_is_free_again(free: Set<i16>, given: i16)
    requires
        free.contains(given),
    ensures
        free.remove(given).insert(given) == free,
{
    assert(free.remove(given).insert(given) =~= free);
}

/// The gamepad offers the four kinds that are translated, and the waveforms from square to falling
/// saw.
pub proof fn gamepad_offers_what_is_translated(codes: Vec<u16>)
    requires
        call_ensures(advertised_effects, (), codes),
    ensures
        codes@ == seq![
            0x50u16,
            0x51u16,
            0x52u16,
            0x57u16,
            0x58u16,
            0x59u16,
            0x5au16,
            0x5bu16,
            0x5cu16,
        ],
{
}

/// A gamepad has sixteen ids to give at first, from zero on.
pub proof fn sixteen_ids_are_free_at_first(pool: IdPool, id: i16)
    requires
        call_ensures(IdPool::new, (), pool),
    ensures
        pool@.contains(id) <==> 0 <= id <= 15,
{
}

/// An upload is given the lowest id that is free, which is free no more; the other ids stay as they
/// are. It is refused only where no id is free.
pub proof fn upload_takes_the_lowest_free_id(
    pool: &mut IdPool,
    answer: UploadAnswer,
    other: i16,
)
    requires
        call_ensures(IdPool::upload, (pool,), answer),
    ensures
        match answer.effect_id {
            Some(id) => {
                &&& answer.retval == 0
                &&& old(pool)@.contains(id)
                &&& old(pool)@.contains(other) ==> id <= other
                &&& final(pool)@.contains(other) <==> old(pool)@.contains(other) && other != id
            },
            None => {
                &&& answer.retval == -1
                &&& !old(pool)@.contains(other)
                &&& !final(pool)@.contains(other)
            },
        },
{
}

/// An erasure frees the id in the lower half of its number, whether it was free or not; the other
/// ids stay as they are.
pub proof fn erasure_frees_its_id(pool: &mut IdPool, effect_id: u32, id: i16)
    requires
        call_ensures(IdPool::erase, (pool, effect_id), ()),
    ensures
        final(pool)@.contains(id) <==> old(pool)@.contains(id) || id == effect_id % 0x1_0000 || id
            + 0x1_0000 == effect_id % 0x1_0000,
{
}

} // verus!
