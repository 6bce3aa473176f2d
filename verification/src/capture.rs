//! What the kernel-side probe makes of the requests that it watches.
//!
//! An upload is seen twice. When the request is entered, the effect is read from the caller's
//! memory and kept for the thread; when the request returns, the kernel has written the effect's
//! id there. An erasure carries the id itself and is seen once.

use crate::effect::FfEffect;
use crate::ioctl::{
    eviocrmff_nr, eviocsff_nr, requests_are_packed, EVIOCRMFF_NR, EVIOCSFF_NR,
};
use crate::wire::{
    bytes_hold_one_event, event_bytes, event_stands_in, meaning, written_event_is_read_back,
    ProbeEvent, ProbeEventMsg, PROBE_EVENT_KIND_ERASED, PROBE_EVENT_KIND_UPLOADED,
};
use crate::words::{read_word, signed_word, to_signed, to_unsigned, unsigned_word, word_at};
use vstd::prelude::*;

verus! {

/// Where the kernel writes the effect's id, counted from the start of the struct.
pub const EFFECT_ID_OFFSET: u64 = 2;

/// What is kept of an upload from its entry to its return.
#[derive(Debug, Clone, Copy)]
pub struct EnterScratch {
    /// Where the caller's effect stands.
    pub ff_effect_ptr: u64,
    pub effect: FfEffect,
}

/// What a request is to the probe.
#[derive(Debug, Clone, Copy, PartialEq, Eq, Structural)]
pub enum Request {
    Upload,
    Erase,
    Other,
}

/// What a request is to the probe: the lower 32 bits of the command tell.
pub open spec fn request_of(command: u64) -> Request {
    let number = command % 0x1_0000_0000;
    if number == EVIOCRMFF_NR {
        Request::Erase
    } else if number == EVIOCSFF_NR {
        Request::Upload
    } else {
        Request::Other
    }
}

/// What a request is to the probe.
pub fn classify(command: u64) -> (request: Request)
    ensures
        request == request_of(command),
{
    let number: u32 = (command % 0x1_0000_0000) as u32;
    if number == eviocrmff_nr() {
        Request::Erase
    } else if number == eviocsff_nr() {
        Request::Upload
    } else {
        Request::Other
    }
}

/// `effect` is what the first bytes of a kernel `struct ff_effect` say, its id left at zero. The
/// words of the union stand two bytes further on than they would without its alignment.
pub open spec fn is_captured(raw: Seq<u8>, effect: FfEffect) -> bool {
    &&& effect.kind == word_at(raw, 0)
    &&& effect.id == 0
    &&& effect.direction == word_at(raw, 4)
    &&& effect.trigger_button == word_at(raw, 6)
    &&& effect.trigger_interval == word_at(raw, 8)
    &&& effect.replay_length == word_at(raw, 10)
    &&& effect.replay_delay == word_at(raw, 12)
    &&& forall|i: int| 0 <= i < 7 ==> #[trigger] effect.u[i] == word_at(raw, 16 + 2 * i)
}

/// Reads an effect from the first bytes of a kernel `struct ff_effect`.
pub fn capture_effect(raw: &[u8; 30]) -> (effect: FfEffect)
    ensures
        is_captured(raw@, effect),
{
    let bytes: &[u8] = raw;
    FfEffect {
        kind: read_word(bytes, 0),
        id: 0,
        direction: read_word(bytes, 4),
        trigger_button: read_word(bytes, 6),
        trigger_interval: read_word(bytes, 8),
        replay_length: read_word(bytes, 10),
        replay_delay: read_word(bytes, 12),
        u: [
            read_word(bytes, 16),
            read_word(bytes, 18),
            read_word(bytes, 20),
            read_word(bytes, 22),
            read_word(bytes, 24),
            read_word(bytes, 26),
            read_word(bytes, 28),
        ],
    }
}

/// The process of a thread, whose id is given as the kernel gives it: the process in the upper
/// half.
pub open spec fn process_of(tgid_pid: u64) -> u32 {
    (tgid_pid / 0x1_0000_0000) as u32
}

/// The key under which a process's effect is stored: the process in the upper half, the id in the
/// lowest sixteen bits.
pub open spec fn store_key(tgid: u32, effect_id: i16) -> int {
    tgid * 0x1_0000_0000 + unsigned_word(effect_id)
}

/// No two effects of a process, and no effects of two processes, have one key.
pub proof fn store_keys_are_distinct(tgid: u32, effect_id: i16, other_tgid: u32, other_id: i16)
    requires
        store_key(tgid, effect_id) == store_key(other_tgid, other_id),
    ensures
        tgid == other_tgid,
        effect_id == other_id,
{
}

/// The key under which a process's effect is stored.
pub fn effect_key(tgid: u32, effect_id: i16) -> (key: u64)
    ensures
        key == store_key(tgid, effect_id),
{
    (tgid as u64) * 0x1_0000_0000 + to_unsigned(effect_id) as u64
}

/// What the entry of a request comes to.
#[derive(Debug, Clone, Copy)]
pub enum Entered {
    /// The request is none of those that are watched.
    Ignored,
    /// The caller's effect could not be read.
    Unreadable,
    /// This is to be kept for the thread.
    Saved { scratch: EnterScratch },
    /// This is to be told.
    Erased { event: ProbeEvent },
}

/// `event` tells that a process has erased an effect.
pub open spec fn is_erasure(event: ProbeEvent, tgid: u32, effect_id: i16) -> bool {
    &&& event.kind == PROBE_EVENT_KIND_ERASED
    &&& event.tgid == tgid
    &&& event.effect_id == effect_id
    &&& event._pad == 0
    &&& event.effect.kind == 0
    &&& event.effect.id == 0
    &&& event.effect.direction == 0
    &&& event.effect.trigger_button == 0
    &&& event.effect.trigger_interval == 0
    &&& event.effect.replay_length == 0
    &&& event.effect.replay_delay == 0
    &&& forall|i: int| 0 <= i < 7 ==> #[trigger] event.effect.u[i] == 0
}

/// The effect id that the argument of an erasure carries, in its lowest sixteen bits.
pub open spec fn erased_id(arg: u64) -> int {
    signed_word((arg % 0x1_0000) as u16)
}

/// What the entry of a request comes to, for a thread, its command and its argument, and for what
/// was read where the argument points to, if that was to be read and could be.
pub fn try_enter(tgid_pid: u64, command: u64, arg: u64, raw: Option<[u8; 30]>) -> (entered: Entered)
    ensures
        match request_of(command) {
            Request::Other => entered is Ignored,
            Request::Erase => entered matches Entered::Erased { event } && is_erasure(
                event,
                process_of(tgid_pid),
                erased_id(arg) as i16,
            ),
            Request::Upload => match raw {
                None => entered is Unreadable,
                Some(bytes) => entered matches Entered::Saved { scratch } && scratch.ff_effect_ptr
                    == arg && is_captured(bytes@, scratch.effect),
            },
        },
{
    match classify(command) {
        Request::Other => Entered::Ignored,
        Request::Erase => {
            let effect: FfEffect = Default::default();
            Entered::Erased {
                event: ProbeEvent {
                    kind: PROBE_EVENT_KIND_ERASED,
                    tgid: (tgid_pid / 0x1_0000_0000) as u32,
                    effect_id: to_signed((arg % 0x1_0000) as u16),
                    _pad: 0,
                    effect,
                },
            }
        },
        Request::Upload => match raw {
            None => Entered::Unreadable,
            Some(bytes) => Entered::Saved {
                scratch: EnterScratch { ff_effect_ptr: arg, effect: capture_effect(&bytes) },
            },
        },
    }
}

/// Where the id of a kept effect is to be read.
pub fn effect_id_address(scratch: &EnterScratch) -> (address: u64)
    ensures
        address == (scratch.ff_effect_ptr + EFFECT_ID_OFFSET) % 0x1_0000_0000_0000_0000,
{
    scratch.ff_effect_ptr.wrapping_add(EFFECT_ID_OFFSET)
}

/// An effect that has its id.
#[derive(Debug, Clone, Copy)]
pub struct Captured {
    /// The key under which the effect is to be stored.
    pub key: u64,
    /// What is to be told.
    pub event: ProbeEvent,
}

/// What the return of a request comes to.
#[derive(Debug, Clone, Copy)]
pub enum Exited {
    /// Nothing was kept for the thread: it is not an upload that returns.
    Ignored,
    /// The id could not be read.
    Unreadable,
    /// The effect is complete.
    Captured { captured: Captured },
}

/// `captured` is the upload of `effect` by a process under `effect_id`.
pub open spec fn is_upload(
    captured: Captured,
    tgid: u32,
    effect_id: i16,
    effect: FfEffect,
) -> bool {
    &&& captured.key == store_key(tgid, effect_id)
    &&& captured.event == (ProbeEvent {
        kind: PROBE_EVENT_KIND_UPLOADED,
        tgid,
        effect_id,
        _pad: 0,
        effect: FfEffect { id: effect_id, ..effect },
    })
}

/// What the return of a request comes to, for a thread, for what was kept for it, and for the id
/// that was read at [`effect_id_address`], if something was kept and the id could be read.
pub fn try_exit(
    tgid_pid: u64,
    scratch: &Option<EnterScratch>,
    id_bytes: Option<[u8; 2]>,
) -> (exited: Exited)
    ensures
        match (*scratch, id_bytes) {
            (None, _) => exited is Ignored,
            (Some(_), None) => exited is Unreadable,
            (Some(kept), Some(bytes)) => exited matches Exited::Captured { captured } && is_upload(
                captured,
                process_of(tgid_pid),
                signed_word(word_at(bytes@, 0) as u16) as i16,
                kept.effect,
            ),
        },
{
    let kept = match scratch {
        Some(kept) => kept,
        None => {
            return Exited::Ignored;
        },
    };
    let bytes = match id_bytes {
        Some(bytes) => bytes,
        None => {
            return Exited::Unreadable;
        },
    };
    let effect_id: i16 = to_signed(read_word(&bytes, 0));
    let tgid: u32 = (tgid_pid / 0x1_0000_0000) as u32;
    let mut effect = kept.effect;
    effect.id = effect_id;
    let event = ProbeEvent { kind: PROBE_EVENT_KIND_UPLOADED, tgid, effect_id, _pad: 0, effect };
    Exited::Captured { captured: Captured { key: effect_key(tgid, effect_id), event } }
}

/// An upload comes through whole: whatever is read from the bytes that the probe writes for it is
/// an upload by the process that made it, under the id that the kernel gave, of the effect that
/// the process had in its memory.
pub proof fn upload_comes_through(
    raw: Seq<u8>,
    kept: FfEffect,
    captured: Captured,
    tgid: u32,
    effect_id: i16,
    read: ProbeEvent,
)
    requires
        is_captured(raw, kept),
        is_upload(captured, tgid, effect_id, kept),
        event_stands_in(event_bytes(captured.event), read),
    ensures
        meaning(read) matches ProbeEventMsg::Uploaded(uploaded) && {
            &&& uploaded.tgid == tgid
            &&& uploaded.effect_id == effect_id
            &&& uploaded.effect.id == effect_id
            &&& uploaded.effect.kind == word_at(raw, 0)
            &&& uploaded.effect.direction == word_at(raw, 4)
            &&& uploaded.effect.trigger_button == word_at(raw, 6)
            &&& uploaded.effect.trigger_interval == word_at(raw, 8)
            &&& uploaded.effect.replay_length == word_at(raw, 10)
            &&& uploaded.effect.replay_delay == word_at(raw, 12)
            &&& forall|i: int|
                0 <= i < 7 ==> #[trigger] uploaded.effect.u[i] == word_at(raw, 16 + 2 * i)
        },
{
    written_event_is_read_back(captured.event);
    bytes_hold_one_event(event_bytes(captured.event), captured.event, read);
}

/// An erasure comes through whole, too.
pub proof fn erasure_comes_through(event: ProbeEvent, tgid: u32, effect_id: i16, read: ProbeEvent)
    requires
        is_erasure(event, tgid, effect_id),
        event_stands_in(event_bytes(event), read),
    ensures
        meaning(read) == (ProbeEventMsg::Erased { tgid, effect_id }),
{
    written_event_is_read_back(event);
    bytes_hold_one_event(event_bytes(event), event, read);
}

/// A request is an upload or an erasure by the lower half of its command alone, whatever the upper
/// half holds.
pub proof fn lower_half_tells_the_request(command: u64, request: Request)
    requires
        call_ensures(classify, (command,), request),
    ensures
        request == Request::Upload <==> command % 0x1_0000_0000 == 0x4030_4580,
        request == Request::Erase <==> command % 0x1_0000_0000 == 0x4004_4581,
{
    requests_are_packed();
}

/// An effect is captured from the places that the kernel gives its fields: words that follow on
/// each other, but for the id, which is not there yet, and for a gap of two bytes before the union.
pub proof fn effect_is_captured_from_its_places(raw: [u8; 30], effect: FfEffect, i: int)
    requires
        call_ensures(capture_effect, (&raw,), effect),
    ensures
        effect.kind == raw@[0] + 0x100 * raw@[1],
        effect.id == 0,
        effect.direction == raw@[4] + 0x100 * raw@[5],
        effect.trigger_button == raw@[6] + 0x100 * raw@[7],
        effect.trigger_interval == raw@[8] + 0x100 * raw@[9],
        effect.replay_length == raw@[10] + 0x100 * raw@[11],
        effect.replay_delay == raw@[12] + 0x100 * raw@[13],
        0 <= i < 7 ==> effect.u[i] == raw@[16 + 2 * i] + 0x100 * raw@[17 + 2 * i],
{
    if 0 <= i < 7 {
        assert(effect.u[i] == word_at(raw@, 16 + 2 * i));
    }
}

/// A key holds the process in its upper half and the sixteen bits of the id in its lowest.
pub proof fn key_holds_process_and_id(tgid: u32, effect_id: i16, key: u64)
    requires
        call_ensures(effect_key, (tgid, effect_id), key),
    ensures
        key / 0x1_0000_0000 == tgid,
        key % 0x1_0000_0000 == effect_id || key % 0x1_0000_0000 == effect_id + 0x1_0000,
        key % 0x1_0000_0000 < 0x1_0000,
{
}

/// The id of an effect is read two bytes behind its start.
pub proof fn id_is_read_behind_the_kind(scratch: EnterScratch, address: u64)
    requires
        call_ensures(effect_id_address, (&scratch,), address),
    ensures
        scratch.ff_effect_ptr <= u64::MAX - 2 ==> address == scratch.ff_effect_ptr + 2,
        scratch.ff_effect_ptr > u64::MAX - 2 ==> address + 0x1_0000_0000_0000_0000
            == scratch.ff_effect_ptr + 2,
{
}

/// The entry of an upload is kept with its address and with what was read there, if it could be
/// read. The entry of an erasure is told at once, for the process in the upper half of the thread's
/// id and for the effect id in the lowest sixteen bits of the argument. Other requests are ignored.
pub proof fn entry_is_kept_or_told(
    tgid_pid: u64,
    command: u64,
    arg: u64,
    raw: Option<[u8; 30]>,
    entered: Entered,
)
    requires
        call_ensures(try_enter, (tgid_pid, command, arg, raw), entered),
    ensures
        ({
            let number = command % 0x1_0000_0000;
            match entered {
                Entered::Ignored => number != 0x4030_4580 && number != 0x4004_4581,
                Entered::Unreadable => number == 0x4030_4580 && raw is None,
                Entered::Saved { scratch } => number == 0x4030_4580 && raw is Some
                    && scratch.ff_effect_ptr == arg && forall|captured: FfEffect| #[trigger]
                    call_ensures(capture_effect, (&raw->0,), captured) ==> scratch.effect
                        == captured,
                Entered::Erased { event } => {
                    &&& number == 0x4004_4581
                    &&& event.kind == 1
                    &&& event.tgid == tgid_pid / 0x1_0000_0000
                    &&& event.effect_id == arg % 0x1_0000 || event.effect_id == arg % 0x1_0000
                        - 0x1_0000
                },
            }
        }),
{
    requests_are_packed();
    if let Entered::Saved { scratch } = entered {
        assert forall|captured: FfEffect| #[trigger]
            call_ensures(capture_effect, (&raw->0,), captured) implies scratch.effect
            == captured by {
            assert forall|i: int| 0 <= i < 7 implies scratch.effect.u[i] == captured.u[i] by {
                assert(captured.u[i] == word_at((raw->0)@, 16 + 2 * i));
            }
            assert(scratch.effect.u@ =~= captured.u@);
            assert(scratch.effect.u == captured.u);
        }
    }
}

/// The return of an upload is told with the effect that was kept for the thread, all but its id
/// unchanged, for the process in the upper half of the thread's id, under the id that was read,
/// which the effect then bears, too. Where nothing was kept, or no id could be read, nothing is
/// told.
pub proof fn return_is_told_with_the_kept_effect(
    tgid_pid: u64,
    scratch: Option<EnterScratch>,
    id_bytes: Option<[u8; 2]>,
    exited: Exited,
)
    requires
        call_ensures(try_exit, (tgid_pid, &scratch, id_bytes), exited),
    ensures
        match exited {
            Exited::Ignored => scratch is None,
            Exited::Unreadable => scratch is Some && id_bytes is None,
            Exited::Captured { captured } => {
                &&& scratch is Some
                &&& id_bytes is Some
                &&& captured.event.kind == 0
                &&& captured.event.tgid == tgid_pid / 0x1_0000_0000
                &&& ({
                    let word = (id_bytes->0)@[0] + 0x100 * (id_bytes->0)@[1];
                    captured.event.effect_id == word || captured.event.effect_id == word
                        - 0x1_0000
                })
                &&& captured.event.effect == (FfEffect {
                    id: captured.event.effect_id,
                    ..(scratch->0).effect
                })
                &&& captured.key / 0x1_0000_0000 == captured.event.tgid
                &&& captured.key % 0x1_0000_0000 == captured.event.effect_id || captured.key
                    % 0x1_0000_0000 == captured.event.effect_id + 0x1_0000
            },
        },
{
}

} // verus!
