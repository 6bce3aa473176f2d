//! What the kernel-side probe tells the daemon through the ring buffer.

use crate::effect::FfEffect;
use crate::words::{
    double_word_at, double_word_bytes, read_double_word, read_word, to_signed, to_unsigned,
    unsigned_word, word_at, word_bytes,
};
use vstd::prelude::*;

verus! {

/// The `kind` of an event that tells of an uploaded effect.
pub const PROBE_EVENT_KIND_UPLOADED: u8 = 0;

/// The `kind` of an event that tells of an erased effect.
pub const PROBE_EVENT_KIND_ERASED: u8 = 1;

/// The bytes of an effect in an event.
pub const EFFECT_SIZE: usize = 28;

/// The bytes of an event that bears its kind.
pub const PROBE_EVENT_SIZE: usize = 40;

/// Where the effect stands in an event that bears its kind.
pub const PROBE_EVENT_EFFECT_AT: usize = 12;

/// The bytes of an event that does not bear its kind.
pub const UNTAGGED_EVENT_SIZE: usize = 36;

/// Where the effect stands in an event that does not bear its kind.
pub const UNTAGGED_EVENT_EFFECT_AT: usize = 8;

/// An event from the probe. `effect` has no meaning where `kind` says that the effect was erased.
#[derive(Debug, Clone, Copy)]
pub struct ProbeEvent {
    pub kind: u8,
    /// The process that uploaded or erased the effect.
    pub tgid: u32,
    /// The id that the kernel gave the effect.
    pub effect_id: i16,
    pub _pad: u16,
    pub effect: FfEffect,
}

/// An effect that a process has uploaded.
#[derive(Debug, Clone, Copy)]
pub struct EffectUploaded {
    pub tgid: u32,
    pub effect_id: i16,
    pub effect: FfEffect,
}

/// The meaning of an event from the probe.
#[derive(Debug, Clone, Copy)]
pub enum ProbeEventMsg {
    Uploaded(EffectUploaded),
    Erased { tgid: u32, effect_id: i16 },
}

/// `effect` stands in `bytes` at `at`: fourteen words in the order of its fields.
pub open spec fn effect_stands_at(bytes: Seq<u8>, at: int, effect: FfEffect) -> bool {
    &&& word_at(bytes, at) == effect.kind
    &&& word_at(bytes, at + 2) == unsigned_word(effect.id)
    &&& word_at(bytes, at + 4) == effect.direction
    &&& word_at(bytes, at + 6) == effect.trigger_button
    &&& word_at(bytes, at + 8) == effect.trigger_interval
    &&& word_at(bytes, at + 10) == effect.replay_length
    &&& word_at(bytes, at + 12) == effect.replay_delay
    &&& word_at(bytes, at + 14) == effect.u[0]
    &&& word_at(bytes, at + 16) == effect.u[1]
    &&& word_at(bytes, at + 18) == effect.u[2]
    &&& word_at(bytes, at + 20) == effect.u[3]
    &&& word_at(bytes, at + 22) == effect.u[4]
    &&& word_at(bytes, at + 24) == effect.u[5]
    &&& word_at(bytes, at + 26) == effect.u[6]
}

/// `event` stands at the start of `bytes`. Three bytes behind the kind have no meaning.
pub open spec fn event_stands_in(bytes: Seq<u8>, event: ProbeEvent) -> bool {
    &&& bytes[0] == event.kind
    &&& double_word_at(bytes, 4) == event.tgid
    &&& word_at(bytes, 8) == unsigned_word(event.effect_id)
    &&& word_at(bytes, 10) == event._pad
    &&& effect_stands_at(bytes, PROBE_EVENT_EFFECT_AT as int, event.effect)
}

/// `uploaded` stands at the start of `bytes`, in an event that does not bear its kind. Two bytes
/// behind the effect id have no meaning.
pub open spec fn upload_stands_in(bytes: Seq<u8>, uploaded: EffectUploaded) -> bool {
    &&& double_word_at(bytes, 0) == uploaded.tgid
    &&& word_at(bytes, 4) == unsigned_word(uploaded.effect_id)
    &&& effect_stands_at(bytes, UNTAGGED_EVENT_EFFECT_AT as int, uploaded.effect)
}

fn read_effect(bytes: &[u8], at: usize) -> (effect: FfEffect)
    requires
        at + EFFECT_SIZE <= bytes@.len(),
    ensures
        effect_stands_at(bytes@, at as int, effect),
{
    assert(bytes@.len() == bytes.len());
    FfEffect {
        kind: read_word(bytes, at),
        id: to_signed(read_word(bytes, at + 2)),
        direction: read_word(bytes, at + 4),
        trigger_button: read_word(bytes, at + 6),
        trigger_interval: read_word(bytes, at + 8),
        replay_length: read_word(bytes, at + 10),
        replay_delay: read_word(bytes, at + 12),
        u: [
            read_word(bytes, at + 14),
            read_word(bytes, at + 16),
            read_word(bytes, at + 18),
            read_word(bytes, at + 20),
            read_word(bytes, at + 22),
            read_word(bytes, at + 24),
            read_word(bytes, at + 26),
        ],
    }
}

/// Reads an event that bears its kind. Too few bytes are no event; what stands behind the event
/// is ignored.
pub fn decode_event(bytes: &[u8]) -> (event: Option<ProbeEvent>)
    ensures
        event is Some <==> bytes@.len() >= PROBE_EVENT_SIZE,
        event matches Some(e) ==> event_stands_in(bytes@, e),
{
    if bytes.len() < PROBE_EVENT_SIZE {
        return None;
    }
    Some(
        ProbeEvent {
            kind: bytes[0],
            tgid: read_double_word(bytes, 4),
            effect_id: to_signed(read_word(bytes, 8)),
            _pad: read_word(bytes, 10),
            effect: read_effect(bytes, PROBE_EVENT_EFFECT_AT),
        },
    )
}

/// Reads an upload from an event that does not bear its kind. Too few bytes are no event; what
/// stands behind the event is ignored.
pub fn decode_untagged_event(bytes: &[u8]) -> (uploaded: Option<EffectUploaded>)
    ensures
        uploaded is Some <==> bytes@.len() >= UNTAGGED_EVENT_SIZE,
        uploaded matches Some(e) ==> upload_stands_in(bytes@, e),
{
    if bytes.len() < UNTAGGED_EVENT_SIZE {
        return None;
    }
    Some(
        EffectUploaded {
            tgid: read_double_word(bytes, 0),
            effect_id: to_signed(read_word(bytes, 4)),
            effect: read_effect(bytes, UNTAGGED_EVENT_EFFECT_AT),
        },
    )
}

/// The meaning of an event: an erasure where its kind says so, otherwise an upload.
pub open spec fn meaning(event: ProbeEvent) -> ProbeEventMsg {
    if event.kind == PROBE_EVENT_KIND_ERASED {
        ProbeEventMsg::Erased { tgid: event.tgid, effect_id: event.effect_id }
    } else {
        ProbeEventMsg::Uploaded(
            EffectUploaded { tgid: event.tgid, effect_id: event.effect_id, effect: event.effect },
        )
    }
}

/// The meaning of an event.
pub fn message_of(event: &ProbeEvent) -> (message: ProbeEventMsg)
    ensures
        message == meaning(*event),
{
    if event.kind == PROBE_EVENT_KIND_ERASED {
        ProbeEventMsg::Erased { tgid: event.tgid, effect_id: event.effect_id }
    } else {
        ProbeEventMsg::Uploaded(
            EffectUploaded { tgid: event.tgid, effect_id: event.effect_id, effect: event.effect },
        )
    }
}

/// Reads the meaning of one item of the ring buffer. Too few bytes have none.
pub fn read_message(bytes: &[u8]) -> (message: Option<ProbeEventMsg>)
    ensures
        message is Some <==> bytes@.len() >= PROBE_EVENT_SIZE,
        message matches Some(m) ==> exists|event: ProbeEvent| #[trigger]
            event_stands_in(bytes@, event) && m == meaning(event),
{
    match decode_event(bytes) {
        Some(event) => Some(message_of(&event)),
        None => None,
    }
}

/// The bytes of an effect.
pub open spec fn effect_bytes(effect: FfEffect) -> Seq<u8> {
    word_bytes(effect.kind) + word_bytes(unsigned_word(effect.id) as u16) + word_bytes(
        effect.direction,
    ) + word_bytes(effect.trigger_button) + word_bytes(effect.trigger_interval) + word_bytes(
        effect.replay_length,
    ) + word_bytes(effect.replay_delay) + word_bytes(effect.u[0]) + word_bytes(effect.u[1])
        + word_bytes(effect.u[2]) + word_bytes(effect.u[3]) + word_bytes(effect.u[4]) + word_bytes(
        effect.u[5],
    ) + word_bytes(effect.u[6])
}

/// The bytes of an event that bears its kind; those without a meaning are zero.
pub open spec fn event_bytes(event: ProbeEvent) -> Seq<u8> {
    seq![event.kind, 0u8, 0u8, 0u8] + double_word_bytes(event.tgid) + word_bytes(
        unsigned_word(event.effect_id) as u16,
    ) + word_bytes(event._pad) + effect_bytes(event.effect)
}

/// Writes an event that bears its kind.
pub fn encode_event(event: &ProbeEvent) -> (bytes: [u8; 40])
    ensures
        bytes@ == event_bytes(*event),
{
    let effect = &event.effect;
    let low: u16 = (event.tgid % 0x1_0000) as u16;
    let high: u16 = (event.tgid / 0x1_0000) as u16;
    let event_id: u16 = to_unsigned(event.effect_id);
    let effect_id: u16 = to_unsigned(effect.id);
    let u = effect.u;
    let bytes: [u8; 40] = [
        event.kind,
        0,
        0,
        0,
        (low % 0x100) as u8,
        (low / 0x100) as u8,
        (high % 0x100) as u8,
        (high / 0x100) as u8,
        (event_id % 0x100) as u8,
        (event_id / 0x100) as u8,
        (event._pad % 0x100) as u8,
        (event._pad / 0x100) as u8,
        (effect.kind % 0x100) as u8,
        (effect.kind / 0x100) as u8,
        (effect_id % 0x100) as u8,
        (effect_id / 0x100) as u8,
        (effect.direction % 0x100) as u8,
        (effect.direction / 0x100) as u8,
        (effect.trigger_button % 0x100) as u8,
        (effect.trigger_button / 0x100) as u8,
        (effect.trigger_interval % 0x100) as u8,
        (effect.trigger_interval / 0x100) as u8,
        (effect.replay_length % 0x100) as u8,
        (effect.replay_length / 0x100) as u8,
        (effect.replay_delay % 0x100) as u8,
        (effect.replay_delay / 0x100) as u8,
        (u[0] % 0x100) as u8,
        (u[0] / 0x100) as u8,
        (u[1] % 0x100) as u8,
        (u[1] / 0x100) as u8,
        (u[2] % 0x100) as u8,
        (u[2] / 0x100) as u8,
        (u[3] % 0x100) as u8,
        (u[3] / 0x100) as u8,
        (u[4] % 0x100) as u8,
        (u[4] / 0x100) as u8,
        (u[5] % 0x100) as u8,
        (u[5] / 0x100) as u8,
        (u[6] % 0x100) as u8,
        (u[6] / 0x100) as u8,
    ];
    assert(bytes@ =~= event_bytes(*event));
    bytes
}

/// The bytes of an upload in an event that does not bear its kind; those without a meaning are
/// zero.
pub open spec fn upload_bytes(uploaded: EffectUploaded) -> Seq<u8> {
    double_word_bytes(uploaded.tgid) + word_bytes(unsigned_word(uploaded.effect_id) as u16)
        + word_bytes(0) + effect_bytes(uploaded.effect)
}

/// Writes an upload in an event that does not bear its kind.
pub fn encode_untagged_event(uploaded: &EffectUploaded) -> (bytes: [u8; 36])
    ensures
        bytes@ == upload_bytes(*uploaded),
{
    let effect = &uploaded.effect;
    let low: u16 = (uploaded.tgid % 0x1_0000) as u16;
    let high: u16 = (uploaded.tgid / 0x1_0000) as u16;
    let event_id: u16 = to_unsigned(uploaded.effect_id);
    let effect_id: u16 = to_unsigned(effect.id);
    let u = effect.u;
    let bytes: [u8; 36] = [
        (low % 0x100) as u8,
        (low / 0x100) as u8,
        (high % 0x100) as u8,
        (high / 0x100) as u8,
        (event_id % 0x100) as u8,
        (event_id / 0x100) as u8,
        0,
        0,
        (effect.kind % 0x100) as u8,
        (effect.kind / 0x100) as u8,
        (effect_id % 0x100) as u8,
        (effect_id / 0x100) as u8,
        (effect.direction % 0x100) as u8,
        (effect.direction / 0x100) as u8,
        (effect.trigger_button % 0x100) as u8,
        (effect.trigger_button / 0x100) as u8,
        (effect.trigger_interval % 0x100) as u8,
        (effect.trigger_interval / 0x100) as u8,
        (effect.replay_length % 0x100) as u8,
        (effect.replay_length / 0x100) as u8,
        (effect.replay_delay % 0x100) as u8,
        (effect.replay_delay / 0x100) as u8,
        (u[0] % 0x100) as u8,
        (u[0] / 0x100) as u8,
        (u[1] % 0x100) as u8,
        (u[1] / 0x100) as u8,
        (u[2] % 0x100) as u8,
        (u[2] / 0x100) as u8,
        (u[3] % 0x100) as u8,
        (u[3] / 0x100) as u8,
        (u[4] % 0x100) as u8,
        (u[4] / 0x100) as u8,
        (u[5] % 0x100) as u8,
        (u[5] / 0x100) as u8,
        (u[6] % 0x100) as u8,
        (u[6] / 0x100) as u8,
    ];
    assert(bytes@ =~= upload_bytes(*uploaded));
    bytes
}

proof fn lemma_word_read_back(bytes: Seq<u8>, at: int, word: u16)
    requires
        0 <= at,
        at + 2 <= bytes.len(),
        bytes[at] == (word % 0x100) as u8,
        bytes[at + 1] == (word / 0x100) as u8,
    ensures
        word_at(bytes, at) == word,
{
}

/// The bytes of an event hold the event, and have an event's size: what the probe writes is what
/// the daemon reads.
pub proof fn written_event_is_read_back(event: ProbeEvent)
    ensures
        event_bytes(event).len() == PROBE_EVENT_SIZE,
        event_stands_in(event_bytes(event), event),
{
    let bytes = event_bytes(event);
    let e = event.effect;
    lemma_word_read_back(bytes, 4, (event.tgid % 0x1_0000) as u16);
    lemma_word_read_back(bytes, 6, (event.tgid / 0x1_0000) as u16);
    lemma_word_read_back(bytes, 8, unsigned_word(event.effect_id) as u16);
    lemma_word_read_back(bytes, 10, event._pad);
    lemma_word_read_back(bytes, 12, e.kind);
    lemma_word_read_back(bytes, 14, unsigned_word(e.id) as u16);
    lemma_word_read_back(bytes, 16, e.direction);
    lemma_word_read_back(bytes, 18, e.trigger_button);
    lemma_word_read_back(bytes, 20, e.trigger_interval);
    lemma_word_read_back(bytes, 22, e.replay_length);
    lemma_word_read_back(bytes, 24, e.replay_delay);
    lemma_word_read_back(bytes, 26, e.u[0]);
    lemma_word_read_back(bytes, 28, e.u[1]);
    lemma_word_read_back(bytes, 30, e.u[2]);
    lemma_word_read_back(bytes, 32, e.u[3]);
    lemma_word_read_back(bytes, 34, e.u[4]);
    lemma_word_read_back(bytes, 36, e.u[5]);
    lemma_word_read_back(bytes, 38, e.u[6]);
}

/// The bytes of an upload in an event that does not bear its kind hold the upload, and have such an
/// event's size.
pub proof fn written_upload_is_read_back(uploaded: EffectUploaded)
    ensures
        upload_bytes(uploaded).len() == UNTAGGED_EVENT_SIZE,
        upload_stands_in(upload_bytes(uploaded), uploaded),
{
    let bytes = upload_bytes(uploaded);
    let e = uploaded.effect;
    lemma_word_read_back(bytes, 0, (uploaded.tgid % 0x1_0000) as u16);
    lemma_word_read_back(bytes, 2, (uploaded.tgid / 0x1_0000) as u16);
    lemma_word_read_back(bytes, 4, unsigned_word(uploaded.effect_id) as u16);
    lemma_word_read_back(bytes, 8, e.kind);
    lemma_word_read_back(bytes, 10, unsigned_word(e.id) as u16);
    lemma_word_read_back(bytes, 12, e.direction);
    lemma_word_read_back(bytes, 14, e.trigger_button);
    lemma_word_read_back(bytes, 16, e.trigger_interval);
    lemma_word_read_back(bytes, 18, e.replay_length);
    lemma_word_read_back(bytes, 20, e.replay_delay);
    lemma_word_read_back(bytes, 22, e.u[0]);
    lemma_word_read_back(bytes, 24, e.u[1]);
    lemma_word_read_back(bytes, 26, e.u[2]);
    lemma_word_read_back(bytes, 28, e.u[3]);
    lemma_word_read_back(bytes, 30, e.u[4]);
    lemma_word_read_back(bytes, 32, e.u[5]);
    lemma_word_read_back(bytes, 34, e.u[6]);
}

/// The same bytes hold at most one event: two events that stand in them agree in every field.
pub proof fn bytes_hold_one_event(bytes: Seq<u8>, first: ProbeEvent, second: ProbeEvent)
    requires
        event_stands_in(bytes, first),
        event_stands_in(bytes, second),
    ensures
        first == second,
{
    assert(first.effect.u@ =~= second.effect.u@);
    assert(first.effect.u == second.effect.u);
}

/// The same bytes hold at most one upload.
pub proof fn bytes_hold_one_upload(bytes: Seq<u8>, first: EffectUploaded, second: EffectUploaded)
    requires
        upload_stands_in(bytes, first),
        upload_stands_in(bytes, second),
    ensures
        first == second,
{
    assert(first.effect.u@ =~= second.effect.u@);
    assert(first.effect.u == second.effect.u);
}

/// An event of forty bytes or more is read from fixed places: the kind from the first byte, the
/// process from the fifth on, the effect id from the ninth on, and the effect's words one after the
/// other from the thirteenth on. Fewer bytes are no event.
pub proof fn event_is_read_from_its_places(bytes: &[u8], event: Option<ProbeEvent>)
    requires
        call_ensures(decode_event, (bytes,), event),
    ensures
        event is Some <==> bytes@.len() >= 40,
        event matches Some(e) ==> {
            &&& e.kind == bytes@[0]
            &&& e.tgid == word_at(bytes@, 4) + 0x1_0000 * word_at(bytes@, 6)
            &&& e.effect_id == word_at(bytes@, 8) || e.effect_id == word_at(bytes@, 8) - 0x1_0000
            &&& e.effect.kind == word_at(bytes@, 12)
            &&& e.effect.id == word_at(bytes@, 14) || e.effect.id == word_at(bytes@, 14) - 0x1_0000
            &&& e.effect.direction == word_at(bytes@, 16)
            &&& e.effect.trigger_button == word_at(bytes@, 18)
            &&& e.effect.trigger_interval == word_at(bytes@, 20)
            &&& e.effect.replay_length == word_at(bytes@, 22)
            &&& e.effect.replay_delay == word_at(bytes@, 24)
            &&& forall|i: int|
                0 <= i < 7 ==> #[trigger] e.effect.u[i] == word_at(bytes@, 26 + 2 * i)
        },
{
}

/// An upload in an event that does not bear its kind is read from fixed places, too: the process
/// from the first byte on, the effect id from the fifth on, and the effect's words from the ninth
/// on. Fewer than 36 bytes are none.
pub proof fn upload_is_read_from_its_places(bytes: &[u8], uploaded: Option<EffectUploaded>)
    requires
        call_ensures(decode_untagged_event, (bytes,), uploaded),
    ensures
        uploaded is Some <==> bytes@.len() >= 36,
        uploaded matches Some(e) ==> {
            &&& e.tgid == word_at(bytes@, 0) + 0x1_0000 * word_at(bytes@, 2)
            &&& e.effect_id == word_at(bytes@, 4) || e.effect_id == word_at(bytes@, 4) - 0x1_0000
            &&& e.effect.kind == word_at(bytes@, 8)
            &&& e.effect.id == word_at(bytes@, 10) || e.effect.id == word_at(bytes@, 10) - 0x1_0000
            &&& e.effect.direction == word_at(bytes@, 12)
            &&& e.effect.trigger_button == word_at(bytes@, 14)
            &&& e.effect.trigger_interval == word_at(bytes@, 16)
            &&& e.effect.replay_length == word_at(bytes@, 18)
            &&& e.effect.replay_delay == word_at(bytes@, 20)
            &&& forall|i: int|
                0 <= i < 7 ==> #[trigger] e.effect.u[i] == word_at(bytes@, 22 + 2 * i)
        },
{
}

/// What is written of an event is read as that event, in every field, whatever stands behind it.
pub proof fn encoded_event_is_decoded(
    event: ProbeEvent,
    written: [u8; 40],
    bytes: &[u8],
    read: Option<ProbeEvent>,
)
    requires
        call_ensures(encode_event, (&event,), written),
        bytes@.len() >= 40,
        bytes@.subrange(0, 40) == written@,
        call_ensures(decode_event, (bytes,), read),
    ensures
        read == Some(event),
{
    written_event_is_read_back(event);
    if let Some(e) = read {
        assert forall|k: int| 0 <= k < 40 implies #[trigger] bytes@[k] == written@[k] by {
            assert(bytes@.subrange(0, 40)[k] == written@[k]);
        }
        assert(event_stands_in(written@, e));
        bytes_hold_one_event(written@, event, e);
    }
}

/// What is written of an upload is read as that upload, in every field, whatever stands behind it.
pub proof fn encoded_upload_is_decoded(
    uploaded: EffectUploaded,
    written: [u8; 36],
    bytes: &[u8],
    read: Option<EffectUploaded>,
)
    requires
        call_ensures(encode_untagged_event, (&uploaded,), written),
        bytes@.len() >= 36,
        bytes@.subrange(0, 36) == written@,
        call_ensures(decode_untagged_event, (bytes,), read),
    ensures
        read == Some(uploaded),
{
    written_upload_is_read_back(uploaded);
    if let Some(e) = read {
        assert forall|k: int| 0 <= k < 36 implies #[trigger] bytes@[k] == written@[k] by {
            assert(bytes@.subrange(0, 36)[k] == written@[k]);
        }
        assert(upload_stands_in(written@, e));
        bytes_hold_one_upload(written@, uploaded, e);
    }
}

/// An event tells of an erasure where its kind is one, and of an upload otherwise, with the
/// process, the id and the effect that it holds.
pub proof fn kind_one_is_an_erasure(event: ProbeEvent, message: ProbeEventMsg)
    requires
        call_ensures(message_of, (&event,), message),
    ensures
        match message {
            ProbeEventMsg::Erased { tgid, effect_id } => event.kind == 1 && tgid == event.tgid
                && effect_id == event.effect_id,
            ProbeEventMsg::Uploaded(uploaded) => event.kind != 1 && uploaded.tgid == event.tgid
                && uploaded.effect_id == event.effect_id && uploaded.effect == event.effect,
        },
{
}

/// An item of the ring buffer means what the event at its start tells.
pub proof fn item_means_what_its_event_tells(
    bytes: &[u8],
    event: Option<ProbeEvent>,
    message: Option<ProbeEventMsg>,
)
    requires
        call_ensures(decode_event, (bytes,), event),
        call_ensures(read_message, (bytes,), message),
    ensures
        message is Some <==> bytes@.len() >= 40,
        match (event, message) {
            (Some(e), Some(ProbeEventMsg::Erased { tgid, effect_id })) => e.kind == 1 && tgid
                == e.tgid && effect_id == e.effect_id,
            (Some(e), Some(ProbeEventMsg::Uploaded(uploaded))) => e.kind != 1 && uploaded.tgid
                == e.tgid && uploaded.effect_id == e.effect_id && uploaded.effect == e.effect,
            (None, None) => true,
            _ => false,
        },
{
    if let Some(m) = message {
        let read = choose|read: ProbeEvent| #[trigger]
            event_stands_in(bytes@, read) && m == meaning(read);
        bytes_hold_one_event(bytes@, read, event->0);
    }
}

} // verus!
