//! The effects that the end-to-end tests upload.

use crate::effect::{Envelope, Waveform};
use vstd::prelude::*;

verus! {

/// What starts an effect by itself.
#[derive(Debug, Clone, Copy)]
pub struct FFTrigger {
    pub button: u16,
    pub interval: u16,
}

/// How long an effect is played, and after which delay, in milliseconds.
#[derive(Debug, Clone, Copy)]
pub struct FFReplay {
    pub length: u16,
    pub delay: u16,
}

/// The kinds of effect that the tests upload.
#[derive(Debug, Clone, Copy)]
pub enum FFEffectKind {
    Rumble { strong_magnitude: u16, weak_magnitude: u16 },
    Periodic {
        waveform: Waveform,
        period: u16,
        magnitude: i16,
        offset: i16,
        phase: u16,
        envelope: Envelope,
    },
    Constant { level: i16, envelope: Envelope },
}

/// An effect to be uploaded.
#[derive(Debug, Clone, Copy)]
pub struct FFEffectData {
    pub direction: u16,
    pub trigger: FFTrigger,
    pub replay: FFReplay,
    pub kind: FFEffectKind,
}

/// One gesture: an effect that is uploaded and played once, and when it is to be over.
#[derive(Debug, Clone, Copy)]
pub struct Scenario {
    pub name: &'static str,
    pub effect: FFEffectData,
    pub expected_end_ms: u16,
}

/// An effect of this kind that is played for `length_ms`, at once and without a trigger.
pub open spec fn plain_effect(length_ms: u16, kind: FFEffectKind) -> FFEffectData {
    FFEffectData {
        direction: 0,
        trigger: FFTrigger { button: 0, interval: 0 },
        replay: FFReplay { length: length_ms, delay: 0 },
        kind,
    }
}

/// A rumble of both motors at full strength.
pub open spec fn full_rumble() -> FFEffectKind {
    FFEffectKind::Rumble { strong_magnitude: 0xffff, weak_magnitude: 0xffff }
}

/// A sine of full strength that lasts four periods.
pub open spec fn full_sine() -> FFEffectKind {
    FFEffectKind::Periodic {
        waveform: Waveform::Sine,
        period: 100,
        magnitude: 0x7fff,
        offset: 0,
        phase: 0,
        envelope: Envelope { attack_length: 0, attack_level: 0, fade_length: 0, fade_level: 0 },
    }
}

/// A constant effect of full strength that swells and fades.
pub open spec fn swelling_constant() -> FFEffectKind {
    FFEffectKind::Constant {
        level: 0x7fff,
        envelope: Envelope {
            attack_length: 100,
            attack_level: 0,
            fade_length: 150,
            fade_level: 0,
        },
    }
}

fn effect_of(length_ms: u16, kind: FFEffectKind) -> (effect: FFEffectData)
    ensures
        effect == plain_effect(length_ms, kind),
{
    FFEffectData {
        direction: 0,
        trigger: FFTrigger { button: 0, interval: 0 },
        replay: FFReplay { length: length_ms, delay: 0 },
        kind,
    }
}

/// A rumble of both motors at full strength, played for `length_ms`.
pub fn rumble_effect(length_ms: u16) -> (effect: FFEffectData)
    ensures
        effect == plain_effect(length_ms, full_rumble()),
{
    effect_of(length_ms, FFEffectKind::Rumble { strong_magnitude: 0xffff, weak_magnitude: 0xffff })
}

/// The gestures that issue one play each and check one pair of times each. Each is expected to be
/// over when its replay is: an envelope fades within the replay, not after it.
pub fn smoke_scenarios() -> (scenarios: Vec<Scenario>)
    ensures
        scenarios@.len() == 3,
        scenarios@[0].name@ == "ff_rumble"@,
        scenarios@[0].effect == plain_effect(300, full_rumble()),
        scenarios@[1].name@ == "ff_periodic_sine"@,
        scenarios@[1].effect == plain_effect(400, full_sine()),
        scenarios@[2].name@ == "ff_constant_with_envelope"@,
        scenarios@[2].effect == plain_effect(500, swelling_constant()),
        forall|i: int|
            0 <= i < 3 ==> (#[trigger] scenarios@[i]).expected_end_ms
                == scenarios@[i].effect.replay.length,
{
    let sine = FFEffectKind::Periodic {
        waveform: Waveform::Sine,
        period: 100,
        magnitude: 0x7fff,
        offset: 0,
        phase: 0,
        envelope: Envelope { attack_length: 0, attack_level: 0, fade_length: 0, fade_level: 0 },
    };
    let constant = FFEffectKind::Constant {
        level: 0x7fff,
        envelope: Envelope {
            attack_length: 100,
            attack_level: 0,
            fade_length: 150,
            fade_level: 0,
        },
    };
    let mut scenarios: Vec<Scenario> = Vec::new();
    scenarios.push(
        Scenario { name: "ff_rumble", effect: rumble_effect(300), expected_end_ms: 300 },
    );
    scenarios.push(
        Scenario { name: "ff_periodic_sine", effect: effect_of(400, sine), expected_end_ms: 400 },
    );
    scenarios.push(
        Scenario {
            name: "ff_constant_with_envelope",
            effect: effect_of(500, constant),
            expected_end_ms: 500,
        },
    );
    scenarios
}

/// A rumble of the tests drives both motors fully, at once and for as long as was asked.
pub proof fn test_rumble_is_full(length_ms: u16, effect: FFEffectData)
    requires
        call_ensures(rumble_effect, (length_ms,), effect),
    ensures
        effect.replay.length == length_ms,
        effect.replay.delay == 0,
        effect.trigger.button == 0,
        effect.trigger.interval == 0,
        effect.direction == 0,
        effect.kind == (FFEffectKind::Rumble {
            strong_magnitude: 0xffff,
            weak_magnitude: 0xffff,
        }),
{
}

/// The gestures are a rumble, a sine and a constant effect, all at full strength, played at once
/// and without a trigger, each longer than the one before; each is expected to be over with its
/// replay, and an envelope fits into it.
pub proof fn gestures_end_with_their_replay(scenarios: Vec<Scenario>, i: int)
    requires
        call_ensures(smoke_scenarios, (), scenarios),
        0 <= i < 3,
    ensures
        scenarios@.len() == 3,
        scenarios@[i].expected_end_ms == scenarios@[i].effect.replay.length == 300 + 100 * i,
        scenarios@[i].effect.replay.delay == 0,
        scenarios@[i].effect.trigger.button == 0,
        scenarios@[i].effect.trigger.interval == 0,
        match scenarios@[i].effect.kind {
            FFEffectKind::Rumble { strong_magnitude, weak_magnitude } => i == 0
                && strong_magnitude == 0xffff && weak_magnitude == 0xffff,
            FFEffectKind::Periodic { waveform, period, magnitude, offset, phase, envelope } => i
                == 1 && waveform == Waveform::Sine && period == 100 && magnitude == 0x7fff && offset
                == 0 && phase == 0 && envelope.attack_length == 0 && envelope.fade_length == 0,
            FFEffectKind::Constant { level, envelope } => i == 2 && level == 0x7fff
                && envelope.attack_length == 100 && envelope.fade_length == 150
                && envelope.attack_length + envelope.fade_length
                <= scenarios@[i].effect.replay.length,
        },
{
}

} // verus!
