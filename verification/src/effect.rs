//! Force-feedback effects as they are captured from a game.

use vstd::prelude::*;

verus! {

/// The shapes that a periodic effect can have, after the kernel's `FF_*` codes.
#[derive(Debug, Clone, Copy, PartialEq, Eq, Structural)]
pub enum Waveform {
    Square,
    Triangle,
    Sine,
    SawUp,
    SawDown,
    Custom,
}

impl Waveform {
    /// The kernel's code of this waveform.
    pub open spec fn code(self) -> u16 {
        match self {
            Waveform::Square => 0x58,
            Waveform::Triangle => 0x59,
            Waveform::Sine => 0x5a,
            Waveform::SawUp => 0x5b,
            Waveform::SawDown => 0x5c,
            Waveform::Custom => 0x5d,
        }
    }

    /// The waveform whose code is `v`, if there is one.
    pub open spec fn of_code(v: u16) -> Option<Waveform> {
        match v {
            0x58 => Some(Waveform::Square),
            0x59 => Some(Waveform::Triangle),
            0x5a => Some(Waveform::Sine),
            0x5b => Some(Waveform::SawUp),
            0x5c => Some(Waveform::SawDown),
            0x5d => Some(Waveform::Custom),
            _ => None,
        }
    }

    /// The waveform that the kernel's code `v` stands for; `None` where it stands for none.
    pub fn from_u16(v: u16) -> (waveform: Option<Self>)
        ensures
            waveform == Waveform::of_code(v),
    {
        match v {
            0x58 => Some(Self::Square),
            0x59 => Some(Self::Triangle),
            0x5a => Some(Self::Sine),
            0x5b => Some(Self::SawUp),
            0x5c => Some(Self::SawDown),
            0x5d => Some(Self::Custom),
            _ => None,
        }
    }

    /// The kernel's code of this waveform.
    pub fn as_u16(self) -> (v: u16)
        ensures
            v == self.code(),
    {
        match self {
            Waveform::Square => 0x58,
            Waveform::Triangle => 0x59,
            Waveform::Sine => 0x5a,
            Waveform::SawUp => 0x5b,
            Waveform::SawDown => 0x5c,
            Waveform::Custom => 0x5d,
        }
    }
}

/// Reading a code and writing it undo each other: the code of a waveform is read as that
/// waveform, a code that is read is the code of what it is read as, and a code that no waveform
/// has is not read.
pub proof fn waveform_codes_round_trip(waveform: Waveform, v: u16)
    ensures
        Waveform::of_code(waveform.code()) == Some(waveform),
        Waveform::of_code(v) matches Some(w) ==> w.code() == v,
        Waveform::of_code(v) is None <==> !(0x58 <= v <= 0x5d),
{
}

/// The envelope of a periodic or constant effect: how it swells at its start and fades at its
/// end. Lengths are in milliseconds.
#[derive(Debug, Clone, Copy)]
pub struct Envelope {
    pub attack_length: u16,
    pub attack_level: u16,
    pub fade_length: u16,
    pub fade_level: u16,
}

impl Default for Envelope {
    fn default() -> (envelope: Self)
        ensures
            envelope.attack_length == 0,
            envelope.attack_level == 0,
            envelope.fade_length == 0,
            envelope.fade_level == 0,
    {
        Envelope { attack_length: 0, attack_level: 0, fade_length: 0, fade_level: 0 }
    }
}

/// One captured effect. `u` holds the first words of the kernel's union, whose meaning depends
/// on `kind`.
#[derive(Debug, Clone, Copy)]
pub struct FfEffect {
    pub kind: u16,
    pub id: i16,
    pub direction: u16,
    pub trigger_button: u16,
    pub trigger_interval: u16,
    pub replay_length: u16,
    pub replay_delay: u16,
    pub u: [u16; 7],
}

impl Default for FfEffect {
    fn default() -> (effect: Self)
        ensures
            effect.kind == 0,
            effect.id == 0,
            effect.direction == 0,
            effect.trigger_button == 0,
            effect.trigger_interval == 0,
            effect.replay_length == 0,
            effect.replay_delay == 0,
            effect.u@ == Seq::new(7, |i: int| 0u16),
    {
        let effect = FfEffect {
            kind: 0,
            id: 0,
            direction: 0,
            trigger_button: 0,
            trigger_interval: 0,
            replay_length: 0,
            replay_delay: 0,
            u: [0, 0, 0, 0, 0, 0, 0],
        };
        assert(effect.u@ =~= Seq::new(7, |i: int| 0u16));
        effect
    }
}

pub const FF_RUMBLE: u16 = 0x50;

pub const FF_PERIODIC: u16 = 0x51;

pub const FF_CONSTANT: u16 = 0x52;

pub const FF_RAMP: u16 = 0x57;

/// The codes of the waveforms are those of the kernel: six that follow on each other, in the order
/// square, triangle, sine, rising saw, falling saw, custom.
pub proof fn waveform_codes_are_the_kernels(code: u16, read: Option<Waveform>)
    requires
        call_ensures(Waveform::from_u16, (code,), read),
    ensures
        read == Some(Waveform::Square) <==> code == 0x58,
        read == Some(Waveform::Triangle) <==> code == 0x59,
        read == Some(Waveform::Sine) <==> code == 0x5a,
        read == Some(Waveform::SawUp) <==> code == 0x5b,
        read == Some(Waveform::SawDown) <==> code == 0x5c,
        read == Some(Waveform::Custom) <==> code == 0x5d,
{
}

/// A waveform is written by the code that it is read from.
pub proof fn written_waveform_is_read_back(waveform: Waveform, code: u16, read: Option<Waveform>)
    requires
        call_ensures(Waveform::as_u16, (waveform,), code),
        call_ensures(Waveform::from_u16, (code,), read),
    ensures
        read == Some(waveform),
        0x58 <= code <= 0x5d,
{
}

} // verus!
