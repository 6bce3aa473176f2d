//! Translation of a captured effect into a sequence of haptic points.
//!
//! Everything that is decided in whole numbers is decided here: when a point falls, which part of
//! the envelope it falls in, where in its period a waveform stands. The intensity of a point is
//! kept as the numbers that it is computed from.

use crate::effect::{Envelope, FfEffect, Waveform, FF_CONSTANT, FF_PERIODIC, FF_RAMP, FF_RUMBLE};
use crate::words::{signed_word, to_signed};
use vstd::prelude::*;

verus! {

/// Sampled effects have a point every so many milliseconds.
pub const SAMPLE_INTERVAL_MS: u32 = 20;

/// The intensity of an effect at one instant, before its envelope.
#[derive(Debug, Clone, Copy, PartialEq, Eq, Structural)]
pub enum Base {
    /// `magnitude / 32767`, at most one.
    Level { magnitude: u16 },
    /// A periodic effect without a period: nothing.
    Silent,
    /// The waveform `t_ms` into its period of `period_ms`, scaled by `magnitude / 32767`,
    /// shifted by `offset / 32767`, and mapped from `-1..1` to `0..1`.
    Wave { waveform: Waveform, t_ms: u32, period_ms: u16, magnitude: u16, offset: i16 },
}

/// What the envelope multiplies the intensity by.
#[derive(Debug, Clone, Copy, PartialEq, Eq, Structural)]
pub enum Scale {
    /// One.
    Full,
    /// `t_ms / length_ms` of the way from `level / 32767` up to one.
    Attack { level: u16, t_ms: u32, length_ms: u16 },
    /// `elapsed_ms / length_ms` of the way from one down to `level / 32767`.
    Fade { level: u16, elapsed_ms: u32, length_ms: u16 },
}

/// The numbers that the intensity of a point is computed from.
#[derive(Debug, Clone, Copy, PartialEq, Eq, Structural)]
pub enum Intensity {
    /// Zero.
    Zero,
    /// The mean of the two motors' magnitudes, over 65535.
    Rumble { strong: u16, weak: u16 },
    /// `base` times `scale`.
    Shaped { base: Base, scale: Scale },
    /// The absolute value of `start` and `t_ms / length_ms` of `change` together, over 32767; that
    /// of `start` alone where `length_ms` is zero.
    Ramp { start: i16, change: i32, t_ms: u32, length_ms: u32 },
}

/// One point of a haptic sequence, `dt_ms` after its start. Its intensity is of the type `I`: an
/// [`Intensity`] where the point comes from a translation, or the number that it stands for.
#[derive(Debug, Clone, Copy, PartialEq, Eq)]
pub struct HapticPoint<I> {
    pub dt_ms: u32,
    pub intensity: I,
}

/// How large a signed number is, whatever its sign.
pub open spec fn magnitude_of(n: i16) -> u16 {
    if n < 0 {
        (-n) as u16
    } else {
        n as u16
    }
}

/// How large a signed number is, whatever its sign. Every number has a magnitude, the least one
/// too.
pub fn magnitude(n: i16) -> (m: u16)
    ensures
        m == magnitude_of(n),
{
    if n < 0 {
        (-(n as i32)) as u16
    } else {
        n as u16
    }
}

/// A source of intensities: what a sampled effect is before its envelope, at every instant.
#[derive(Debug, Clone, Copy, PartialEq, Eq, Structural)]
pub enum Source {
    Constant { level: i16 },
    Periodic { waveform: Waveform, period_ms: u16, level: i16, offset: i16 },
}

impl Source {
    /// The intensity that this source gives at `t_ms`.
    pub open spec fn spec_at(self, t_ms: u32) -> Base {
        match self {
            Source::Constant { level } => Base::Level { magnitude: magnitude_of(level) },
            Source::Periodic { waveform, period_ms, level, offset } => if period_ms == 0 {
                Base::Silent
            } else {
                Base::Wave {
                    waveform,
                    t_ms: t_ms % (period_ms as u32),
                    period_ms,
                    magnitude: magnitude_of(level),
                    offset,
                }
            },
        }
    }

    /// The intensity that this source gives at `t_ms`. A waveform repeats with its period, so
    /// only the time within the period counts.
    pub fn at(self, t_ms: u32) -> (base: Base)
        ensures
            base == self.spec_at(t_ms),
    {
        match self {
            Source::Constant { level } => Base::Level { magnitude: magnitude(level) },
            Source::Periodic { waveform, period_ms, level, offset } => if period_ms == 0 {
                Base::Silent
            } else {
                Base::Wave {
                    waveform,
                    t_ms: t_ms % (period_ms as u32),
                    period_ms,
                    magnitude: magnitude(level),
                    offset,
                }
            },
        }
    }
}

/// The instant at which an effect of `length_ms` starts to fade.
pub open spec fn fade_start(length_ms: u32, envelope: Envelope) -> int {
    if envelope.fade_length < length_ms {
        length_ms - envelope.fade_length
    } else {
        0
    }
}

/// What `envelope` multiplies the intensity of an effect of `length_ms` by at `t_ms`: the attack
/// goes before the fade where the two overlap.
pub open spec fn spec_envelope_scale(t_ms: u32, length_ms: u32, envelope: Envelope) -> Scale {
    if t_ms < envelope.attack_length {
        Scale::Attack {
            level: envelope.attack_level,
            t_ms,
            length_ms: envelope.attack_length,
        }
    } else if envelope.fade_length > 0 && length_ms > 0 && t_ms >= fade_start(length_ms, envelope) {
        Scale::Fade {
            level: envelope.fade_level,
            elapsed_ms: (t_ms - fade_start(length_ms, envelope)) as u32,
            length_ms: envelope.fade_length,
        }
    } else {
        Scale::Full
    }
}

/// What `envelope` multiplies the intensity of an effect of `length_ms` by at `t_ms`.
pub fn envelope_scale(t_ms: u32, length_ms: u32, envelope: Envelope) -> (scale: Scale)
    ensures
        scale == spec_envelope_scale(t_ms, length_ms, envelope),
{
    if envelope.attack_length > 0 && t_ms < envelope.attack_length as u32 {
        Scale::Attack { level: envelope.attack_level, t_ms, length_ms: envelope.attack_length }
    } else if envelope.fade_length > 0 && length_ms > 0 {
        let fade_start_ms: u32 = length_ms.saturating_sub(envelope.fade_length as u32);
        if t_ms >= fade_start_ms {
            Scale::Fade {
                level: envelope.fade_level,
                elapsed_ms: t_ms - fade_start_ms,
                length_ms: envelope.fade_length,
            }
        } else {
            Scale::Full
        }
    } else {
        Scale::Full
    }
}

/// The end of every sequence: silence at `length_ms`.
pub open spec fn end_point(length_ms: u32) -> HapticPoint<Intensity> {
    HapticPoint { dt_ms: length_ms, intensity: Intensity::Zero }
}

/// The `i`-th sample of a source under an envelope.
pub open spec fn sample(
    i: int,
    source: Source,
    length_ms: u32,
    envelope: Envelope,
) -> HapticPoint<Intensity> {
    let t_ms = (SAMPLE_INTERVAL_MS * i) as u32;
    HapticPoint {
        dt_ms: t_ms,
        intensity: Intensity::Shaped {
            base: source.spec_at(t_ms),
            scale: spec_envelope_scale(t_ms, length_ms, envelope),
        },
    }
}

/// How many multiples of the sample interval lie before `length_ms`.
pub open spec fn samples_before(length_ms: u32) -> nat {
    ((length_ms + SAMPLE_INTERVAL_MS - 1) / SAMPLE_INTERVAL_MS as int) as nat
}

/// A source under an envelope: a sample at every multiple of the interval before `length_ms`,
/// then the end.
pub open spec fn sampled(source: Source, length_ms: u32, envelope: Envelope) -> Seq<
    HapticPoint<Intensity>,
> {
    Seq::new(samples_before(length_ms), |i: int| sample(i, source, length_ms, envelope)).push(
        end_point(length_ms),
    )
}

/// The point of a ramp at `t_ms`.
pub open spec fn ramp_point(start: i16, end: i16, t_ms: u32, length_ms: u32) -> HapticPoint<
    Intensity,
> {
    let change = (end - start) as i32;
    HapticPoint { dt_ms: t_ms, intensity: Intensity::Ramp { start, change, t_ms, length_ms } }
}

/// The points of a ramp up to and with the last multiple of the interval in its length.
pub open spec fn ramp_samples(start: i16, end: i16, length_ms: u32) -> Seq<HapticPoint<Intensity>> {
    Seq::new(
        (length_ms / SAMPLE_INTERVAL_MS + 1) as nat,
        |i: int| ramp_point(start, end, (SAMPLE_INTERVAL_MS * i) as u32, length_ms),
    )
}

/// A ramp: its samples, its level at the very end where no sample falls there, then the end.
pub open spec fn ramp(start: i16, end: i16, length_ms: u32) -> Seq<HapticPoint<Intensity>> {
    let samples = ramp_samples(start, end, length_ms);
    if length_ms % SAMPLE_INTERVAL_MS == 0 {
        samples.push(end_point(length_ms))
    } else {
        samples.push(ramp_point(start, end, length_ms, length_ms)).push(end_point(length_ms))
    }
}

/// A rumble: its intensity at the start, then the end; the end alone where it has no length.
pub open spec fn rumble(strong: u16, weak: u16, length_ms: u32) -> Seq<HapticPoint<Intensity>> {
    if length_ms == 0 {
        seq![end_point(0)]
    } else {
        seq![
            HapticPoint { dt_ms: 0, intensity: Intensity::Rumble { strong, weak } },
            end_point(length_ms),
        ]
    }
}

/// The waveform that a periodic effect is played with: a sine where its code is unknown.
pub open spec fn played_waveform(code: u16) -> Waveform {
    match Waveform::of_code(code) {
        Some(waveform) => waveform,
        None => Waveform::Sine,
    }
}

/// What a constant effect is before its envelope.
pub open spec fn constant_source(effect: FfEffect) -> Source {
    Source::Constant { level: signed_word(effect.u[0]) as i16 }
}

/// The envelope of a constant effect.
pub open spec fn constant_envelope(effect: FfEffect) -> Envelope {
    Envelope {
        attack_length: effect.u[1],
        attack_level: effect.u[2],
        fade_length: effect.u[3],
        fade_level: effect.u[4],
    }
}

/// What a periodic effect is before its envelope.
pub open spec fn periodic_source(effect: FfEffect) -> Source {
    Source::Periodic {
        waveform: played_waveform(effect.u[0]),
        period_ms: effect.u[1],
        level: signed_word(effect.u[2]) as i16,
        offset: signed_word(effect.u[3]) as i16,
    }
}

/// The envelope of a periodic effect: the captured words hold its lengths alone, so that it
/// swells from and fades to nothing.
pub open spec fn periodic_envelope(effect: FfEffect) -> Envelope {
    Envelope {
        attack_length: effect.u[5],
        attack_level: 0,
        fade_length: effect.u[6],
        fade_level: 0,
    }
}

/// The kinds of effect that are translated.
pub open spec fn is_translated_kind(kind: u16) -> bool {
    kind == FF_RUMBLE || kind == FF_PERIODIC || kind == FF_CONSTANT || kind == FF_RAMP
}

/// The points of an effect.
pub open spec fn translated(effect: FfEffect) -> Seq<HapticPoint<Intensity>> {
    let length_ms = effect.replay_length as u32;
    if effect.kind == FF_RUMBLE {
        rumble(effect.u[0], effect.u[1], length_ms)
    } else if effect.kind == FF_PERIODIC {
        sampled(periodic_source(effect), length_ms, periodic_envelope(effect))
    } else if effect.kind == FF_CONSTANT {
        sampled(constant_source(effect), length_ms, constant_envelope(effect))
    } else if effect.kind == FF_RAMP {
        ramp(signed_word(effect.u[0]) as i16, signed_word(effect.u[1]) as i16, length_ms)
    } else {
        seq![]
    }
}

/// Translates an effect into points. An effect of another kind than the four that are known has
/// none.
pub fn translate(effect: &FfEffect) -> (points: Vec<HapticPoint<Intensity>>)
    ensures
        points@ == translated(*effect),
{
    match effect.kind {
        FF_RUMBLE => rumble_points(effect),
        FF_PERIODIC => periodic_points(effect),
        FF_CONSTANT => constant_points(effect),
        FF_RAMP => ramp_points(effect),
        _ => Vec::new(),
    }
}

fn rumble_points(effect: &FfEffect) -> (points: Vec<HapticPoint<Intensity>>)
    ensures
        points@ == rumble(effect.u[0], effect.u[1], effect.replay_length as u32),
{
    let strong: u16 = effect.u[0];
    let weak: u16 = effect.u[1];
    let length: u32 = effect.replay_length as u32;
    let mut points: Vec<HapticPoint<Intensity>> = Vec::new();
    if length > 0 {
        points.push(HapticPoint { dt_ms: 0, intensity: Intensity::Rumble { strong, weak } });
    }
    points.push(HapticPoint { dt_ms: length, intensity: Intensity::Zero });
    assert(points@ =~= rumble(strong, weak, length));
    points
}

fn constant_points(effect: &FfEffect) -> (points: Vec<HapticPoint<Intensity>>)
    ensures
        points@ == sampled(
            constant_source(*effect),
            effect.replay_length as u32,
            constant_envelope(*effect),
        ),
{
    let envelope = Envelope {
        attack_length: effect.u[1],
        attack_level: effect.u[2],
        fade_length: effect.u[3],
        fade_level: effect.u[4],
    };
    let source = Source::Constant { level: to_signed(effect.u[0]) };
    sample_range(source, effect.replay_length as u32, envelope)
}

fn periodic_points(effect: &FfEffect) -> (points: Vec<HapticPoint<Intensity>>)
    ensures
        points@ == sampled(
            periodic_source(*effect),
            effect.replay_length as u32,
            periodic_envelope(*effect),
        ),
{
    let envelope = Envelope {
        attack_length: effect.u[5],
        attack_level: 0,
        fade_length: effect.u[6],
        fade_level: 0,
    };
    let waveform = match Waveform::from_u16(effect.u[0]) {
        Some(waveform) => waveform,
        None => Waveform::Sine,
    };
    let source = Source::Periodic {
        waveform,
        period_ms: effect.u[1],
        level: to_signed(effect.u[2]),
        offset: to_signed(effect.u[3]),
    };
    sample_range(source, effect.replay_length as u32, envelope)
}

fn ramp_points(effect: &FfEffect) -> (points: Vec<HapticPoint<Intensity>>)
    ensures
        points@ == ramp(
            signed_word(effect.u[0]) as i16,
            signed_word(effect.u[1]) as i16,
            effect.replay_length as u32,
        ),
{
    let start: i16 = to_signed(effect.u[0]);
    let end: i16 = to_signed(effect.u[1]);
    let change: i32 = end as i32 - start as i32;
    let length_ms: u32 = effect.replay_length as u32;
    let mut points: Vec<HapticPoint<Intensity>> = Vec::new();
    let mut t_ms: u32 = 0;
    while t_ms <= length_ms
        invariant
            length_ms <= 0xffff,
            change == end - start,
            t_ms == SAMPLE_INTERVAL_MS * points@.len(),
            t_ms <= length_ms + SAMPLE_INTERVAL_MS,
            points@.len() <= length_ms / SAMPLE_INTERVAL_MS + 1,
            forall|i: int|
                0 <= i < points@.len() ==> points@[i] == ramp_point(
                    start,
                    end,
                    (SAMPLE_INTERVAL_MS * i) as u32,
                    length_ms,
                ),
        decreases length_ms + SAMPLE_INTERVAL_MS - t_ms,
    {
        points.push(
            HapticPoint {
                dt_ms: t_ms,
                intensity: Intensity::Ramp { start, change, t_ms, length_ms },
            },
        );
        t_ms = t_ms + SAMPLE_INTERVAL_MS;
    }
    assert(points@ =~= ramp_samples(start, end, length_ms));
    if length_ms % SAMPLE_INTERVAL_MS != 0 {
        points.push(
            HapticPoint {
                dt_ms: length_ms,
                intensity: Intensity::Ramp { start, change, t_ms: length_ms, length_ms },
            },
        );
    }
    points.push(HapticPoint { dt_ms: length_ms, intensity: Intensity::Zero });
    points
}

fn sample_range(source: Source, length_ms: u32, envelope: Envelope) -> (points: Vec<
    HapticPoint<Intensity>,
>)
    requires
        length_ms <= 0xffff,
    ensures
        points@ == sampled(source, length_ms, envelope),
{
    let mut points: Vec<HapticPoint<Intensity>> = Vec::new();
    let mut t_ms: u32 = 0;
    while t_ms < length_ms
        invariant
            length_ms <= 0xffff,
            t_ms == SAMPLE_INTERVAL_MS * points@.len(),
            t_ms < length_ms + SAMPLE_INTERVAL_MS,
            forall|i: int|
                0 <= i < points@.len() ==> points@[i] == sample(i, source, length_ms, envelope),
        decreases length_ms + SAMPLE_INTERVAL_MS - t_ms,
    {
        points.push(
            HapticPoint {
                dt_ms: t_ms,
                intensity: Intensity::Shaped {
                    base: source.at(t_ms),
                    scale: envelope_scale(t_ms, length_ms, envelope),
                },
            },
        );
        t_ms = t_ms + SAMPLE_INTERVAL_MS;
    }
    points.push(HapticPoint { dt_ms: length_ms, intensity: Intensity::Zero });
    assert(points@ =~= sampled(source, length_ms, envelope));
    points
}

/// Every sequence ends in silence when the replay is over, whatever its envelope says, and an
/// effect of an unknown kind has no sequence.
pub proof fn sequence_ends_in_silence(effect: FfEffect)
    ensures
        is_translated_kind(effect.kind) ==> translated(effect).len() > 0
            && translated(effect).last() == end_point(effect.replay_length as u32),
        !is_translated_kind(effect.kind) ==> translated(effect).len() == 0,
{
}

/// The points of a sequence start at zero, go forward in time and do not go beyond the replay.
pub proof fn sequence_goes_forward(effect: FfEffect, i: int, j: int)
    requires
        0 <= i <= j < translated(effect).len(),
    ensures
        translated(effect)[0].dt_ms == 0,
        translated(effect)[i].dt_ms <= translated(effect)[j].dt_ms <= effect.replay_length,
{
}

/// Neighbouring points of a sampled effect are at most one sample interval apart.
pub proof fn samples_are_dense(effect: FfEffect, i: int)
    requires
        effect.kind != FF_RUMBLE,
        0 <= i < translated(effect).len() - 1,
    ensures
        translated(effect)[i + 1].dt_ms - translated(effect)[i].dt_ms <= SAMPLE_INTERVAL_MS,
{
}

/// Wherever a sequence has a shaped intensity, the waveform stands within its period, the attack
/// is not over, and the fade is not beyond its end: the fractions that they stand for are at most
/// one.
pub proof fn fractions_are_at_most_one(effect: FfEffect, i: int)
    requires
        0 <= i < translated(effect).len(),
    ensures
        translated(effect)[i].intensity matches Intensity::Shaped { base, scale } ==> {
            &&& base matches Base::Wave { t_ms, period_ms, .. } ==> t_ms < period_ms
            &&& scale matches Scale::Attack { t_ms, length_ms, .. } ==> t_ms < length_ms
            &&& scale matches Scale::Fade { elapsed_ms, length_ms, .. } ==> elapsed_ms < length_ms
        },
        translated(effect)[i].intensity matches Intensity::Ramp { t_ms, length_ms, .. } ==> t_ms
            <= length_ms,
{
}

/// A ramp starts at its first level and ends at its second: the change is all that lies between
/// them, however far apart they are.
pub proof fn ramp_reaches_its_end(effect: FfEffect, i: int)
    requires
        effect.kind == FF_RAMP,
        0 <= i < translated(effect).len() - 1,
    ensures
        translated(effect)[i].intensity matches Intensity::Ramp { start, change, .. } && start
            == signed_word(effect.u[0]) && start + change == signed_word(effect.u[1]),
        translated(effect)[translated(effect).len() - 2].dt_ms == effect.replay_length,
{
}

/// An envelope without an attack and without a fade changes nothing.
pub proof fn flat_envelope_is_full(t_ms: u32, length_ms: u32, envelope: Envelope)
    requires
        envelope.attack_length == 0,
        envelope.fade_length == 0,
    ensures
        spec_envelope_scale(t_ms, length_ms, envelope) == Scale::Full,
{
}

/// A fade ends with its effect: what has passed of it and what is left of the effect make up the
/// whole fade, or the whole effect where the fade is longer.
pub proof fn fade_ends_with_the_effect(t_ms: u32, length_ms: u32, envelope: Envelope)
    requires
        t_ms < length_ms,
    ensures
        spec_envelope_scale(t_ms, length_ms, envelope) matches Scale::Fade {
            elapsed_ms,
            ..
        } ==> elapsed_ms + (length_ms - t_ms) == (if envelope.fade_length < length_ms {
            envelope.fade_length as int
        } else {
            length_ms as int
        }),
{
}

/// A source gives the same intensity again after each of its periods; a constant source gives the
/// same at all times.
pub proof fn sources_repeat(source: Source, t_ms: u32, times: nat)
    ensures
        source matches Source::Constant { level } ==> source.spec_at(t_ms) == (Base::Level {
            magnitude: magnitude_of(level),
        }),
        source matches Source::Periodic { period_ms, .. } ==> (t_ms + times * period_ms <= u32::MAX
            ==> source.spec_at((t_ms + times * period_ms) as u32) == source.spec_at(t_ms)),
{
    if let Source::Periodic { period_ms, .. } = source {
        if period_ms > 0 && t_ms + times * period_ms <= u32::MAX {
            vstd::arithmetic::div_mod::lemma_mod_multiples_vanish(
                times as int,
                t_ms as int,
                period_ms as int,
            );
            assert(period_ms * times + t_ms == t_ms + times * period_ms) by (nonlinear_arith);
        }
    }
}

/// `magnitude` is how large the sixteen bits `word` are as a signed number.
pub open spec fn is_magnitude_of_word(magnitude: u16, word: u16) -> bool {
    if word < 0x8000 {
        magnitude == word
    } else {
        magnitude + word == 0x1_0000
    }
}

/// `scale` is right for an effect of `length_ms` at `t_ms`. It swells as long as the attack lasts.
/// It fades once no more than the length of the fade is left, and from the start of the effect
/// where the fade is longer than that. Otherwise it is full.
pub open spec fn follows_envelope(
    scale: Scale,
    t_ms: u32,
    length_ms: u32,
    envelope: Envelope,
) -> bool {
    match scale {
        Scale::Attack { level, t_ms: passed_ms, length_ms: attack_ms } => {
            &&& t_ms < envelope.attack_length
            &&& level == envelope.attack_level
            &&& passed_ms == t_ms
            &&& attack_ms == envelope.attack_length
        },
        Scale::Fade { level, elapsed_ms, length_ms: fade_ms } => {
            &&& t_ms >= envelope.attack_length
            &&& envelope.fade_length > 0
            &&& length_ms > 0
            &&& level == envelope.fade_level
            &&& fade_ms == envelope.fade_length
            &&& envelope.fade_length <= length_ms ==> elapsed_ms + length_ms == t_ms
                + envelope.fade_length
            &&& envelope.fade_length > length_ms ==> elapsed_ms == t_ms
        },
        Scale::Full => {
            &&& t_ms >= envelope.attack_length
            &&& envelope.fade_length > 0 && length_ms > 0 ==> t_ms + envelope.fade_length
                < length_ms
        },
    }
}

/// An envelope is followed at every instant of every effect.
pub proof fn envelope_is_followed(t_ms: u32, length_ms: u32, envelope: Envelope, scale: Scale)
    requires
        call_ensures(envelope_scale, (t_ms, length_ms, envelope), scale),
    ensures
        follows_envelope(scale, t_ms, length_ms, envelope),
{
}

/// A magnitude is the number or its opposite, whichever is not negative.
pub proof fn magnitude_has_no_sign(n: i16, m: u16)
    requires
        call_ensures(magnitude, (n,), m),
    ensures
        m == n || m == -n,
{
}

/// A constant source gives its level at every instant. A periodic source gives its waveform, its
/// magnitude and its offset, at a time within the period that is a whole number of periods away;
/// without a period it gives nothing.
pub proof fn sources_give_what_they_hold(source: Source, t_ms: u32, base: Base)
    requires
        call_ensures(Source::at, (source, t_ms), base),
    ensures
        match source {
            Source::Constant { level } => base matches Base::Level { magnitude } && (magnitude
                == level || magnitude == -level),
            Source::Periodic { waveform, period_ms, level, offset } => match base {
                Base::Level { .. } => false,
                Base::Silent => period_ms == 0,
                Base::Wave {
                    waveform: shape,
                    t_ms: within_ms,
                    period_ms: period,
                    magnitude,
                    offset: shift,
                } => {
                    &&& period_ms > 0
                    &&& shape == waveform
                    &&& period == period_ms
                    &&& magnitude == level || magnitude == -level
                    &&& shift == offset
                    &&& within_ms < period_ms
                    &&& within_ms <= t_ms
                    &&& (t_ms - within_ms) % (period_ms as int) == 0
                },
            },
        },
{
    if let Source::Periodic { period_ms, .. } = source {
        if period_ms > 0 {
            vstd::arithmetic::div_mod::lemma_fundamental_div_mod(t_ms as int, period_ms as int);
            vstd::arithmetic::div_mod::lemma_mod_multiples_basic(
                t_ms as int / period_ms as int,
                period_ms as int,
            );
            assert((period_ms as int) * (t_ms as int / period_ms as int) == (t_ms as int
                / period_ms as int) * (period_ms as int)) by (nonlinear_arith);
        }
    }
}

/// A rumble is felt at once and as it was uploaded: the strong motor has the effect's first word
/// and the weak motor its second, whichever of them is larger. It is silent when the replay is
/// over, and has no other points. A rumble without a length is silent from the start.
pub proof fn rumble_drives_both_motors(effect: FfEffect, points: Vec<HapticPoint<Intensity>>)
    requires
        effect.kind == 0x50,
        call_ensures(translate, (&effect,), points),
    ensures
        effect.replay_length > 0 ==> {
            &&& points@.len() == 2
            &&& points@[0].dt_ms == 0
            &&& points@[0].intensity matches Intensity::Rumble { strong, weak } && strong
                == effect.u[0] && weak == effect.u[1] && strong + weak == effect.u[0]
                + effect.u[1]
        },
        effect.replay_length == 0 ==> points@.len() == 1,
        points@.last().dt_ms == effect.replay_length,
        points@.last().intensity == Intensity::Zero,
{
}

/// A constant or periodic effect is sampled every twenty milliseconds from its start on, as long as
/// its replay lasts, and is silent when that is over. It has no other points.
pub proof fn effects_are_sampled_every_twenty_milliseconds(
    effect: FfEffect,
    points: Vec<HapticPoint<Intensity>>,
)
    requires
        effect.kind == 0x51 || effect.kind == 0x52,
        call_ensures(translate, (&effect,), points),
    ensures
        ({
            let samples = points@.len() - 1;
            &&& samples >= 0
            &&& 20 * (samples - 1) < effect.replay_length <= 20 * samples
            &&& forall|i: int|
                0 <= i < samples ==> (#[trigger] points@[i]).dt_ms == 20 * i
                    && points@[i].intensity is Shaped
            &&& points@[samples].dt_ms == effect.replay_length
            &&& points@[samples].intensity == Intensity::Zero
        }),
{
}

/// Every sample of a constant effect has the effect's level, by its magnitude, under the envelope
/// that the next four words give.
pub proof fn constant_effect_keeps_its_level(
    effect: FfEffect,
    points: Vec<HapticPoint<Intensity>>,
    i: int,
)
    requires
        effect.kind == 0x52,
        call_ensures(translate, (&effect,), points),
        0 <= i < points@.len() - 1,
    ensures
        points@[i].intensity matches Intensity::Shaped { base, scale } && {
            &&& base matches Base::Level { magnitude } && is_magnitude_of_word(
                magnitude,
                effect.u[0],
            )
            &&& follows_envelope(
                scale,
                points@[i].dt_ms,
                effect.replay_length as u32,
                Envelope {
                    attack_length: effect.u[1],
                    attack_level: effect.u[2],
                    fade_length: effect.u[3],
                    fade_level: effect.u[4],
                },
            )
        },
{
}

/// Every sample of a periodic effect has the effect's waveform (a sine where its code is none),
/// period, magnitude and offset, at a time within the period that is a whole number of periods
/// away; it swells from nothing and fades to nothing as long as the last two words say.
pub proof fn periodic_effect_keeps_its_shape(
    effect: FfEffect,
    points: Vec<HapticPoint<Intensity>>,
    i: int,
)
    requires
        effect.kind == 0x51,
        call_ensures(translate, (&effect,), points),
        0 <= i < points@.len() - 1,
    ensures
        points@[i].intensity matches Intensity::Shaped { base, scale } && {
            &&& follows_envelope(
                scale,
                points@[i].dt_ms,
                effect.replay_length as u32,
                Envelope {
                    attack_length: effect.u[5],
                    attack_level: 0,
                    fade_length: effect.u[6],
                    fade_level: 0,
                },
            )
            &&& effect.u[1] == 0 ==> base == Base::Silent
            &&& effect.u[1] > 0 ==> (base matches Base::Wave {
                waveform,
                t_ms,
                period_ms,
                magnitude,
                offset,
            } && {
                &&& waveform == Waveform::Square <==> effect.u[0] == 0x58
                &&& waveform == Waveform::Triangle <==> effect.u[0] == 0x59
                &&& waveform == Waveform::SawUp <==> effect.u[0] == 0x5b
                &&& waveform == Waveform::SawDown <==> effect.u[0] == 0x5c
                &&& waveform == Waveform::Custom <==> effect.u[0] == 0x5d
                &&& period_ms == effect.u[1]
                &&& is_magnitude_of_word(magnitude, effect.u[2])
                &&& offset == effect.u[3] || offset == effect.u[3] - 0x1_0000
                &&& t_ms < period_ms
                &&& t_ms <= points@[i].dt_ms
                &&& (points@[i].dt_ms - t_ms) % (period_ms as int) == 0
            })
        },
{
    let t = points@[i].dt_ms as int;
    let period = effect.u[1] as int;
    if period > 0 {
        vstd::arithmetic::div_mod::lemma_fundamental_div_mod(t, period);
        vstd::arithmetic::div_mod::lemma_mod_multiples_basic(t / period, period);
        assert(period * (t / period) == (t / period) * period) by (nonlinear_arith);
    }
}

/// A ramp has a point every twenty milliseconds and one at its very end, each of which says how far
/// it is on the way from the first level to the second, and is silent after that.
pub proof fn ramp_is_on_its_way(effect: FfEffect, points: Vec<HapticPoint<Intensity>>)
    requires
        effect.kind == 0x57,
        call_ensures(translate, (&effect,), points),
    ensures
        ({
            let steps = points@.len() - 2;
            &&& steps >= 0
            &&& 20 * (steps - 1) < effect.replay_length <= 20 * steps
            &&& forall|i: int| 0 <= i < steps ==> (#[trigger] points@[i]).dt_ms == 20 * i
            &&& points@[steps].dt_ms == effect.replay_length
            &&& forall|i: int|
                0 <= i <= steps ==> ((#[trigger] points@[i]).intensity matches Intensity::Ramp {
                    start,
                    change,
                    t_ms,
                    length_ms,
                } && {
                    &&& start == effect.u[0] || start == effect.u[0] - 0x1_0000
                    &&& start + change == effect.u[1] || start + change == effect.u[1] - 0x1_0000
                    &&& -0x8000 <= start + change < 0x8000
                    &&& t_ms == points@[i].dt_ms
                    &&& length_ms == effect.replay_length
                })
            &&& points@[steps + 1].dt_ms == effect.replay_length
            &&& points@[steps + 1].intensity == Intensity::Zero
        }),
{
}

/// Rumble, periodic, constant and ramp effects have points, whatever they hold, and no other effect
/// has any.
pub proof fn four_kinds_are_translated(effect: FfEffect, points: Vec<HapticPoint<Intensity>>)
    requires
        call_ensures(translate, (&effect,), points),
    ensures
        points@.len() > 0 <==> (effect.kind == 0x50 || effect.kind == 0x51 || effect.kind == 0x52
            || effect.kind == 0x57),
{
}

} // verus!
