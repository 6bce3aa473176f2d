use game_haptics_router::effect::{
    Envelope, FfEffect, Waveform, FF_CONSTANT, FF_PERIODIC, FF_RAMP, FF_RUMBLE,
};
use game_haptics_router::schedule::{
    format_schedule_log, interpolate_points, write_schedule_report, Keyframe, Level,
};
use game_haptics_router::translate::{
    envelope_scale, magnitude, translate, Base, HapticPoint, Intensity, Scale, Source,
};
use std::collections::HashMap;
use std::f32::consts::PI;

fn base_value(base: Base) -> f32 {
    match base {
        Base::Level { magnitude } => (magnitude as f32 / 32767.0).clamp(0.0, 1.0),
        Base::Silent => 0.0,
        Base::Wave { waveform, t_ms, period_ms, magnitude, offset } => {
            let t = t_ms as f32 / period_ms as f32;
            let raw = match waveform {
                Waveform::Sine => (t * 2.0 * PI).sin(),
                Waveform::Square => {
                    if t < 0.5 {
                        1.0
                    } else {
                        -1.0
                    }
                }
                Waveform::Triangle => {
                    if t < 0.5 {
                        4.0 * t - 1.0
                    } else {
                        3.0 - 4.0 * t
                    }
                }
                Waveform::SawUp => 2.0 * t - 1.0,
                Waveform::SawDown => 1.0 - 2.0 * t,
                Waveform::Custom => 0.0,
            };
            let mag = magnitude as f32 / 32767.0;
            let off = offset as f32 / 32767.0;
            ((raw * mag + off) * 0.5 + 0.5).clamp(0.0, 1.0)
        }
    }
}

fn scale_value(scale: Scale) -> f32 {
    match scale {
        Scale::Full => 1.0,
        Scale::Attack { level, t_ms, length_ms } => {
            let start = level as f32 / 32767.0;
            start + (1.0 - start) * (t_ms as f32 / length_ms as f32)
        }
        Scale::Fade { level, elapsed_ms, length_ms } => {
            let end = level as f32 / 32767.0;
            1.0 - (1.0 - end) * (elapsed_ms as f32 / length_ms as f32)
        }
    }
}

fn value(intensity: Intensity) -> f32 {
    match intensity {
        Intensity::Zero => 0.0,
        Intensity::Rumble { strong, weak } => {
            ((strong as f32 + weak as f32) / 2.0 / 65535.0).clamp(0.0, 1.0)
        }
        Intensity::Shaped { base, scale } => {
            (base_value(base) * scale_value(scale)).clamp(0.0, 1.0)
        }
        Intensity::Ramp { start, change, t_ms, length_ms } => {
            let progress = if length_ms == 0 { 0.0 } else { t_ms as f32 / length_ms as f32 };
            let level = start as f32 + change as f32 * progress;
            (level.abs() / 32767.0).clamp(0.0, 1.0)
        }
    }
}

fn effect(kind: u16, length_ms: u16, u: [u16; 7]) -> FfEffect {
    FfEffect {
        kind,
        id: 0,
        direction: 0,
        trigger_button: 0,
        trigger_interval: 0,
        replay_length: length_ms,
        replay_delay: 0,
        u,
    }
}

fn rumble_effect(strong: u16, weak: u16, length_ms: u16) -> FfEffect {
    effect(FF_RUMBLE, length_ms, [strong, weak, 0, 0, 0, 0, 0])
}

fn periodic_effect(
    waveform: u16,
    magnitude: i16,
    period_ms: u16,
    length_ms: u16,
    env: Envelope,
) -> FfEffect {
    effect(
        FF_PERIODIC,
        length_ms,
        [waveform, period_ms, magnitude as u16, 0, 0, env.attack_length, env.fade_length],
    )
}

fn times(points: &[HapticPoint<Intensity>]) -> Vec<u32> {
    points.iter().map(|p| p.dt_ms).collect()
}

#[test]
fn rumble_full_strength_produces_start_and_stop_points() {
    let e = rumble_effect(0xFFFF, 0xFFFF, 500);
    let pts = translate(&e);
    assert_eq!(pts.len(), 2);
    assert_eq!(pts[0].dt_ms, 0);
    assert!((value(pts[0].intensity) - 1.0).abs() < 0.01);
    assert_eq!(pts[1].dt_ms, 500);
    assert_eq!(value(pts[1].intensity), 0.0);
}

#[test]
fn rumble_half_strength_produces_half_intensity() {
    let e = rumble_effect(0x8000, 0x8000, 200);
    let pts = translate(&e);
    assert!((value(pts[0].intensity) - 0.5).abs() < 0.01);
}

#[test]
fn rumble_combines_strong_and_weak_as_average() {
    let e = rumble_effect(0xFFFF, 0, 100);
    let pts = translate(&e);
    assert!((value(pts[0].intensity) - 0.5).abs() < 0.01);
}

#[test]
fn rumble_zero_length_produces_single_zero_point() {
    let e = rumble_effect(0xFFFF, 0xFFFF, 0);
    let pts = translate(&e);
    assert_eq!(pts.len(), 1);
    assert_eq!(value(pts[0].intensity), 0.0);
}

#[test]
fn periodic_sine_samples_at_20ms_intervals() {
    let e = periodic_effect(0x5a, 0x7FFF, 100, 200, Envelope::default());
    let pts = translate(&e);
    assert_eq!(pts.len(), 11);
    assert_eq!(pts[0].dt_ms, 0);
    assert_eq!(pts.last().unwrap().dt_ms, 200);
    assert_eq!(value(pts.last().unwrap().intensity), 0.0);
}

#[test]
fn periodic_square_is_binary() {
    let e = periodic_effect(0x58, 0x7FFF, 100, 200, Envelope::default());
    let pts = translate(&e);
    for p in &pts[..pts.len() - 1] {
        let i = value(p.intensity);
        assert!(i == 0.0 || (i - 1.0).abs() < 0.01);
    }
}

#[test]
fn constant_produces_flat_points() {
    let e = effect(FF_CONSTANT, 100, [0x7FFF, 0, 0, 0, 0, 0, 0]);
    let pts = translate(&e);
    let sustain: Vec<_> = pts.iter().filter(|p| p.dt_ms > 0 && p.dt_ms < 100).collect();
    for p in sustain {
        assert!((value(p.intensity) - 1.0).abs() < 0.01);
    }
}

#[test]
fn unknown_ff_type_returns_empty() {
    let e = effect(0xFF, 100, [0; 7]);
    assert!(translate(&e).is_empty());
}

#[test]
fn sine_peaks_at_its_quarter() {
    // A quarter of 80 ms is a sample.
    let e = periodic_effect(0x5a, 0x7FFF, 80, 200, Envelope::default());
    let pts = translate(&e);
    let at = |t: u32| value(pts.iter().find(|p| p.dt_ms == t).unwrap().intensity);
    assert!(at(20) > 0.99);
    assert!((at(40) - 0.5).abs() < 0.01);
    assert!(at(60) < 0.01);
}

#[test]
fn attack_swells_and_fade_dies_away() {
    let e = effect(FF_CONSTANT, 500, [0x7fff, 100, 0, 150, 0, 0, 0]);
    let pts = translate(&e);
    let at = |t: u32| pts.iter().find(|p| p.dt_ms == t).unwrap().intensity;
    assert_eq!(value(at(0)), 0.0);
    assert!((value(at(40)) - 0.4).abs() < 1e-6);
    assert_eq!(value(at(100)), 1.0);
    assert_eq!(value(at(340)), 1.0);
    assert!((value(at(380)) - 0.8).abs() < 1e-6);
    assert_eq!(
        at(380),
        Intensity::Shaped {
            base: Base::Level { magnitude: 0x7fff },
            scale: Scale::Fade { level: 0, elapsed_ms: 30, length_ms: 150 },
        }
    );
    assert_eq!(pts.last().unwrap(), &HapticPoint { dt_ms: 500, intensity: Intensity::Zero });
}

#[test]
fn envelope_prefers_attack_and_saturates_fade() {
    let env = Envelope { attack_length: 50, attack_level: 7, fade_length: 300, fade_level: 9 };
    assert_eq!(
        envelope_scale(49, 100, env),
        Scale::Attack { level: 7, t_ms: 49, length_ms: 50 }
    );
    // A fade that is longer than the effect has begun with it.
    assert_eq!(
        envelope_scale(50, 100, env),
        Scale::Fade { level: 9, elapsed_ms: 50, length_ms: 300 }
    );
    assert_eq!(envelope_scale(60, 0, env), Scale::Full);
    assert_eq!(envelope_scale(10, 100, Envelope::default()), Scale::Full);
}

#[test]
fn waveform_repeats_with_its_period() {
    let source =
        Source::Periodic { waveform: Waveform::SawUp, period_ms: 30, level: -5, offset: -6 };
    assert_eq!(
        source.at(100),
        Base::Wave {
            waveform: Waveform::SawUp,
            t_ms: 10,
            period_ms: 30,
            magnitude: 5,
            offset: -6
        }
    );
    assert_eq!(source.at(10), source.at(40));
    let stuck =
        Source::Periodic { waveform: Waveform::Sine, period_ms: 0, level: 5, offset: 0 };
    assert_eq!(stuck.at(100), Base::Silent);
}

#[test]
fn least_level_is_as_strong_as_the_greatest() {
    assert_eq!(magnitude(i16::MIN), 32768);
    assert_eq!(magnitude(-1), 1);
    assert_eq!(magnitude(0), 0);
    assert_eq!(magnitude(i16::MAX), 32767);
    let pts = translate(&effect(FF_CONSTANT, 20, [0x8000, 0, 0, 0, 0, 0, 0]));
    assert_eq!(value(pts[0].intensity), 1.0);
    let pts = translate(&effect(FF_RAMP, 20, [0x8000, 0x7fff, 0, 0, 0, 0, 0]));
    assert_eq!(
        pts[1].intensity,
        Intensity::Ramp { start: -32768, change: 65535, t_ms: 20, length_ms: 20 }
    );
    assert_eq!(value(pts[0].intensity), 1.0);
    assert_eq!(value(pts[1].intensity), 1.0);
}

#[test]
fn unknown_waveform_is_played_as_a_sine() {
    let known = translate(&periodic_effect(0x5a, 100, 40, 100, Envelope::default()));
    let unknown = translate(&periodic_effect(0x11, 100, 40, 100, Envelope::default()));
    assert_eq!(known, unknown);
}

#[test]
fn ramp_goes_from_start_to_end() {
    let e = effect(FF_RAMP, 50, [0x7fff, 0x8001, 0, 0, 0, 0, 0]);
    let pts = translate(&e);
    assert_eq!(times(&pts), vec![0, 20, 40, 50, 50]);
    assert_eq!(
        pts[1].intensity,
        Intensity::Ramp { start: 32767, change: -65534, t_ms: 20, length_ms: 50 }
    );
    assert_eq!(pts[4].intensity, Intensity::Zero);
    let even = effect(FF_RAMP, 40, [0, 0x7fff, 0, 0, 0, 0, 0]);
    let pts = translate(&even);
    assert_eq!(times(&pts), vec![0, 20, 40, 40]);
    assert_eq!(value(pts[2].intensity), 1.0);
    let none = effect(FF_RAMP, 0, [0x7fff, 0, 0, 0, 0, 0, 0]);
    assert_eq!(times(&translate(&none)), vec![0, 0]);
}

#[test]
fn every_sequence_starts_at_zero_and_ends_in_silence() {
    for kind in [FF_RUMBLE, FF_PERIODIC, FF_CONSTANT, FF_RAMP] {
        for length in [0u16, 1, 19, 20, 21, 999, u16::MAX] {
            let pts = translate(&effect(kind, length, [0x5a, 100, 0x7fff, 0, 0, 500, 500]));
            assert_eq!(pts[0].dt_ms, 0);
            assert_eq!(
                pts.last().unwrap(),
                &HapticPoint { dt_ms: length as u32, intensity: Intensity::Zero }
            );
            assert!(pts.windows(2).all(|w| w[0].dt_ms <= w[1].dt_ms));
            if kind != FF_RUMBLE {
                assert!(pts.windows(2).all(|w| w[1].dt_ms - w[0].dt_ms <= 20));
            }
        }
    }
}

fn pt(dt_ms: u32, intensity: f32) -> HapticPoint<f32> {
    HapticPoint { dt_ms, intensity }
}

fn evaluated(keyframes: Vec<Keyframe<f32>>) -> Vec<(u32, f32)> {
    keyframes
        .into_iter()
        .map(|k| {
            let i = match k.level {
                Level::Exact { intensity } => intensity,
                Level::Between { from, to, elapsed_ms, span_ms } => {
                    from + (to - from) * (elapsed_ms as f32 / span_ms as f32)
                }
            };
            (k.t_ms, i)
        })
        .collect()
}

fn interpolated(points: Vec<HapticPoint<f32>>) -> Vec<(u32, f32)> {
    evaluated(interpolate_points(&points))
}

#[test]
fn single_point_produces_one_keyframe() {
    let schedule = interpolated(vec![pt(0, 0.5)]);
    assert_eq!(schedule, vec![(0, 0.5)]);
}

#[test]
fn two_points_evenly_divisible_span_fills_every_step() {
    let schedule = interpolated(vec![pt(0, 1.0), pt(100, 0.0)]);
    let times: Vec<u32> = schedule.iter().map(|(t, _)| *t).collect();
    assert_eq!(times, vec![0, 25, 50, 75, 100]);
    for (t, i) in &schedule {
        let expected = 1.0 - (*t as f32 / 100.0);
        assert!((i - expected).abs() < 1e-6, "t={t} i={i} expected={expected}");
    }
}

#[test]
fn span_not_a_multiple_of_step_still_hits_exact_end_boundary() {
    let schedule = interpolated(vec![pt(0, 0.0), pt(40, 1.0)]);
    let times: Vec<u32> = schedule.iter().map(|(t, _)| *t).collect();
    assert_eq!(times, vec![0, 25, 40]);
    let last = schedule.last().unwrap();
    assert_eq!(last.0, 40);
    assert!((last.1 - 1.0).abs() < 1e-6);
}

#[test]
fn zero_length_span_between_points_emits_no_interpolated_samples() {
    let schedule = interpolated(vec![pt(0, 0.0), pt(0, 1.0), pt(50, 0.0)]);
    let times: Vec<u32> = schedule.iter().map(|(t, _)| *t).collect();
    assert_eq!(times, vec![0, 0, 25, 50]);
}

#[test]
fn multi_segment_ramp_up_then_down() {
    let schedule = interpolated(vec![pt(0, 0.0), pt(50, 1.0), pt(100, 0.0)]);
    let times: Vec<u32> = schedule.iter().map(|(t, _)| *t).collect();
    assert_eq!(times, vec![0, 25, 50, 75, 100]);
    let by_t: HashMap<u32, f32> = schedule.into_iter().collect();
    assert!((by_t[&0] - 0.0).abs() < 1e-6);
    assert!((by_t[&25] - 0.5).abs() < 1e-6);
    assert!((by_t[&50] - 1.0).abs() < 1e-6);
    assert!((by_t[&75] - 0.5).abs() < 1e-6);
    assert!((by_t[&100] - 0.0).abs() < 1e-6);
}

#[test]
fn empty_points_produce_empty_schedule() {
    let schedule = interpolated(vec![]);
    assert!(schedule.is_empty());
}

#[test]
fn points_that_go_back_in_time_are_not_filled() {
    let schedule = interpolated(vec![pt(100, 1.0), pt(0, 0.0), pt(26, 1.0)]);
    let times: Vec<u32> = schedule.iter().map(|(t, _)| *t).collect();
    assert_eq!(times, vec![100, 0, 25, 26]);
}

#[test]
fn schedule_of_an_effect_ends_in_silence_with_its_replay() {
    for kind in [FF_RUMBLE, FF_PERIODIC, FF_CONSTANT, FF_RAMP] {
        for length in [0u16, 30, 500, u16::MAX] {
            let points = translate(&effect(kind, length, [0x5a, 100, 0x7fff, 0, 0, 0, 0]));
            let schedule = interpolate_points(&points);
            let last = schedule.last().unwrap();
            assert_eq!(last.t_ms, length as u32);
            assert_eq!(last.level, Level::Exact { intensity: Intensity::Zero });
            assert!(schedule.windows(2).all(|w| w[1].t_ms - w[0].t_ms <= 25));
        }
    }
}

fn labelled(schedule: &[(u32, f32)]) -> Vec<(u32, String)> {
    schedule.iter().map(|(t, i)| (*t, format!("{:.2}", i))).collect()
}

#[test]
fn format_schedule_log_includes_boundaries_and_keyframes() {
    let points = vec![pt(0, 0.5), pt(100, 0.0)];
    let schedule = interpolated(points.clone());
    let boundaries: Vec<(u32, f32)> = points.iter().map(|p| (p.dt_ms, p.intensity)).collect();
    let log = format_schedule_log("dev-a", &labelled(&boundaries), &labelled(&schedule));
    assert!(log.contains("dev-a"));
    assert!(log.contains("2 boundary point(s)"));
    assert!(log.contains(&format!("{} keyframe(s)", schedule.len())));
    assert!(log.contains("0ms:0.50 -> 100ms:0.00"));
    assert!(log.contains("100ms:0.00"));
}

#[test]
fn format_schedule_log_empty_schedule_reports_zero_duration() {
    let log = format_schedule_log("dev-a", &vec![], &vec![]);
    assert!(log.contains("over 0ms"));
}

#[test]
fn schedule_report_is_written_out() {
    let boundaries = vec![(0, "0.50".to_string()), (40, "0.00".to_string())];
    let keyframes =
        vec![(0, "0.50".to_string()), (25, "0.19".to_string()), (40, "0.00".to_string())];
    let expected = "play device=\"a\\\"b\": 2 boundary point(s), 3 keyframe(s) over 40ms\n  \
                    boundaries: 0ms:0.50 -> 40ms:0.00\n  \
                    keyframes:  0ms:0.50 25ms:0.19 40ms:0.00";
    assert_eq!(format_schedule_log("a\"b", &boundaries, &keyframes), expected);
    assert_eq!(write_schedule_report("\"a\\\"b\"", &boundaries, &keyframes), expected);
}

#[test]
fn fractions_of_a_sequence_are_at_most_one() {
    for u in [[0x5a, 33, 0x7fff, 0, 0, 90, 400], [0x5b, 7, 0x8000, 0, 0, 0, 5]] {
        for length in [1u16, 100, 401] {
            for p in translate(&effect(FF_PERIODIC, length, u)) {
                let Intensity::Shaped { base, scale } = p.intensity else { continue };
                assert!(matches!(base, Base::Wave { t_ms, period_ms, .. }
                    if t_ms < period_ms as u32));
                match scale {
                    Scale::Full => {}
                    Scale::Attack { t_ms, length_ms, .. } => assert!(t_ms < length_ms as u32),
                    Scale::Fade { elapsed_ms, length_ms, .. } => {
                        assert!(elapsed_ms < length_ms as u32);
                        let left = length as u32 - p.dt_ms;
                        assert_eq!(elapsed_ms + left, (length_ms as u32).min(length as u32));
                    }
                }
            }
        }
    }
}
