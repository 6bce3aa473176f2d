use game_haptics_router::app::{process_play, App, PlayOutcome, Reaction};
use game_haptics_router::clock::{Clock, Timestamp};
use game_haptics_router::device::{
    list_ff_devices, names_event_device, next_ff_event, stable_id, DeviceInfo, FfEvent, InputEvent,
    InputNode, OpenDevice,
};
use game_haptics_router::effect::{FfEffect, FF_RUMBLE};
use game_haptics_router::pending::{
    insert_pending, take_all_pending_matching_effect, take_pending_for_device, PendingPlay,
};
use game_haptics_router::probe::{Probe, ProbeReaction};
use game_haptics_router::store::{purge_effect_id, upsert_effect, EffectStore};
use game_haptics_router::table::DeviceTable;
use game_haptics_router::throttle::{interval_passed, Throttle, MIN_INTERVAL_MS};
use game_haptics_router::wire::EffectUploaded;
use std::time::{Duration, Instant};

fn rumble_effect(id: i16) -> FfEffect {
    FfEffect {
        kind: FF_RUMBLE,
        id,
        direction: 0,
        trigger_button: 0,
        trigger_interval: 0,
        replay_length: 100,
        replay_delay: 0,
        u: [0xffffu16, 0xffff, 0, 0, 0, 0, 0],
    }
}

fn dummy_effect() -> FfEffect {
    FfEffect {
        kind: 0,
        id: 0,
        direction: 0,
        trigger_button: 0,
        trigger_interval: 0,
        replay_length: 0,
        replay_delay: 0,
        u: [0u16; 7],
    }
}

fn uploaded(tgid: u32, effect_id: i16, effect: FfEffect) -> EffectUploaded {
    EffectUploaded { tgid, effect_id, effect }
}

fn play(app: &mut App, device: &str, effect_id: i16) -> Reaction {
    app.handle_ff_event(device.to_string(), FfEvent::Play { effect_id })
}

// ── effect store ──

#[test]
fn upsert_replaces_same_tgid_and_id() {
    let mut store = EffectStore::new();
    upsert_effect(&mut store, 1, 5, dummy_effect());
    upsert_effect(&mut store, 1, 5, dummy_effect());
    assert_eq!(store.len(), 1);
    assert!(store.contains_key(1, 5));
}

#[test]
fn upsert_evicts_other_tgid_with_same_effect_id() {
    let mut store = EffectStore::new();
    upsert_effect(&mut store, 1, 5, dummy_effect());
    upsert_effect(&mut store, 2, 5, dummy_effect());
    assert_eq!(store.len(), 1);
    assert!(!store.contains_key(1, 5));
    assert!(store.contains_key(2, 5));
}

#[test]
fn upsert_keeps_other_effect_ids_for_same_tgid() {
    let mut store = EffectStore::new();
    upsert_effect(&mut store, 1, 5, dummy_effect());
    upsert_effect(&mut store, 1, 6, dummy_effect());
    upsert_effect(&mut store, 1, 5, dummy_effect());
    assert_eq!(store.len(), 2);
    assert!(store.contains_key(1, 5));
    assert!(store.contains_key(1, 6));
}

#[test]
fn purge_effect_id_removes_regardless_of_tgid() {
    let mut store = EffectStore::new();
    store.insert(1, 5, dummy_effect());
    store.insert(2, 7, dummy_effect());
    purge_effect_id(&mut store, 5);
    assert_eq!(store.len(), 1);
    assert!(store.contains_key(2, 7));
}

#[test]
fn effects_are_found_by_the_id_that_they_bear() {
    let mut store = EffectStore::new();
    store.insert(1, 5, rumble_effect(8));
    assert!(store.find(5).is_none());
    assert_eq!(store.find(8).unwrap().id, 8);
    store.insert(1, 5, dummy_effect());
    assert_eq!(store.len(), 1);
    assert!(store.find(8).is_none());
}

// ── pending plays ──

fn pending_play(effect_id: i16) -> PendingPlay {
    PendingPlay { effect_id, issued_at: Instant::now() }
}

#[test]
fn insert_pending_overwrites_existing_for_same_device() {
    let mut pending = DeviceTable::new();
    insert_pending(&mut pending, "dev-a".to_string(), 5, Instant::now());
    insert_pending(&mut pending, "dev-a".to_string(), 9, Instant::now());
    assert_eq!(pending.len(), 1);
    assert_eq!(pending.get("dev-a").unwrap().effect_id, 9);
}

#[test]
fn take_pending_for_device_removes_and_returns() {
    let mut pending = DeviceTable::new();
    pending.insert("dev-a".to_string(), pending_play(5));
    let taken = take_pending_for_device(&mut pending, "dev-a");
    assert_eq!(taken.map(|p| p.effect_id), Some(5));
    assert!(pending.is_empty());
}

#[test]
fn take_pending_for_device_missing_returns_none() {
    let mut pending: DeviceTable<PendingPlay> = DeviceTable::new();
    assert!(take_pending_for_device(&mut pending, "dev-a").is_none());
}

#[test]
fn take_all_pending_matching_effect_returns_every_device_with_that_id() {
    let mut pending = DeviceTable::new();
    pending.insert("dev-a".to_string(), pending_play(5));
    pending.insert("dev-b".to_string(), pending_play(5));
    pending.insert("dev-c".to_string(), pending_play(9));
    let mut taken = take_all_pending_matching_effect(&mut pending, 5);
    taken.sort_by(|a, b| a.0.cmp(&b.0));
    assert_eq!(taken.len(), 2);
    assert_eq!(taken[0].0, "dev-a");
    assert_eq!(taken[1].0, "dev-b");
    assert_eq!(pending.len(), 1);
    assert!(pending.contains_key("dev-c"));
}

#[test]
fn take_all_pending_matching_effect_no_match_returns_empty() {
    let mut pending = DeviceTable::new();
    pending.insert("dev-a".to_string(), pending_play(5));
    let taken = take_all_pending_matching_effect(&mut pending, 9);
    assert!(taken.is_empty());
    assert_eq!(pending.len(), 1);
}

#[test]
fn device_table_keeps_one_value_for_each_id() {
    let mut table = DeviceTable::new();
    assert_eq!(table.insert("a".to_string(), 1u64), None);
    assert_eq!(table.insert("b".to_string(), 2), None);
    assert_eq!(table.insert("a".to_string(), 3), Some(1));
    assert_eq!(table.len(), 2);
    let mut walked: Vec<(String, u64)> = (0..table.len())
        .map(|i| {
            let (id, value) = table.entry(i);
            (id.clone(), *value)
        })
        .collect();
    walked.sort();
    assert_eq!(walked, vec![("a".to_string(), 3), ("b".to_string(), 2)]);
    assert_eq!(table.remove("a"), Some(3));
    assert_eq!(table.remove("a"), None);
    assert_eq!(table.get("b"), Some(&2));
}

// ── daemon ──

#[test]
fn play_miss_creates_pending_entry_and_does_not_schedule() {
    let mut app = App::new();
    let reaction = play(&mut app, "dev-a", 5);
    assert_eq!(app.pending_count(), 1);
    match reaction {
        Reaction::Held { device_id, known_effects } => {
            assert_eq!(device_id, "dev-a");
            assert_eq!(known_effects, 0);
        }
        _ => panic!("not held"),
    }
}

#[test]
fn upload_resolves_pending_play_and_schedules() {
    let mut app = App::new();
    play(&mut app, "dev-a", 5);
    let resolved = app.handle_effect_uploaded(&uploaded(1, 5, rumble_effect(5)));
    assert_eq!(app.pending_count(), 0);
    assert_eq!(resolved.len(), 1);
    assert_eq!(resolved[0].device_id, "dev-a");
    assert_eq!(resolved[0].play.effect_id, 5);
    match &resolved[0].outcome {
        PlayOutcome::Scheduled { points } => assert_eq!(points.len(), 2),
        other => panic!("{:?}", other),
    }
}

#[test]
fn upload_resolves_every_device_pending_on_the_same_effect_id() {
    let mut app = App::new();
    play(&mut app, "dev-a", 5);
    play(&mut app, "dev-b", 5);
    let resolved = app.handle_effect_uploaded(&uploaded(1, 5, rumble_effect(5)));
    assert_eq!(app.pending_count(), 0);
    let scheduled: Vec<_> = resolved
        .iter()
        .filter(|r| matches!(r.outcome, PlayOutcome::Scheduled { .. }))
        .collect();
    assert_eq!(scheduled.len(), 2);
    let devices: std::collections::HashSet<_> =
        scheduled.iter().map(|r| r.device_id.clone()).collect();
    assert!(devices.contains("dev-a"));
    assert!(devices.contains("dev-b"));
}

#[test]
fn stop_clears_pending_play_for_that_device() {
    let mut app = App::new();
    play(&mut app, "dev-a", 5);
    let reaction = app.handle_ff_event("dev-a".to_string(), FfEvent::Stop { effect_id: 5 });
    assert_eq!(app.pending_count(), 0);
    match reaction {
        Reaction::Stopped { device_id, cleared } => {
            assert_eq!(device_id, "dev-a");
            assert_eq!(cleared.map(|p| p.effect_id), Some(5));
        }
        _ => panic!("not stopped"),
    }
    let resolved = app.handle_effect_uploaded(&uploaded(1, 5, rumble_effect(5)));
    assert!(resolved.is_empty());
}

#[test]
fn erase_clears_pending_play_for_that_effect_id() {
    let mut app = App::new();
    play(&mut app, "dev-a", 5);
    let cleared = app.handle_effect_erased(1, 5);
    assert_eq!(app.pending_count(), 0);
    assert_eq!(cleared.len(), 1);
    assert_eq!(cleared[0].0, "dev-a");
}

#[test]
fn play_with_immediate_match_processes_without_pending() {
    let mut app = App::new();
    app.handle_effect_uploaded(&uploaded(1, 5, rumble_effect(5)));
    let reaction = play(&mut app, "dev-a", 5);
    assert_eq!(app.pending_count(), 0);
    assert!(matches!(
        reaction,
        Reaction::Played { outcome: PlayOutcome::Scheduled { .. }, .. }
    ));
}

#[test]
fn play_too_soon_is_dropped_and_does_not_wait() {
    let mut app = App::new();
    let at_ms = |ms: u64| Timestamp { nanos: ms * 1_000_000 };
    let play_at = |app: &mut App, now: Timestamp| {
        let event = FfEvent::Play { effect_id: 5 };
        app.ff_event_at("dev-a".to_string(), event, now, Instant::now())
    };
    app.effect_uploaded_at(&uploaded(1, 5, rumble_effect(5)), at_ms(0));
    let first = play_at(&mut app, at_ms(0));
    assert!(matches!(first, Reaction::Played { outcome: PlayOutcome::Scheduled { .. }, .. }));
    // What counts is when the sequence was recorded, after it was handed to playback.
    app.reaction_performed_at(&first, at_ms(3));
    let second = play_at(&mut app, Timestamp { nanos: 12_999_999 });
    assert!(matches!(second, Reaction::Played { outcome: PlayOutcome::Throttled, .. }));
    assert_eq!(app.pending_count(), 0);
    let third = play_at(&mut app, at_ms(13));
    assert!(matches!(third, Reaction::Played { outcome: PlayOutcome::Scheduled { .. }, .. }));
}

#[test]
fn sequences_are_recorded_apart() {
    let mut app = App::new();
    app.handle_effect_uploaded(&uploaded(1, 5, rumble_effect(5)));
    let scheduled = |reaction: &Reaction| {
        matches!(reaction, Reaction::Played { outcome: PlayOutcome::Scheduled { .. }, .. })
    };
    let first = play(&mut app, "dev-a", 5);
    assert!(scheduled(&first));
    app.reaction_performed(&first);
    let recorded = Instant::now();
    let second = play(&mut app, "dev-b", 5);
    assert!(!scheduled(&second));
    // A dropped play leaves the recorded moment as it is.
    app.reaction_performed(&second);
    while recorded.elapsed() < Duration::from_millis(11) {}
    assert!(scheduled(&play(&mut app, "dev-b", 5)));
}

#[test]
fn plays_resolved_by_an_upload_are_throttled_together() {
    let mut app = App::new();
    play(&mut app, "dev-a", 5);
    play(&mut app, "dev-b", 5);
    play(&mut app, "dev-c", 6);
    let at_ms = |ms: u64| Timestamp { nanos: ms * 1_000_000 };
    let first = app.effect_uploaded_at(&uploaded(1, 6, rumble_effect(6)), at_ms(0));
    assert!(matches!(first[0].outcome, PlayOutcome::Scheduled { .. }));
    app.upload_performed_at(&first, at_ms(1));
    let resolved = app.effect_uploaded_at(&uploaded(1, 5, rumble_effect(5)), at_ms(2));
    assert_eq!(resolved.len(), 2);
    assert!(resolved.iter().all(|r| matches!(r.outcome, PlayOutcome::Throttled)));
    assert_eq!(app.pending_count(), 0);
    // Nothing was started, so that what was recorded first still counts.
    app.upload_performed_at(&resolved, at_ms(9));
    play(&mut app, "dev-a", 7);
    let resolved = app.effect_uploaded_at(&uploaded(1, 7, rumble_effect(7)), at_ms(11));
    assert!(matches!(resolved[0].outcome, PlayOutcome::Scheduled { .. }));
}

#[test]
fn started_sequence_counts_before_it_is_performed() {
    let mut app = App::new();
    let at_ms = |ms: u64| Timestamp { nanos: ms * 1_000_000 };
    let play_at = |app: &mut App, now: Timestamp| {
        let event = FfEvent::Play { effect_id: 5 };
        app.ff_event_at("dev-a".to_string(), event, now, Instant::now())
    };
    play(&mut app, "dev-b", 5);
    let resolved = app.effect_uploaded_at(&uploaded(1, 5, rumble_effect(5)), at_ms(4));
    assert_eq!(resolved.len(), 1);
    let soon = play_at(&mut app, at_ms(13));
    assert!(matches!(soon, Reaction::Played { outcome: PlayOutcome::Throttled, .. }));
    let later = play_at(&mut app, at_ms(14));
    assert!(matches!(later, Reaction::Played { outcome: PlayOutcome::Scheduled { .. }, .. }));
}

#[test]
fn performing_an_upload_records_when_it_was_done() {
    let mut app = App::new();
    play(&mut app, "dev-a", 5);
    let resolved = app.handle_effect_uploaded(&uploaded(1, 5, rumble_effect(5)));
    while Instant::now().duration_since(resolved[0].play.issued_at) < Duration::from_millis(11) {}
    app.upload_performed(&resolved);
    let reaction = play(&mut app, "dev-b", 5);
    assert!(matches!(reaction, Reaction::Played { outcome: PlayOutcome::Throttled, .. }));
}

#[test]
fn effect_without_points_starts_nothing() {
    let mut app = App::new();
    let mut effect = dummy_effect();
    effect.id = 5;
    app.handle_effect_uploaded(&uploaded(1, 5, effect));
    let reaction = play(&mut app, "dev-a", 5);
    assert!(matches!(
        reaction,
        Reaction::Played { outcome: PlayOutcome::NoPoints { kind: 0 }, .. }
    ));
    app.reaction_performed(&reaction);
    // Nothing was started, so the next play is not too soon.
    app.handle_effect_uploaded(&uploaded(1, 6, rumble_effect(6)));
    let reaction = play(&mut app, "dev-a", 6);
    assert!(matches!(
        reaction,
        Reaction::Played { outcome: PlayOutcome::Scheduled { .. }, .. }
    ));
}

#[test]
fn latest_upload_of_an_id_is_played() {
    let mut app = App::new();
    let mut longer = rumble_effect(5);
    longer.replay_length = 700;
    app.handle_effect_uploaded(&uploaded(1, 5, rumble_effect(5)));
    app.handle_effect_uploaded(&uploaded(2, 5, longer));
    match play(&mut app, "dev-a", 5) {
        Reaction::Played { outcome: PlayOutcome::Scheduled { points }, .. } => {
            assert_eq!(points.last().unwrap().dt_ms, 700);
        }
        _ => panic!("not played"),
    }
}

#[test]
fn newer_waiting_play_replaces_older() {
    let mut app = App::new();
    play(&mut app, "dev-a", 5);
    play(&mut app, "dev-a", 9);
    assert_eq!(app.pending_count(), 1);
    assert!(app.handle_effect_uploaded(&uploaded(1, 5, rumble_effect(5))).is_empty());
    assert_eq!(app.pending_count(), 1);
    let resolved = app.handle_effect_uploaded(&uploaded(1, 9, rumble_effect(9)));
    assert_eq!(resolved.len(), 1);
}

#[test]
fn play_of_a_known_effect_forgets_the_waiting_one() {
    let mut app = App::new();
    play(&mut app, "dev-a", 5);
    app.handle_effect_uploaded(&uploaded(1, 7, rumble_effect(7)));
    assert_eq!(app.pending_count(), 1);
    play(&mut app, "dev-a", 7);
    assert_eq!(app.pending_count(), 0);
    assert!(app.handle_effect_uploaded(&uploaded(1, 5, rumble_effect(5))).is_empty());
}

#[test]
fn stopped_or_erased_effect_is_unknown() {
    let mut app = App::new();
    app.handle_effect_uploaded(&uploaded(1, 5, rumble_effect(5)));
    app.handle_ff_event("dev-b".to_string(), FfEvent::Stop { effect_id: 5 });
    assert!(matches!(play(&mut app, "dev-a", 5), Reaction::Held { .. }));
    app.handle_effect_uploaded(&uploaded(1, 6, rumble_effect(6)));
    app.handle_effect_erased(9, 6);
    assert!(matches!(play(&mut app, "dev-a", 6), Reaction::Held { known_effects: 0, .. }));
}

#[test]
fn stop_and_erase_leave_other_plays_waiting() {
    let mut app = App::new();
    play(&mut app, "dev-a", 5);
    play(&mut app, "dev-b", 5);
    play(&mut app, "dev-c", 6);
    app.handle_ff_event("dev-a".to_string(), FfEvent::Stop { effect_id: 5 });
    assert_eq!(app.pending_count(), 2);
    assert_eq!(app.handle_effect_erased(1, 6).len(), 1);
    assert_eq!(app.handle_effect_erased(1, 6).len(), 0);
    let resolved = app.handle_effect_uploaded(&uploaded(1, 5, rumble_effect(5)));
    assert_eq!(resolved.len(), 1);
    assert_eq!(resolved[0].device_id, "dev-b");
}

fn info(device_id: &str, path: &str) -> DeviceInfo {
    DeviceInfo {
        device_id: device_id.to_string(),
        name: "Pad".to_string(),
        path: path.to_string(),
    }
}

#[test]
fn rescan_reads_new_and_moved_devices_once() {
    let mut app = App::new();
    let first = app.spawn_reader(&info("a", "/dev/input/event1"));
    assert_eq!(first.device_id, "a");
    assert_eq!(first.path, "/dev/input/event1");
    let listed = Some(vec![info("a", "/dev/input/event1"), info("b", "/dev/input/event2")]);
    let readers = app.rescan_devices(&listed);
    assert_eq!(readers.len(), 1);
    assert_eq!(readers[0].device_id, "b");
    assert!(app.rescan_devices(&listed).is_empty());
    assert!(app.rescan_devices(&None).is_empty());
    let moved = Some(vec![info("a", "/dev/input/event9")]);
    let readers = app.rescan_devices(&moved);
    assert_eq!(readers.len(), 1);
    assert_eq!(readers[0].path, "/dev/input/event9");
    assert_eq!(readers[0].name, info("a", "/dev/input/event9").name);
    assert!(app.rescan_devices(&moved).is_empty());
}

// ── plain probe ──

#[test]
fn plain_probe_drops_plays_of_unknown_effects() {
    let mut probe = Probe::new();
    let reaction = probe.handle_ff_event(FfEvent::Play { effect_id: 5 });
    assert!(matches!(reaction, ProbeReaction::Unknown { known_effects: 0 }));
    probe.handle_effect_uploaded(&uploaded(1, 5, rumble_effect(5)));
    let reaction = probe.handle_ff_event(FfEvent::Play { effect_id: 5 });
    assert!(matches!(
        reaction,
        ProbeReaction::Played { outcome: PlayOutcome::Scheduled { .. } }
    ));
    let early = Timestamp { nanos: 0 };
    let late = Timestamp { nanos: u64::MAX };
    probe.reaction_performed(&reaction);
    probe.reaction_performed_at(&reaction, Timestamp { nanos: 1 });
    let reaction = probe.ff_event_at(FfEvent::Play { effect_id: 5 }, early);
    assert!(matches!(reaction, ProbeReaction::Played { outcome: PlayOutcome::Throttled }));
    let reaction = probe.handle_ff_event(FfEvent::Stop { effect_id: 5 });
    assert!(matches!(reaction, ProbeReaction::Stop));
    let reaction = probe.handle_ff_event(FfEvent::Play { effect_id: 5 });
    assert!(matches!(reaction, ProbeReaction::Unknown { .. }));
    probe.handle_effect_uploaded(&uploaded(1, 0, dummy_effect()));
    let reaction = probe.ff_event_at(FfEvent::Play { effect_id: 0 }, late);
    assert!(matches!(reaction, ProbeReaction::Played { outcome: PlayOutcome::NoPoints { .. } }));
}

// ── throttle ──

#[test]
fn first_haptic_always_emitted() {
    let mut t = Throttle::new();
    assert!(t.should_emit_haptic());
}

#[test]
fn second_haptic_blocked_within_10ms() {
    let mut t = Throttle::new();
    t.record_haptic_emitted();
    assert!(!t.should_emit_haptic());
}

#[test]
fn haptic_allowed_after_10ms() {
    let mut t = Throttle::new();
    t.record_haptic_emitted();
    let start = Instant::now();
    while start.elapsed() < Duration::from_millis(11) {}
    assert!(t.should_emit_haptic());
}

#[test]
fn stop_always_bypasses_throttle() {
    let mut t = Throttle::new();
    t.record_haptic_emitted();
    assert!(!t.should_emit_haptic());
}

#[test]
fn clock_goes_forward() {
    let mut clock = Clock::new();
    let first = clock.read();
    let start = Instant::now();
    while start.elapsed() < Duration::from_millis(2) {}
    let second = clock.read();
    assert!(second.saturating_duration_since(first) >= 2_000_000);
    assert_eq!(first.saturating_duration_since(second), 0);
}

#[test]
fn interval_is_ten_milliseconds() {
    assert_eq!(MIN_INTERVAL_MS, 10);
    assert!(!interval_passed(9_999_999));
    assert!(interval_passed(10_000_000));
    let mut t = Throttle::new();
    assert!(t.admits_at(Timestamp { nanos: 0 }));
    t.record_at(Timestamp { nanos: 50 });
    assert!(!t.admits_at(Timestamp { nanos: 10_000_049 }));
    assert!(t.admits_at(Timestamp { nanos: 10_000_050 }));
    assert!(!t.admits_at(Timestamp { nanos: 0 }));
}

// ── devices ──

fn node(path: &str, device: Option<OpenDevice>) -> InputNode {
    InputNode {
        unicode_path: Some(path.to_string()),
        path: path.to_string(),
        file_name: path.rsplit('/').next().unwrap().to_string(),
        device,
    }
}

fn pad(force_feedback: bool, phys: Option<&str>, name: Option<&str>) -> Option<OpenDevice> {
    Some(OpenDevice {
        force_feedback,
        physical_path: phys.map(|p| p.to_string()),
        name: name.map(|n| n.to_string()),
    })
}

#[test]
fn devices_with_force_feedback_are_listed() {
    let mut strange = node("/dev/input/event6", pad(true, Some("x"), None));
    strange.unicode_path = None;
    let nodes = vec![
        node("/dev/input/event1", pad(true, Some("usb-1/input0"), Some("Pad"))),
        node("/dev/input/event2", pad(false, Some("usb-2/input0"), Some("Keyboard"))),
        node("/dev/input/mouse0", pad(true, Some("usb-3/input0"), Some("Mouse"))),
        node("/dev/input/event4", None),
        node("/dev/input/event5", pad(true, Some(""), None)),
        strange,
    ];
    let listed = list_ff_devices(&nodes);
    let found: Vec<(&str, &str, &str)> = listed
        .iter()
        .map(|i| (i.device_id.as_str(), i.name.as_str(), i.path.as_str()))
        .collect();
    assert_eq!(
        found,
        vec![
            ("usb-1/input0", "Pad", "/dev/input/event1"),
            ("event5", "Unknown", "/dev/input/event5"),
        ]
    );
}

#[test]
fn event_devices_are_told_by_their_path() {
    assert!(names_event_device(&Some("/dev/input/event12".to_string())));
    assert!(names_event_device(&Some("event".to_string())));
    assert!(!names_event_device(&Some("/dev/input/even".to_string())));
    assert!(!names_event_device(&Some("".to_string())));
    assert!(!names_event_device(&None));
}

#[test]
fn physical_path_identifies_a_device() {
    let name = "event3".to_string();
    assert_eq!(stable_id(&Some("usb-1".to_string()), &name), "usb-1");
    assert_eq!(stable_id(&Some("".to_string()), &name), "event3");
    assert_eq!(stable_id(&None, &name), "event3");
}

#[test]
fn first_force_feedback_event_of_a_batch_counts() {
    let other = InputEvent { event_type: 0x03, code: 9, value: 1 };
    let play = InputEvent { event_type: 0x15, code: 5, value: 1 };
    let stop = InputEvent { event_type: 0x15, code: 0xffff, value: 0 };
    let twice = InputEvent { event_type: 0x15, code: 6, value: -2 };
    assert_eq!(next_ff_event(&vec![other, play, stop]), Some(FfEvent::Play { effect_id: 5 }));
    assert_eq!(next_ff_event(&vec![stop, play]), Some(FfEvent::Stop { effect_id: -1 }));
    assert_eq!(next_ff_event(&vec![twice]), Some(FfEvent::Play { effect_id: 6 }));
    assert_eq!(next_ff_event(&vec![other, other]), None);
    assert_eq!(next_ff_event(&vec![]), None);
}

#[test]
fn stop_is_never_throttled() {
    let mut app = App::new();
    app.handle_effect_uploaded(&uploaded(1, 5, rumble_effect(5)));
    let played = play(&mut app, "dev-a", 5);
    assert!(matches!(played, Reaction::Played { .. }));
    let stop = FfEvent::Stop { effect_id: 5 };
    assert!(matches!(
        app.handle_ff_event("dev-a".to_string(), stop),
        Reaction::Stopped { cleared: None, .. }
    ));
    let now = Timestamp { nanos: 0 };
    app.reaction_performed_at(&played, now);
    assert!(matches!(
        app.ff_event_at("dev-a".to_string(), stop, now, Instant::now()),
        Reaction::Stopped { .. }
    ));
}

#[test]
fn nothing_waits_for_a_known_effect() {
    let mut app = App::new();
    for round in 0..3 {
        play(&mut app, "dev-a", 5);
        play(&mut app, "dev-b", 5);
        assert_eq!(app.pending_count(), 2);
        app.handle_effect_uploaded(&uploaded(round, 5, rumble_effect(5)));
        assert_eq!(app.pending_count(), 0);
        play(&mut app, "dev-c", 5);
        assert_eq!(app.pending_count(), 0);
        app.handle_effect_erased(round, 5);
    }
}

#[test]
fn clock_shows_the_largest_reading_that_fits() {
    let mut clock = Clock::new();
    assert_eq!(clock.show(5).nanos, 5);
    assert_eq!(clock.show(3).nanos, 5);
    assert_eq!(clock.show(7).nanos, 7);
    assert_eq!(clock.show(u64::MAX as u128 + 1).nanos, u64::MAX);
    assert_eq!(clock.read().nanos, u64::MAX);
}

#[test]
fn only_a_started_sequence_is_recorded() {
    let now = Timestamp { nanos: 20_000_000 };
    let soon = Timestamp { nanos: 29_999_999 };
    let mut throttle = Throttle::new();
    let none = process_play(&mut throttle, &dummy_effect(), now, true);
    assert!(matches!(none, PlayOutcome::NoPoints { .. }));
    assert!(throttle.admits_at(soon));
    let dropped = process_play(&mut throttle, &rumble_effect(5), now, false);
    assert!(matches!(dropped, PlayOutcome::Throttled));
    assert!(throttle.admits_at(soon));
    let started = process_play(&mut throttle, &rumble_effect(5), now, true);
    assert!(matches!(started, PlayOutcome::Scheduled { points } if points.len() == 2));
    assert!(!throttle.admits_at(soon));
    assert!(throttle.admits_at(Timestamp { nanos: 30_000_000 }));
}

#[test]
fn rescan_reads_new_and_moved_devices_in_their_order() {
    let mut app = App::new();
    app.rescan_devices(&Some(vec![info("a", "/1"), info("b", "/2"), info("c", "/3")]));
    let listed = Some(vec![info("d", "/4"), info("b", "/2"), info("a", "/9")]);
    let readers = app.rescan_devices(&listed);
    let read: Vec<_> = readers.iter().map(|r| (r.device_id.as_str(), r.path.as_str())).collect();
    assert_eq!(read, vec![("d", "/4"), ("a", "/9")]);
    // A device that is no longer listed is still read.
    assert!(app.rescan_devices(&Some(vec![info("c", "/3")])).is_empty());
}
