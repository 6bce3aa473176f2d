use buttplug_core::message::{
    ButtplugClientMessageV4, ButtplugMessage, ButtplugMessageSpecVersion, OutputCmdV4,
    OutputCommand, OutputValue, PingV0, RequestDeviceListV0, RequestServerInfoV4, StartScanningV0,
    StopScanningV0,
};
use game_haptics_router::clock::Timestamp;
use game_haptics_router::gamepad::{advertised_effects, FakeGamepad, IdPool};
use game_haptics_router::harness::{
    command_deadline, device_map_json, gesture_deadline, judge_command, judge_gesture,
    judge_silence, name_complaint, step_failure, time_to_collect, verdict,
};
use game_haptics_router::protocol::{
    device_list_message, parse_messages, respond, ClientRequest, ReceivedCommand,
};
use game_haptics_router::scenarios::{rumble_effect, smoke_scenarios, FFEffectKind};
use game_haptics_router::settings::parse_device_map;
use game_haptics_router::timing::{
    assert_command_within_bound, assert_final_zero_within_bound, expected_end_time,
    no_command_error, wrong_stop_error, LATENCY_BOUND,
};

fn issue_time() -> Timestamp {
    Timestamp { nanos: 7_000_000_000 }
}

fn after(moment: Timestamp, ms: u64) -> Timestamp {
    Timestamp { nanos: moment.nanos + ms * 1_000_000 }
}

fn cmd(value: i32, at: Timestamp) -> ReceivedCommand {
    ReceivedCommand { device_index: 0, feature_index: 0, value, at }
}

// ── timing ──

#[test]
fn command_within_bound_is_found() {
    let issued = issue_time();
    let commands = vec![cmd(50, after(issued, 50))];
    assert!(assert_command_within_bound(issued, &commands).is_ok());
}

#[test]
fn command_outside_bound_is_rejected() {
    let issued = issue_time();
    let commands = vec![cmd(50, after(issued, 200))];
    let err = assert_command_within_bound(issued, &commands).unwrap_err();
    assert!(err.0.contains("150ms"));
}

#[test]
fn no_commands_at_all_is_rejected() {
    let issued = issue_time();
    let err = assert_command_within_bound(issued, &[]).unwrap_err();
    assert!(err.0.contains("no command received at all"));
}

#[test]
fn final_zero_within_bound_passes() {
    let issued = issue_time();
    let expected_end = expected_end_time(issued, 500);
    let commands = vec![cmd(80, after(issued, 10)), cmd(0, after(expected_end, 20))];
    assert!(assert_final_zero_within_bound(expected_end, &commands).is_ok());
}

#[test]
fn final_command_nonzero_is_rejected() {
    let issued = issue_time();
    let expected_end = expected_end_time(issued, 500);
    let commands = vec![cmd(80, expected_end)];
    let err = assert_final_zero_within_bound(expected_end, &commands).unwrap_err();
    assert!(err.0.contains("expected 0"));
}

#[test]
fn final_zero_outside_bound_is_rejected() {
    let issued = issue_time();
    let expected_end = expected_end_time(issued, 500);
    let commands = vec![cmd(0, after(expected_end, 300))];
    let err = assert_final_zero_within_bound(expected_end, &commands).unwrap_err();
    assert!(err.0.contains("bound"));
}

#[test]
fn expected_end_time_adds_replay_length_ms() {
    let issued = issue_time();
    let end = expected_end_time(issued, 500);
    assert_eq!(end.nanos - issued.nanos, 500_000_000);
}

#[test]
fn complaints_about_times_are_written_out() {
    let issued = issue_time();
    let late = vec![cmd(50, after(issued, 200)), cmd(50, after(issued, 151))];
    let err = assert_command_within_bound(issued, &late).unwrap_err();
    assert_eq!(err.message(), "no command arrived within 150ms of issue (actual: 200ms)");
    let err = assert_command_within_bound(issued, &[]).unwrap_err();
    assert_eq!(
        err.0,
        "no command arrived within 150ms of issue (actual: no command received at all)"
    );
    let err = assert_final_zero_within_bound(issued, &[]).unwrap_err();
    assert_eq!(err.0, "no commands received; cannot check final stop");
    let err = assert_final_zero_within_bound(issued, &[cmd(-7, issued)]).unwrap_err();
    assert_eq!(err.0, "final command value was -7, expected 0 (stop)");
    let early = Timestamp { nanos: issued.nanos - 150_500_000 };
    let err = assert_final_zero_within_bound(issued, &[cmd(0, early)]).unwrap_err();
    assert_eq!(
        err.0,
        "final stop command arrived 150.5ms from expected end time (bound 150ms)"
    );
    assert_eq!(
        no_command_error("x", "y").0,
        "no command arrived within x of issue (actual: y)"
    );
    assert_eq!(
        wrong_stop_error("x", "y").0,
        "final stop command arrived x from expected end time (bound y)"
    );
}

#[test]
fn bound_itself_is_in_time() {
    let issued = issue_time();
    assert_eq!(LATENCY_BOUND, 150_000_000);
    let on_time = cmd(1, Timestamp { nanos: issued.nanos + LATENCY_BOUND });
    let late = cmd(2, Timestamp { nanos: issued.nanos + LATENCY_BOUND + 1 });
    let before = cmd(3, Timestamp { nanos: issued.nanos - 1 });
    let commands = [late, on_time, before];
    assert_eq!(assert_command_within_bound(issued, &commands).unwrap().value, 1);
    assert_eq!(assert_command_within_bound(issued, &[late, before]).unwrap().value, 3);
    assert!(assert_command_within_bound(issued, &[late]).is_err());
    let stop = cmd(0, on_time.at);
    assert!(assert_final_zero_within_bound(issued, &[stop]).is_ok());
    assert!(assert_final_zero_within_bound(on_time.at, &[cmd(0, issued)]).is_ok());
    assert!(assert_final_zero_within_bound(late.at, &[cmd(0, issued)]).is_err());
}

// ── scenarios ──

#[test]
fn smoke_scenarios_has_three_distinct_named_cases() {
    let scenarios = smoke_scenarios();
    assert_eq!(scenarios.len(), 3);
    let names: Vec<_> = scenarios.iter().map(|s| s.name).collect();
    assert_eq!(names, vec!["ff_rumble", "ff_periodic_sine", "ff_constant_with_envelope"]);
}

#[test]
fn every_scenario_expected_end_matches_its_replay_length() {
    for s in smoke_scenarios() {
        assert_eq!(s.effect.replay.length, s.expected_end_ms);
    }
}

#[test]
fn rumble_of_the_tests_is_at_full_strength() {
    let effect = rumble_effect(200);
    assert_eq!(effect.replay.length, 200);
    assert_eq!(effect.replay.delay, 0);
    assert_eq!(effect.trigger.button, 0);
    assert!(matches!(
        effect.kind,
        FFEffectKind::Rumble { strong_magnitude: 0xffff, weak_magnitude: 0xffff }
    ));
    assert!(matches!(
        smoke_scenarios()[2].effect.kind,
        FFEffectKind::Constant { level: 0x7fff, envelope } if envelope.fade_length == 150
    ));
}

// ── protocol ──

fn exchange(message: ButtplugClientMessageV4) -> (Option<ReceivedCommand>, String) {
    let text = serde_json::to_string(&[&message]).unwrap();
    let requests = parse_messages(&text).unwrap();
    assert_eq!(requests.len(), 1);
    let response = respond(&requests[0], issue_time());
    (response.received, response.reply.unwrap().unwrap())
}

#[test]
fn handshake_then_output_cmd_is_captured() {
    let req = RequestServerInfoV4::new("test-client", ButtplugMessageSpecVersion::Version4, 0);
    let (received, reply) = exchange(ButtplugClientMessageV4::RequestServerInfo(req));
    assert!(received.is_none());
    assert!(reply.contains("ServerInfo"));

    let req = RequestDeviceListV0::default();
    let (received, reply_text) = exchange(ButtplugClientMessageV4::RequestDeviceList(req));
    assert!(received.is_none());
    assert!(reply_text.contains("DeviceList"));
    assert!(reply_text.contains("Vibrate"));

    let cmd = OutputCmdV4::new(0, 0, OutputCommand::Vibrate(OutputValue::new(42)));
    let (received, reply) = exchange(ButtplugClientMessageV4::OutputCmd(cmd));
    assert!(reply.contains("Ok"));
    let received = received.unwrap();
    assert_eq!(received.device_index, 0);
    assert_eq!(received.feature_index, 0);
    assert_eq!(received.value, 42);
}

#[test]
fn answers_bear_the_id_of_the_request() {
    let at = issue_time();
    let ok =
        ClientRequest::Output { id: 4_000_000_000, device_index: 2, feature_index: 3, value: -5 };
    let response = respond(&ok, at);
    assert_eq!(response.reply.unwrap().unwrap(), r#"[{"Ok":{"Id":4000000000}}]"#);
    assert_eq!(
        response.received,
        Some(ReceivedCommand { device_index: 2, feature_index: 3, value: -5, at })
    );
    let info = respond(&ClientRequest::ServerInfo { id: 1 }, at).reply.unwrap().unwrap();
    assert_eq!(
        info,
        "[{\"ServerInfo\":{\"Id\":1,\"ProtocolVersionMajor\":4,\"ProtocolVersionMinor\":0,\
         \"MaxPingTime\":0,\"ServerName\":\"fake-buttplug-server\"}}]"
    );
    let list = respond(&ClientRequest::DeviceList { id: 7 }, at).reply.unwrap().unwrap();
    assert_eq!(
        list,
        "[{\"DeviceList\":{\"Id\":7,\"Devices\":{\"0\":{\"DeviceIndex\":0,\
         \"DeviceName\":\"Fake Vibrator\",\"DeviceMessageTimingGap\":0,\"DeviceFeatures\":\
         {\"0\":{\"FeatureIndex\":0,\"FeatureDescription\":\"Fake Vibrator\",\"Output\":\
         {\"Vibrate\":{\"Value\":[0,100]}}}}}}}}]"
    );
    assert_eq!(device_list_message(7).unwrap(), list);
}

#[test]
fn messages_of_one_text_keep_their_order() {
    let mut info = RequestServerInfoV4::new("c", ButtplugMessageSpecVersion::Version4, 0);
    info.set_id(1);
    let mut list = RequestDeviceListV0::default();
    list.set_id(2);
    let mut output = OutputCmdV4::new(8, 9, OutputCommand::Vibrate(OutputValue::new(10)));
    output.set_id(3);
    let text = serde_json::to_string(&[
        &ButtplugClientMessageV4::RequestServerInfo(info),
        &ButtplugClientMessageV4::RequestDeviceList(list),
        &ButtplugClientMessageV4::OutputCmd(output),
        &ButtplugClientMessageV4::StartScanning(StartScanningV0::default()),
        &ButtplugClientMessageV4::StopScanning(StopScanningV0::default()),
        &ButtplugClientMessageV4::Ping(PingV0::default()),
    ])
    .unwrap();
    assert_eq!(
        parse_messages(&text).unwrap(),
        vec![
            ClientRequest::ServerInfo { id: 1 },
            ClientRequest::DeviceList { id: 2 },
            ClientRequest::Output { id: 3, device_index: 8, feature_index: 9, value: 10 },
            ClientRequest::StartScanning,
            ClientRequest::StopScanning,
            ClientRequest::Ping,
        ]
    );
    for unanswered in [
        ClientRequest::Ping,
        ClientRequest::StartScanning,
        ClientRequest::StopScanning,
        ClientRequest::Stop,
        ClientRequest::Input,
    ] {
        let silent = respond(&unanswered, issue_time());
        assert!(silent.received.is_none());
        assert!(silent.reply.is_none());
    }
}

#[test]
fn text_without_messages_is_refused() {
    assert!(!parse_messages("not json").unwrap_err().is_empty());
    assert!(parse_messages(r#"[{"Unheard":{"Id":1}}]"#).is_err());
    assert!(parse_messages("[]").unwrap().is_empty());
}

// ── gamepad ──

#[test]
fn gamepad_gives_the_lowest_free_id() {
    let mut pool = IdPool::new();
    for id in 0..16 {
        let answer = pool.upload();
        assert_eq!(answer.effect_id, Some(id));
        assert_eq!(answer.retval, 0);
    }
    let refused = pool.upload();
    assert_eq!(refused.effect_id, None);
    assert_eq!(refused.retval, -1);
    pool.erase(9);
    pool.erase(3);
    pool.erase(9);
    assert_eq!(pool.upload().effect_id, Some(3));
    assert_eq!(pool.upload().effect_id, Some(9));
    assert_eq!(pool.upload().effect_id, None);
    pool.erase(0x1_ffff);
    assert_eq!(pool.upload().effect_id, Some(-1));
}

#[test]
fn gamepad_offers_all_kinds_and_standard_waveforms() {
    assert_eq!(
        advertised_effects(),
        vec![0x50, 0x51, 0x52, 0x57, 0x58, 0x59, 0x5a, 0x5b, 0x5c]
    );
    let pad = FakeGamepad { device_node: "/dev/input/event7".to_string() };
    assert_eq!(pad.device_node, "/dev/input/event7");
}

// ── verdicts ──

#[test]
fn device_map_of_the_tests_isolates_the_second_gamepad() {
    let json = device_map_json("a", "b");
    assert_eq!(json, r#"{"a": null, "b": [99]}"#);
    let map = parse_device_map(&json).ok().unwrap();
    assert_eq!(map.get("a").unwrap(), &None);
    assert_eq!(map.get("b").unwrap(), &Some(vec![99]));
}

#[test]
fn commands_are_collected_until_the_deadline() {
    let now = issue_time();
    assert_eq!(time_to_collect(after(now, 2), now), Some(2_000_000));
    assert_eq!(time_to_collect(now, now), None);
    assert_eq!(time_to_collect(now, after(now, 1)), None);
    assert_eq!(gesture_deadline(now), after(now, 500));
    assert_eq!(command_deadline(now), after(now, 650));
}

#[test]
fn gestures_are_judged_by_first_and_last_command() {
    let issued = issue_time();
    let end = expected_end_time(issued, 300);
    let good = [cmd(100, after(issued, 5)), cmd(0, after(end, 5))];
    assert!(judge_gesture("g", issued, end, &good).is_empty());
    assert_eq!(
        judge_gesture("g", issued, end, &[]),
        vec![
            "g: no command arrived within 150ms of issue (actual: no command received at all)",
            "g: no commands received; cannot check final stop",
        ]
    );
    assert_eq!(
        judge_gesture("g", issued, end, &[cmd(9, after(issued, 1))]),
        vec!["g: final command value was 9, expected 0 (stop)"]
    );
    assert!(judge_command("g", issued, &good).is_empty());
    assert_eq!(judge_command("g", issued, &good[1..]).len(), 1);
}

#[test]
fn verdict_counts_the_complaints() {
    assert!(judge_silence("b", &[]).is_empty());
    assert_eq!(
        judge_silence("b", &[cmd(1, issue_time()), cmd(0, issue_time())]),
        vec!["b: expected no commands routed to a nonexistent target index, got 2"]
    );
    assert_eq!(step_failure("s", "play", "gone"), "s: play failed: gone");
    assert_eq!(name_complaint("s", "c"), "s: c");
    assert_eq!(verdict(&vec![]), Ok(()));
    assert_eq!(
        verdict(&vec!["x".to_string(), "y".to_string()]),
        Err("2 scenario(s) failed".to_string())
    );
}
