use game_haptics_router::capture::{
    capture_effect, classify, effect_id_address, effect_key, try_enter, try_exit, EnterScratch,
    Entered, Exited, Request,
};
use game_haptics_router::effect::{
    Envelope, FfEffect, Waveform, FF_CONSTANT, FF_PERIODIC, FF_RAMP, FF_RUMBLE,
};
use game_haptics_router::ioctl::{eviocrmff_nr, eviocsff_nr, EVIOCRMFF_NR, EVIOCSFF_NR};
use game_haptics_router::wire::{
    decode_event, decode_untagged_event, encode_event, encode_untagged_event, message_of,
    read_message, ProbeEvent, ProbeEventMsg, PROBE_EVENT_KIND_ERASED, PROBE_EVENT_KIND_UPLOADED,
    PROBE_EVENT_SIZE, UNTAGGED_EVENT_SIZE,
};
use game_haptics_router::words::{read_double_word, read_word, to_signed, to_unsigned};

#[test]
fn waveform_from_u16_round_trips_known_values() {
    assert_eq!(Waveform::from_u16(0x58), Some(Waveform::Square));
    assert_eq!(Waveform::from_u16(0x59), Some(Waveform::Triangle));
    assert_eq!(Waveform::from_u16(0x5a), Some(Waveform::Sine));
    assert_eq!(Waveform::from_u16(0x5b), Some(Waveform::SawUp));
    assert_eq!(Waveform::from_u16(0x5c), Some(Waveform::SawDown));
    assert_eq!(Waveform::from_u16(0x5d), Some(Waveform::Custom));
}

#[test]
fn waveform_from_u16_rejects_unknown_values() {
    assert_eq!(Waveform::from_u16(0), None);
    assert_eq!(Waveform::from_u16(0x57), None);
    assert_eq!(Waveform::from_u16(0x5e), None);
    assert_eq!(Waveform::from_u16(u16::MAX), None);
}

#[test]
fn waveform_code_is_read_back() {
    for code in 0x58..=0x5d {
        assert_eq!(Waveform::from_u16(code).unwrap().as_u16(), code);
    }
}

#[test]
fn envelope_default_is_zeroed() {
    let e = Envelope::default();
    assert_eq!(e.attack_length, 0);
    assert_eq!(e.attack_level, 0);
    assert_eq!(e.fade_length, 0);
    assert_eq!(e.fade_level, 0);
}

#[test]
fn eviocsff_nr_matches_strace_verified_value() {
    assert_eq!(EVIOCSFF_NR, 0x4030_4580);
    assert_eq!(eviocsff_nr(), 0x4030_4580);
}

#[test]
fn ff_type_constants_match_linux_uapi_input_event_codes_h() {
    assert_eq!(FF_RUMBLE, 0x50);
    assert_eq!(FF_PERIODIC, 0x51);
    assert_eq!(FF_CONSTANT, 0x52);
    assert_eq!(FF_RAMP, 0x57);
}

#[test]
fn ff_effect_default_is_zeroed() {
    let e = FfEffect::default();
    assert_eq!(e.kind, 0);
    assert_eq!(e.id, 0);
    assert_eq!(e.direction, 0);
    assert_eq!(e.trigger_button, 0);
    assert_eq!(e.trigger_interval, 0);
    assert_eq!(e.replay_length, 0);
    assert_eq!(e.replay_delay, 0);
    assert_eq!(e.u, [0u16; 7]);
}

#[test]
fn eviocrmff_nr_matches_the_ioc_write_e_0x81_int_macro_definition() {
    assert_eq!(EVIOCRMFF_NR, 0x4004_4581);
    assert_eq!(eviocrmff_nr(), 0x4004_4581);
}

#[test]
fn probe_event_kind_constants_are_distinct() {
    assert_ne!(PROBE_EVENT_KIND_UPLOADED, PROBE_EVENT_KIND_ERASED);
}

#[test]
fn words_are_little_endian_and_signed_by_complement() {
    let bytes = [0x34u8, 0x12, 0x78, 0x56];
    assert_eq!(read_word(&bytes, 0), 0x1234);
    assert_eq!(read_double_word(&bytes, 0), 0x5678_1234);
    assert_eq!(to_signed(0x7fff), 32767);
    assert_eq!(to_signed(0x8000), -32768);
    assert_eq!(to_signed(0xffff), -1);
    assert_eq!(to_unsigned(-1), 0xffff);
    for value in [-32768i16, -2, 0, 1, 32767] {
        assert_eq!(to_signed(to_unsigned(value)), value);
    }
}

fn some_effect() -> FfEffect {
    FfEffect {
        kind: FF_PERIODIC,
        id: -3,
        direction: 0x4000,
        trigger_button: 7,
        trigger_interval: 9,
        replay_length: 500,
        replay_delay: 20,
        u: [0x5a, 100, 0x7fff, 0x8001, 5, 6, 0xfffe],
    }
}

fn assert_same_effect(a: &FfEffect, b: &FfEffect) {
    assert_eq!(a.kind, b.kind);
    assert_eq!(a.id, b.id);
    assert_eq!(a.direction, b.direction);
    assert_eq!(a.trigger_button, b.trigger_button);
    assert_eq!(a.trigger_interval, b.trigger_interval);
    assert_eq!(a.replay_length, b.replay_length);
    assert_eq!(a.replay_delay, b.replay_delay);
    assert_eq!(a.u, b.u);
}

#[test]
fn written_event_is_read_back() {
    let event = ProbeEvent {
        kind: PROBE_EVENT_KIND_UPLOADED,
        tgid: 0x0102_0304,
        effect_id: -3,
        _pad: 0xabcd,
        effect: some_effect(),
    };
    let bytes = encode_event(&event);
    assert_eq!(bytes.len(), PROBE_EVENT_SIZE);
    assert_eq!(&bytes[..12], &[0, 0, 0, 0, 4, 3, 2, 1, 0xfd, 0xff, 0xcd, 0xab]);
    let read = decode_event(&bytes).unwrap();
    assert_eq!(read.kind, event.kind);
    assert_eq!(read.tgid, event.tgid);
    assert_eq!(read.effect_id, event.effect_id);
    assert_eq!(read._pad, event._pad);
    assert_same_effect(&read.effect, &event.effect);
}

#[test]
fn event_sizes_are_those_of_the_structs() {
    assert_eq!(PROBE_EVENT_SIZE, 40);
    assert_eq!(UNTAGGED_EVENT_SIZE, 36);
    assert!(decode_event(&[0u8; 39]).is_none());
    assert!(decode_event(&[0u8; 40]).is_some());
    assert!(decode_event(&[0u8; 41]).is_some());
    assert!(decode_untagged_event(&[0u8; 35]).is_none());
    assert!(decode_untagged_event(&[0u8; 36]).is_some());
    assert!(read_message(&[0u8; 39]).is_none());
}

#[test]
fn untagged_event_is_an_upload() {
    let event = ProbeEvent {
        kind: 0,
        tgid: 77,
        effect_id: 5,
        _pad: 0,
        effect: some_effect(),
    };
    // Without the kind and its padding the layout is the same.
    let bytes = encode_event(&event);
    let uploaded = decode_untagged_event(&bytes[4..]).unwrap();
    assert_eq!(encode_untagged_event(&uploaded), bytes[4..]);
    assert_eq!(uploaded.tgid, 77);
    assert_eq!(uploaded.effect_id, 5);
    assert_same_effect(&uploaded.effect, &event.effect);
}

#[test]
fn kind_tells_erasures_from_uploads() {
    let mut event = ProbeEvent {
        kind: PROBE_EVENT_KIND_ERASED,
        tgid: 1,
        effect_id: 5,
        _pad: 0,
        effect: FfEffect::default(),
    };
    assert!(matches!(message_of(&event), ProbeEventMsg::Erased { tgid: 1, effect_id: 5 }));
    assert!(matches!(
        read_message(&encode_event(&event)),
        Some(ProbeEventMsg::Erased { tgid: 1, effect_id: 5 })
    ));
    event.kind = PROBE_EVENT_KIND_UPLOADED;
    assert!(matches!(message_of(&event), ProbeEventMsg::Uploaded(u) if u.tgid == 1));
    // A kind that is neither is taken for an upload.
    event.kind = 2;
    assert!(matches!(message_of(&event), ProbeEventMsg::Uploaded(u) if u.effect_id == 5));
}

fn raw_rumble() -> [u8; 30] {
    let mut raw = [0u8; 30];
    raw[0] = 0x50; // type
    raw[2] = 0xff; // id: not taken at entry
    raw[3] = 0xff;
    raw[5] = 0x40; // direction
    raw[6] = 1; // trigger.button
    raw[8] = 2; // trigger.interval
    raw[10] = 0xf4; // replay.length = 500
    raw[11] = 0x01;
    raw[12] = 3; // replay.delay
    raw[14] = 0xee; // padding: not taken
    raw[16] = 0xff; // strong
    raw[17] = 0xff;
    raw[18] = 0x00; // weak
    raw[19] = 0x80;
    raw[28] = 0x07; // last word that is taken
    raw
}

#[test]
fn effect_is_captured_at_the_kernel_offsets() {
    let effect = capture_effect(&raw_rumble());
    assert_eq!(effect.kind, FF_RUMBLE);
    assert_eq!(effect.id, 0);
    assert_eq!(effect.direction, 0x4000);
    assert_eq!(effect.trigger_button, 1);
    assert_eq!(effect.trigger_interval, 2);
    assert_eq!(effect.replay_length, 500);
    assert_eq!(effect.replay_delay, 3);
    assert_eq!(effect.u, [0xffff, 0x8000, 0, 0, 0, 0, 7]);
}

#[test]
fn requests_are_told_by_their_lower_half() {
    assert_eq!(classify(0x4030_4580), Request::Upload);
    assert_eq!(classify(0xdead_beef_4030_4580), Request::Upload);
    assert_eq!(classify(0x4004_4581), Request::Erase);
    assert_eq!(classify(0x4030_4581), Request::Other);
    assert_eq!(classify(0), Request::Other);
}

#[test]
fn upload_is_kept_at_entry_and_told_at_return() {
    let thread = (42u64 << 32) | 43;
    let entered = try_enter(thread, 0x4030_4580, 0x7000, Some(raw_rumble()));
    let scratch = match entered {
        Entered::Saved { scratch } => scratch,
        other => panic!("{:?}", other),
    };
    assert_eq!(scratch.ff_effect_ptr, 0x7000);
    assert_eq!(effect_id_address(&scratch), 0x7002);
    let exited = try_exit(thread, &Some(scratch), Some([0xfe, 0xff]));
    let captured = match exited {
        Exited::Captured { captured } => captured,
        other => panic!("{:?}", other),
    };
    assert_eq!(captured.key, (42 << 32) | 0xfffe);
    assert_eq!(captured.event.kind, PROBE_EVENT_KIND_UPLOADED);
    assert_eq!(captured.event.tgid, 42);
    assert_eq!(captured.event.effect_id, -2);
    assert_eq!(captured.event._pad, 0);
    assert_eq!(captured.event.effect.id, -2);
    assert_eq!(captured.event.effect.replay_length, 500);
    assert!(matches!(
        message_of(&captured.event),
        ProbeEventMsg::Uploaded(u) if u.effect.id == u.effect_id
    ));
}

#[test]
fn requests_that_cannot_be_followed_come_to_nothing() {
    assert!(matches!(try_enter(1, 0x1234, 5, None), Entered::Ignored));
    assert!(matches!(try_enter(1, 0x4030_4580, 5, None), Entered::Unreadable));
    assert!(matches!(try_exit(1, &None, None), Exited::Ignored));
    assert!(matches!(try_exit(1, &None, Some([1, 0])), Exited::Ignored));
    let scratch = EnterScratch { ff_effect_ptr: u64::MAX, effect: FfEffect::default() };
    assert_eq!(effect_id_address(&scratch), 1);
    assert!(matches!(try_exit(1, &Some(scratch), None), Exited::Unreadable));
}

#[test]
fn erasure_carries_the_id_in_its_argument() {
    let entered = try_enter(9 << 32, 0x4004_4581, 0xffff_ffff_ffff_fffb, None);
    match entered {
        Entered::Erased { event } => {
            assert_eq!(event.kind, PROBE_EVENT_KIND_ERASED);
            assert_eq!(event.tgid, 9);
            assert_eq!(event.effect_id, -5);
            assert_eq!(event.effect.u, [0; 7]);
        }
        other => panic!("{:?}", other),
    }
}

#[test]
fn keys_hold_process_and_id() {
    assert_eq!(effect_key(1, 5), 0x1_0000_0005);
    assert_eq!(effect_key(1, -1), 0x1_0000_ffff);
    assert_eq!(effect_key(u32::MAX, -1), 0xffff_ffff_0000_ffff);
    assert_ne!(effect_key(1, 5), effect_key(5, 1));
}

#[test]
fn captured_requests_come_through_to_the_daemon() {
    let thread = (7u64 << 32) | 8;
    let entered = try_enter(thread, 0x4030_4580, 0x7000, Some(raw_rumble()));
    let Entered::Saved { scratch } = entered else { panic!("{:?}", entered) };
    let exited = try_exit(thread, &Some(scratch), Some([4, 0]));
    let Exited::Captured { captured } = exited else { panic!("{:?}", exited) };
    match read_message(&encode_event(&captured.event)) {
        Some(ProbeEventMsg::Uploaded(uploaded)) => {
            assert_eq!(uploaded.tgid, 7);
            assert_eq!(uploaded.effect_id, 4);
            let mut expected = capture_effect(&raw_rumble());
            expected.id = 4;
            assert_same_effect(&uploaded.effect, &expected);
        }
        other => panic!("{:?}", other),
    }
    let entered = try_enter(thread, 0x4004_4581, 4, None);
    let Entered::Erased { event } = entered else { panic!("{:?}", entered) };
    assert!(matches!(
        read_message(&encode_event(&event)),
        Some(ProbeEventMsg::Erased { tgid: 7, effect_id: 4 })
    ));
}
