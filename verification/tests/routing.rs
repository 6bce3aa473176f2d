use game_haptics_router::backoff::Backoff;
use game_haptics_router::playback::{
    is_targeted, resolve_targets, select_targets, DeviceMap, Playback, Started,
};
use game_haptics_router::schedule::Level;
use game_haptics_router::sequence::{Action, Sequence};
use game_haptics_router::settings::{
    collect_device_map, control_of, device_map_of, parse_args, parse_device_map, read_args,
    read_control_line, wants_device_list, ArgError, Control, RawArg, DEFAULT_SCALE_BITS,
};
use game_haptics_router::translate::HapticPoint;

// ── targets ──

#[test]
fn missing_device_id_means_broadcast_to_all() {
    let map = DeviceMap::new();
    assert_eq!(resolve_targets(&map, "unknown"), None);
}

#[test]
fn explicit_null_means_broadcast_to_all() {
    let mut map = DeviceMap::new();
    map.insert("dev-a".to_string(), None);
    assert_eq!(resolve_targets(&map, "dev-a"), None);
}

#[test]
fn explicit_list_targets_only_those_indices() {
    let mut map = DeviceMap::new();
    map.insert("dev-a".to_string(), Some(vec![1, 2]));
    assert_eq!(resolve_targets(&map, "dev-a"), Some(vec![1, 2]));
}

#[test]
fn device_map_deserializes_from_json() {
    let json = r#"{"dev-a": [0, 1], "dev-b": null}"#;
    let map = parse_device_map(json).ok().unwrap();
    assert_eq!(map.get("dev-a").unwrap(), &Some(vec![0, 1]));
    assert_eq!(map.get("dev-b").unwrap(), &None);
}

#[test]
fn device_map_of_the_default_is_empty() {
    let map = parse_device_map("{}").ok().unwrap();
    assert!(map.is_empty());
    assert!(map.get("dev-a").is_none());
}

#[test]
fn later_entry_for_a_device_counts() {
    let map = parse_device_map(r#"{"dev-a": [0], "dev-a": [7]}"#).ok().unwrap();
    assert_eq!(map.get("dev-a").unwrap(), &Some(vec![7]));
    let entries = vec![
        ("dev-a".to_string(), Some(vec![1])),
        ("dev-b".to_string(), Some(vec![2])),
        ("dev-a".to_string(), None),
    ];
    let map = device_map_of(Ok(entries)).ok().unwrap();
    assert_eq!(map.get("dev-a").unwrap(), &None);
    assert_eq!(map.get("dev-b").unwrap(), &Some(vec![2]));
}

#[test]
fn device_map_that_is_no_json_is_complained_about() {
    let complaint = parse_device_map("nonsense").err().unwrap();
    assert!(complaint.starts_with("--device-map must be JSON: "));
    assert!(complaint.len() > "--device-map must be JSON: ".len());
    assert!(parse_device_map(r#"{"dev-a": [-1]}"#).is_err());
    assert_eq!(
        device_map_of(Err("why".to_string())).err().unwrap(),
        "--device-map must be JSON: why"
    );
}

#[test]
fn commands_go_to_the_targets_that_are_connected() {
    assert_eq!(select_targets(&None, &vec![0, 3, 1]), vec![0, 3, 1]);
    assert_eq!(select_targets(&Some(vec![1, 0, 8]), &vec![0, 3, 1]), vec![0, 1]);
    assert!(select_targets(&Some(vec![99]), &vec![0]).is_empty());
    assert!(select_targets(&Some(vec![]), &vec![0]).is_empty());
    assert!(is_targeted(&None, 5));
    assert!(!is_targeted(&Some(vec![4]), 5));
}

// ── sequences ──

fn playback() -> Playback {
    let mut map = DeviceMap::new();
    map.insert("dev-b".to_string(), Some(vec![99]));
    Playback::new(DEFAULT_SCALE_BITS, map)
}

#[test]
fn superseded_sequence_leaves_its_successor() {
    let mut playback = playback();
    let first = playback.schedule_sequence("dev-a".to_string());
    assert_eq!(first, Started { generation: 1, superseded: None });
    let second = playback.schedule_sequence("dev-a".to_string());
    assert_eq!(second, Started { generation: 2, superseded: Some(1) });
    playback.finish_sequence("dev-a", 1);
    assert_eq!(playback.stop("dev-a").aborted, Some(2));
    assert_eq!(playback.stop("dev-a").aborted, None);
}

#[test]
fn finished_sequence_leaves_its_device_free() {
    let mut playback = playback();
    let first = playback.schedule_sequence("dev-a".to_string());
    playback.finish_sequence("dev-b", first.generation);
    playback.finish_sequence("dev-a", first.generation);
    let second = playback.schedule_sequence("dev-a".to_string());
    assert_eq!(second.superseded, None);
    assert_eq!(second.generation, 2);
}

#[test]
fn devices_play_independently() {
    let mut playback = playback();
    playback.schedule_sequence("dev-a".to_string());
    playback.schedule_sequence("dev-b".to_string());
    let stopped = playback.stop("dev-b");
    assert_eq!(stopped.aborted, Some(2));
    assert_eq!(stopped.targets, Some(vec![99]));
    let stopped = playback.stop("dev-a");
    assert_eq!(stopped.aborted, Some(1));
    assert_eq!(stopped.targets, None);
    assert_eq!(playback.targets_of("dev-b"), Some(vec![99]));
}

#[test]
fn stop_all_breaks_off_every_sequence() {
    let mut playback = playback();
    playback.schedule_sequence("dev-a".to_string());
    playback.schedule_sequence("dev-b".to_string());
    playback.schedule_sequence("dev-c".to_string());
    playback.schedule_sequence("dev-b".to_string());
    let mut aborted = playback.stop_all();
    aborted.sort();
    assert_eq!(aborted, vec![1, 3, 4]);
    assert!(playback.stop_all().is_empty());
    assert_eq!(playback.schedule_sequence("dev-a".to_string()).generation, 5);
}

#[test]
fn scale_is_kept_by_its_bits() {
    let mut playback = playback();
    assert_eq!(f32::from_bits(playback.scale()), 1.0);
    playback.set_scale(0.8f32.to_bits());
    assert_eq!(f32::from_bits(playback.scale()), 0.8);
}

fn point(dt_ms: u32, intensity: f32) -> HapticPoint<f32> {
    HapticPoint { dt_ms, intensity }
}

fn sent(action: Action<f32>) -> (Level<f32>, f32, Option<Vec<u32>>) {
    match action {
        Action::Send { level, scale_bits, targets } => (level, f32::from_bits(scale_bits), targets),
        other => panic!("{:?}", other),
    }
}

#[test]
fn keyframes_are_sent_in_order_and_in_time() {
    let mut playback = playback();
    let generation = playback.schedule_sequence("dev-b".to_string()).generation;
    let points = vec![point(0, 1.0), point(40, 0.0)];
    let mut sequence = Sequence::begin(&playback, "dev-b".to_string(), generation, &points);
    let ms = 1_000_000;
    let (level, scale, targets) = sent(sequence.play(&mut playback, 0));
    assert_eq!(level, Level::Exact { intensity: 1.0 });
    assert_eq!(scale, 1.0);
    assert_eq!(targets, Some(vec![99]));
    let early = sequence.play(&mut playback, 25 * ms - 1);
    assert!(matches!(early, Action::Wait { until_ms: 25 }));
    // A new scale takes effect with the next keyframe.
    playback.set_scale(0.5f32.to_bits());
    let (level, scale, _) = sent(sequence.play(&mut playback, 25 * ms));
    assert_eq!(level, Level::Between { from: 1.0, to: 0.0, elapsed_ms: 25, span_ms: 40 });
    assert_eq!(scale, 0.5);
    assert!(matches!(sequence.play(&mut playback, 30 * ms), Action::Wait { until_ms: 40 }));
    let (level, _, targets) = sent(sequence.play(&mut playback, 90 * ms));
    assert_eq!(level, Level::Exact { intensity: 0.0 });
    assert_eq!(targets, Some(vec![99]));
    assert!(matches!(sequence.play(&mut playback, 90 * ms), Action::Finish));
    assert_eq!(playback.stop("dev-b").aborted, None);
}

#[test]
fn ended_sequence_leaves_a_newer_one_alone() {
    let mut playback = playback();
    let first = playback.schedule_sequence("dev-a".to_string()).generation;
    let mut sequence: Sequence<f32> =
        Sequence::begin(&playback, "dev-a".to_string(), first, &vec![]);
    let second = playback.schedule_sequence("dev-a".to_string()).generation;
    assert!(matches!(sequence.play(&mut playback, 0), Action::Finish));
    assert_eq!(playback.stop("dev-a").aborted, Some(second));
}

// ── waits ──

#[test]
fn waits_double_up_to_five_seconds() {
    let mut connect = Backoff::connect();
    let waits: Vec<u64> = (0..6).map(|_| connect.fail()).collect();
    assert_eq!(waits, vec![500, 1000, 2000, 4000, 5000, 5000]);
    let mut reader = Backoff::reader();
    let waits: Vec<u64> = (0..7).map(|_| reader.fail()).collect();
    assert_eq!(waits, vec![200, 400, 800, 1600, 3200, 5000, 5000]);
    reader.succeed();
    assert_eq!(reader.fail(), 200);
    assert_eq!(reader.fail(), 400);
}

// ── command line and control lines ──

fn args(texts: &[&str]) -> (Vec<String>, Vec<Result<u32, String>>) {
    let texts: Vec<String> = texts.iter().map(|t| t.to_string()).collect();
    let numbers = texts
        .iter()
        .map(|t| t.parse::<f32>().map(|n| n.to_bits()).map_err(|e| e.to_string()))
        .collect();
    (texts, numbers)
}

fn parse(given: &[&str]) -> Result<(String, f32, DeviceMap), ArgError> {
    let (texts, numbers) = args(given);
    parse_args(&texts, &numbers).map(|a| (a.ws_url, f32::from_bits(a.scale_bits), a.device_map))
}

fn mistake(given: &[&str]) -> String {
    parse(given).err().unwrap().message()
}

#[test]
fn url_alone_takes_the_defaults() {
    let (url, scale, map) = parse(&["probe", "--ws-url", "ws://localhost:12345"]).ok().unwrap();
    assert_eq!(url, "ws://localhost:12345");
    assert_eq!(scale, 1.0);
    assert!(map.is_empty());
}

#[test]
fn all_options_are_taken_in_any_order() {
    let (url, scale, map) = parse(&[
        "probe",
        "--device-map",
        r#"{"dev-a": [3]}"#,
        "--scale",
        "0.5",
        "--ws-url",
        "ws://a",
        "--ws-url",
        "ws://b",
    ])
    .ok()
    .unwrap();
    assert_eq!(url, "ws://b");
    assert_eq!(scale, 0.5);
    assert_eq!(map.get("dev-a").unwrap(), &Some(vec![3]));
}

#[test]
fn mistakes_on_the_command_line_are_told() {
    assert_eq!(mistake(&["probe"]), "--ws-url is required");
    assert_eq!(mistake(&[]), "--ws-url is required");
    assert_eq!(mistake(&["probe", "--ws-url"]), "--ws-url needs a value");
    assert_eq!(mistake(&["probe", "--scale"]), "--scale needs a value");
    assert_eq!(mistake(&["probe", "--scale", "loud"]), "--scale must be a float");
    assert_eq!(mistake(&["probe", "--device-map"]), "--device-map needs a value");
    assert_eq!(mistake(&["probe", "--device-map", "["]), "--device-map must be JSON");
    assert_eq!(mistake(&["probe", "--verbose"]), "unrecognized argument: --verbose");
    // The first mistake counts, and a value may look like an option.
    assert_eq!(mistake(&["probe", "--scale", "--ws-url", "x"]), "--scale must be a float");
    assert_eq!(mistake(&["probe", "--ws-url", "--scale", "0.5"]), "unrecognized argument: 0.5");
}

#[test]
fn options_take_what_their_value_was_read_as() {
    let raw = |text: &str| RawArg {
        text: text.to_string(),
        number: Err("no number".to_string()),
        map: Err("no map".to_string()),
    };
    let mut value = raw("anything");
    value.number = Ok(7);
    let mut map = DeviceMap::new();
    map.insert("x".to_string(), None);
    let mut mapped = raw("anything");
    mapped.map = Ok(map);
    let args = read_args(vec![
        raw("probe"),
        raw("--scale"),
        value,
        raw("--device-map"),
        mapped,
        raw("--ws-url"),
        raw("u"),
    ])
    .ok()
    .unwrap();
    assert_eq!(args.scale_bits, 7);
    assert_eq!(args.device_map.get("x").unwrap(), &None);
    assert_eq!(args.ws_url, "u");
    let refused = read_args(vec![raw("probe"), raw("--scale"), raw("x")]).err().unwrap();
    assert_eq!(refused, ArgError::ScaleIsNoNumber { reason: "no number".to_string() });
    let refused = read_args(vec![raw("probe"), raw("--device-map"), raw("x")]).err().unwrap();
    assert_eq!(refused, ArgError::MapIsNoJson { reason: "no map".to_string() });
}

#[test]
fn mistakes_keep_what_they_come_from() {
    let error = parse(&["probe", "--scale", "loud"]).err().unwrap();
    assert_eq!(error.cause(), Some("loud".parse::<f32>().unwrap_err().to_string()));
    let error = parse(&["probe", "--device-map", "["]).err().unwrap();
    let complaint = parse_device_map("[").err().unwrap();
    assert_eq!(complaint, format!("--device-map must be JSON: {}", error.cause().unwrap()));
    assert_eq!(parse(&["probe"]).err().unwrap().cause(), None);
    assert_eq!(parse(&["probe", "--scale"]).err().unwrap().cause(), None);
    assert_eq!(collect_device_map(Err("why".to_string())).err().unwrap(), "why");
}

#[test]
fn device_list_is_asked_for_by_the_first_argument() {
    assert!(wants_device_list(&args(&["probe", "--list-devices"]).0));
    assert!(wants_device_list(&args(&["probe", "--list-devices", "--scale"]).0));
    assert!(!wants_device_list(&args(&["probe", "--ws-url", "--list-devices"]).0));
    assert!(!wants_device_list(&args(&["--list-devices"]).0));
}

#[test]
fn control_lines_set_the_scale() {
    match read_control_line(r#"{"scale": 0.8}"#) {
        Control::SetScale { bits } => assert_eq!(f64::from_bits(bits), 0.8),
        other => panic!("{:?}", other),
    }
    match read_control_line(r#"{"scale": 2}"#) {
        Control::SetScale { bits } => assert_eq!(f64::from_bits(bits), 2.0),
        other => panic!("{:?}", other),
    }
    assert!(matches!(read_control_line(r#"{"scale": "2"}"#), Control::Nothing));
    assert!(matches!(read_control_line(r#"{"volume": 1}"#), Control::Nothing));
    assert!(matches!(read_control_line("[1]"), Control::Nothing));
    assert!(matches!(read_control_line("scale"), Control::Bad { reason } if !reason.is_empty()));
    assert!(matches!(control_of(Ok(Some(5))), Control::SetScale { bits: 5 }));
}
