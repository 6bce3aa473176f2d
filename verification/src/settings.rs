//! What the daemon is told on its command line and on its standard input.

use crate::playback::{target_view, DeviceMap};
use vstd::prelude::*;
use vstd::string::StringExecFns;

verus! {

/// The bits of the scale that is used where none is given: one, as a single-precision number.
pub const DEFAULT_SCALE_BITS: u32 = 0x3f80_0000;

/// The entries that a JSON text gives for the device map, in the order of the device ids, or the
/// reason why it gives none.
pub uninterp spec fn parsed_device_map(json: Seq<char>) -> Result<
    Seq<(Seq<char>, Option<Seq<u32>>)>,
    Seq<char>,
>;

/// Entries of a device map by their characters and indices.
pub open spec fn entry_views(entries: Seq<(String, Option<Vec<u32>>)>) -> Seq<
    (Seq<char>, Option<Seq<u32>>),
> {
    entries.map_values(|entry: (String, Option<Vec<u32>>)| (entry.0@, target_view(entry.1)))
}

/// What came of reading a device map, by its characters and indices.
pub open spec fn parsed_view(parsed: Result<Vec<(String, Option<Vec<u32>>)>, String>) -> Result<
    Seq<(Seq<char>, Option<Seq<u32>>)>,
    Seq<char>,
> {
    match parsed {
        Ok(entries) => Ok(entry_views(entries@)),
        Err(reason) => Err(reason@),
    }
}

/// `serde_json::from_str`, for a map from texts to optional lists of unsigned numbers. Of its
/// result nothing is said but that it depends on the text alone.
#[verifier::external_body]
pub(crate) fn read_device_map(json: &str) -> (parsed: Result<
    Vec<(String, Option<Vec<u32>>)>,
    String,
>)
    ensures
        parsed_view(parsed) == parsed_device_map(json@),
{
    match serde_json::from_str::<std::collections::BTreeMap<String, Option<Vec<u32>>>>(json) {
        Ok(entries) => Ok(entries.into_iter().collect()),
        Err(e) => Err(e.to_string()),
    }
}

/// The device map that a list of entries makes: of two entries for one device the later counts.
pub open spec fn map_of(entries: Seq<(Seq<char>, Option<Seq<u32>>)>) -> Map<
    Seq<char>,
    Option<Seq<u32>>,
>
    decreases entries.len(),
{
    if entries.len() == 0 {
        Map::empty()
    } else {
        map_of(entries.drop_last()).insert(entries.last().0, entries.last().1)
    }
}

/// The device map that comes of a reading, or the reason why there is none.
pub open spec fn map_or_reason(
    parsed: Result<Seq<(Seq<char>, Option<Seq<u32>>)>, Seq<char>>,
) -> Result<Map<Seq<char>, Option<Seq<u32>>>, Seq<char>> {
    match parsed {
        Ok(entries) => Ok(map_of(entries)),
        Err(reason) => Err(reason),
    }
}

/// The device map that comes of a reading, or the complaint about it.
pub open spec fn device_map_result(
    parsed: Result<Seq<(Seq<char>, Option<Seq<u32>>)>, Seq<char>>,
) -> Result<Map<Seq<char>, Option<Seq<u32>>>, Seq<char>> {
    match map_or_reason(parsed) {
        Ok(map) => Ok(map),
        Err(reason) => Err("--device-map must be JSON: "@ + reason),
    }
}

/// A device map, or a text in its place, by its characters and indices.
pub open spec fn device_map_view(result: Result<DeviceMap, String>) -> Result<
    Map<Seq<char>, Option<Seq<u32>>>,
    Seq<char>,
> {
    match result {
        Ok(map) => Ok(map@),
        Err(complaint) => Err(complaint@),
    }
}

/// Makes the device map from what came of reading it, or hands on the reason why it cannot be made.
pub fn collect_device_map(parsed: Result<Vec<(String, Option<Vec<u32>>)>, String>) -> (result:
    Result<DeviceMap, String>)
    ensures
        device_map_view(result) == map_or_reason(parsed_view(parsed)),
        result matches Ok(map) ==> map.wf(),
{
    match parsed {
        Ok(entries) => {
            let ghost all = entries@;
            let mut rest = entries;
            let mut map = DeviceMap::new();
            let ghost mut done: int = 0;
            assert(entry_views(all.subrange(0, 0)) =~= seq![]);
            while rest.len() > 0
                invariant
                    map.wf(),
                    0 <= done <= all.len(),
                    rest@ =~= all.subrange(done, all.len() as int),
                    map@ == map_of(entry_views(all.subrange(0, done))),
                decreases rest@.len(),
            {
                let (device_id, targets) = rest.remove(0);
                map.insert(device_id, targets);
                proof {
                    let next = entry_views(all.subrange(0, done + 1));
                    assert(next.drop_last() =~= entry_views(all.subrange(0, done)));
                    assert(next.last() == (device_id@, target_view(targets)));
                    done = done + 1;
                }
            }
            assert(all.subrange(0, done) =~= all);
            Ok(map)
        },
        Err(reason) => Err(reason),
    }
}

/// Makes the device map from what came of reading it, or complains about it.
pub fn device_map_of(parsed: Result<Vec<(String, Option<Vec<u32>>)>, String>) -> (result: Result<
    DeviceMap,
    String,
>)
    ensures
        device_map_view(result) == device_map_result(parsed_view(parsed)),
        result matches Ok(map) ==> map.wf(),
{
    match collect_device_map(parsed) {
        Ok(map) => Ok(map),
        Err(reason) => {
            let mut complaint = "--device-map must be JSON: ".to_owned();
            complaint.append(reason.as_str());
            Err(complaint)
        },
    }
}

/// Reads the device map from a JSON text.
pub fn parse_device_map(json: &str) -> (result: Result<DeviceMap, String>)
    ensures
        device_map_view(result) == device_map_result(parsed_device_map(json@)),
        result matches Ok(map) ==> map.wf(),
{
    device_map_of(read_device_map(json))
}

/// The number that a JSON text holds under `key`, by the bits of a double-precision number;
/// `None` where the text is JSON but holds no number there; or the reason why it is not JSON.
pub uninterp spec fn json_number(json: Seq<char>, key: Seq<char>) -> Result<Option<u64>, Seq<char>>;

/// What came of looking for a number, by its characters.
pub open spec fn number_view(number: Result<Option<u64>, String>) -> Result<
    Option<u64>,
    Seq<char>,
> {
    match number {
        Ok(bits) => Ok(bits),
        Err(reason) => Err(reason@),
    }
}

/// `serde_json::from_str` into a `serde_json::Value`, its `get` and its `as_f64`. Of the result
/// nothing is said but that it depends on the text and the key alone.
#[verifier::external_body]
pub(crate) fn read_number(json: &str, key: &str) -> (number: Result<Option<u64>, String>)
    ensures
        number_view(number) == json_number(json@, key@),
{
    match serde_json::from_str::<serde_json::Value>(json) {
        Ok(value) => Ok(value.get(key).and_then(|n| n.as_f64()).map(|n| n.to_bits())),
        Err(e) => Err(e.to_string()),
    }
}

/// What a line of the standard input asks for.
#[derive(Debug)]
pub enum Control {
    /// The scale is to be set, to the double-precision number with these bits.
    SetScale { bits: u64 },
    /// Nothing.
    Nothing,
    /// The line is not JSON.
    Bad { reason: String },
}

/// `control` is what a line asks for, when this came of looking for its scale.
pub open spec fn is_control(
    control: Control,
    number: Result<Option<u64>, Seq<char>>,
) -> bool {
    match control {
        Control::SetScale { bits } => number == Ok::<Option<u64>, Seq<char>>(Some(bits)),
        Control::Nothing => number == Ok::<Option<u64>, Seq<char>>(None),
        Control::Bad { reason } => number == Err::<Option<u64>, Seq<char>>(reason@),
    }
}

/// What a line asks for, when this came of looking for its scale.
pub fn control_of(number: Result<Option<u64>, String>) -> (control: Control)
    ensures
        is_control(control, number_view(number)),
{
    match number {
        Ok(Some(bits)) => Control::SetScale { bits },
        Ok(None) => Control::Nothing,
        Err(reason) => Control::Bad { reason },
    }
}

/// What a line of the standard input asks for: a new scale, where it is a JSON object with a number
/// under `scale`.
pub fn read_control_line(line: &str) -> (control: Control)
    ensures
        is_control(control, json_number(line@, "scale"@)),
{
    control_of(read_number(line, "scale"))
}

/// What the command line of the probe asks for.
pub struct Args {
    pub ws_url: String,
    /// The bits of the scale, a single-precision number.
    pub scale_bits: u32,
    pub device_map: DeviceMap,
}

/// What is wrong with the command line of the probe.
#[derive(Debug, PartialEq, Eq)]
pub enum ArgError {
    UrlNeedsValue,
    ScaleNeedsValue,
    /// The value of the scale is no number, for this reason.
    ScaleIsNoNumber { reason: String },
    MapNeedsValue,
    /// The value of the device map is none, for this reason.
    MapIsNoJson { reason: String },
    Unrecognized { argument: String },
    UrlMissing,
}

/// [`Args`] by their characters and indices; the URL may still be missing.
pub struct ArgsView {
    pub ws_url: Option<Seq<char>>,
    pub scale_bits: u32,
    pub device_map: Map<Seq<char>, Option<Seq<u32>>>,
}

/// [`ArgError`] by its characters.
pub enum ArgErrorView {
    UrlNeedsValue,
    ScaleNeedsValue,
    ScaleIsNoNumber { reason: Seq<char> },
    MapNeedsValue,
    MapIsNoJson { reason: Seq<char> },
    Unrecognized { argument: Seq<char> },
    UrlMissing,
}

impl View for Args {
    type V = ArgsView;

    open spec fn view(&self) -> ArgsView {
        ArgsView {
            ws_url: Some(self.ws_url@),
            scale_bits: self.scale_bits,
            device_map: self.device_map@,
        }
    }
}

impl View for ArgError {
    type V = ArgErrorView;

    open spec fn view(&self) -> ArgErrorView {
        match self {
            ArgError::UrlNeedsValue => ArgErrorView::UrlNeedsValue,
            ArgError::ScaleNeedsValue => ArgErrorView::ScaleNeedsValue,
            ArgError::ScaleIsNoNumber { reason } => ArgErrorView::ScaleIsNoNumber {
                reason: reason@,
            },
            ArgError::MapNeedsValue => ArgErrorView::MapNeedsValue,
            ArgError::MapIsNoJson { reason } => ArgErrorView::MapIsNoJson { reason: reason@ },
            ArgError::Unrecognized { argument } => ArgErrorView::Unrecognized {
                argument: argument@,
            },
            ArgError::UrlMissing => ArgErrorView::UrlMissing,
        }
    }
}

impl ArgError {
    /// The words of this error.
    pub open spec fn words(&self) -> Seq<char> {
        match self {
            ArgError::UrlNeedsValue => "--ws-url needs a value"@,
            ArgError::ScaleNeedsValue => "--scale needs a value"@,
            ArgError::ScaleIsNoNumber { .. } => "--scale must be a float"@,
            ArgError::MapNeedsValue => "--device-map needs a value"@,
            ArgError::MapIsNoJson { .. } => "--device-map must be JSON"@,
            ArgError::Unrecognized { argument } => "unrecognized argument: "@ + argument@,
            ArgError::UrlMissing => "--ws-url is required"@,
        }
    }

    /// Writes this error.
    pub fn message(&self) -> (text: String)
        ensures
            text@ == self.words(),
    {
        match self {
            ArgError::UrlNeedsValue => "--ws-url needs a value".to_owned(),
            ArgError::ScaleNeedsValue => "--scale needs a value".to_owned(),
            ArgError::ScaleIsNoNumber { .. } => "--scale must be a float".to_owned(),
            ArgError::MapNeedsValue => "--device-map needs a value".to_owned(),
            ArgError::MapIsNoJson { .. } => "--device-map must be JSON".to_owned(),
            ArgError::Unrecognized { argument } => {
                let mut text = "unrecognized argument: ".to_owned();
                text.append(argument.as_str());
                text
            },
            ArgError::UrlMissing => "--ws-url is required".to_owned(),
        }
    }

    /// What this error comes from: the reason why a value could not be read.
    pub open spec fn underlying(&self) -> Option<Seq<char>> {
        match self {
            ArgError::ScaleIsNoNumber { reason } => Some(reason@),
            ArgError::MapIsNoJson { reason } => Some(reason@),
            _ => None,
        }
    }

    /// What this error comes from, where a value could not be read.
    pub fn cause(&self) -> (cause: Option<String>)
        ensures
            cause is Some <==> self.underlying() is Some,
            cause matches Some(text) ==> Some(text@) == self.underlying(),
    {
        match self {
            ArgError::ScaleIsNoNumber { reason } => Some(reason.clone()),
            ArgError::MapIsNoJson { reason } => Some(reason.clone()),
            _ => None,
        }
    }
}

/// An argument as it was given, with what it is when it is read as the value of an option.
pub struct RawArg {
    pub text: String,
    /// The bits of the single-precision number that it is, or the reason why it is none.
    pub number: Result<u32, String>,
    /// The device map that it is, or the reason why it is none.
    pub map: Result<DeviceMap, String>,
}

/// The bits of a number, or the reason why there is none, by its characters.
pub open spec fn bits_view(number: Result<u32, String>) -> Result<u32, Seq<char>> {
    match number {
        Ok(bits) => Ok(bits),
        Err(reason) => Err(reason@),
    }
}

/// A [`RawArg`] by its characters and indices.
pub struct RawArgView {
    pub text: Seq<char>,
    pub number: Result<u32, Seq<char>>,
    pub map: Result<Map<Seq<char>, Option<Seq<u32>>>, Seq<char>>,
}

impl View for RawArg {
    type V = RawArgView;

    open spec fn view(&self) -> RawArgView {
        RawArgView {
            text: self.text@,
            number: bits_view(self.number),
            map: device_map_view(self.map),
        }
    }
}

/// What the arguments before any option say.
pub open spec fn default_args() -> ArgsView {
    ArgsView { ws_url: None, scale_bits: DEFAULT_SCALE_BITS, device_map: Map::empty() }
}

/// What the arguments from `i` on make of `args`. Options are taken from left to right; of two of
/// a kind the later counts; the first mistake is the one that is told.
pub open spec fn read_from(args: ArgsView, raw: Seq<RawArgView>, i: int) -> Result<
    ArgsView,
    ArgErrorView,
>
    decreases raw.len() - i,
{
    if i >= raw.len() || i < 0 {
        if args.ws_url is Some {
            Ok(args)
        } else {
            Err(ArgErrorView::UrlMissing)
        }
    } else if raw[i].text == "--ws-url"@ {
        if i + 1 < raw.len() {
            read_from(ArgsView { ws_url: Some(raw[i + 1].text), ..args }, raw, i + 2)
        } else {
            Err(ArgErrorView::UrlNeedsValue)
        }
    } else if raw[i].text == "--scale"@ {
        if i + 1 < raw.len() {
            match raw[i + 1].number {
                Ok(scale_bits) => read_from(ArgsView { scale_bits, ..args }, raw, i + 2),
                Err(reason) => Err(ArgErrorView::ScaleIsNoNumber { reason }),
            }
        } else {
            Err(ArgErrorView::ScaleNeedsValue)
        }
    } else if raw[i].text == "--device-map"@ {
        if i + 1 < raw.len() {
            match raw[i + 1].map {
                Ok(device_map) => read_from(ArgsView { device_map, ..args }, raw, i + 2),
                Err(reason) => Err(ArgErrorView::MapIsNoJson { reason }),
            }
        } else {
            Err(ArgErrorView::MapNeedsValue)
        }
    } else {
        Err(ArgErrorView::Unrecognized { argument: raw[i].text })
    }
}

/// What came of reading the arguments, by its characters and indices.
pub open spec fn args_view(result: Result<Args, ArgError>) -> Result<ArgsView, ArgErrorView> {
    match result {
        Ok(args) => Ok(args@),
        Err(error) => Err(error@),
    }
}

/// Arguments by their characters and indices.
pub open spec fn raw_views(raw: Seq<RawArg>) -> Seq<RawArgView> {
    raw.map_values(|arg: RawArg| arg@)
}

fn is_text(text: &String, wanted: &str) -> (same: bool)
    ensures
        same == (text@ == wanted@),
{
    *text == wanted.to_owned()
}

/// Reads the arguments, of which the first is the program's own name.
pub fn read_args(raw: Vec<RawArg>) -> (result: Result<Args, ArgError>)
    requires
        forall|i: int|
            0 <= i < raw@.len() ==> ((#[trigger] raw@[i]).map matches Ok(map) ==> map.wf()),
    ensures
        args_view(result) == read_from(default_args(), raw_views(raw@), 1),
        result matches Ok(args) ==> args.device_map.wf(),
{
    let ghost all = raw@;
    let ghost views = raw_views(all);
    let mut rest = raw;
    let mut ws_url: Option<String> = None;
    let mut scale_bits: u32 = DEFAULT_SCALE_BITS;
    let mut device_map = DeviceMap::new();
    let ghost mut args = default_args();
    let ghost mut i: int = 1;
    if rest.len() > 0 {
        rest.remove(0);
    }
    while rest.len() > 0
        invariant
            all == raw@,
            forall|k: int|
                0 <= k < all.len() ==> ((#[trigger] all[k]).map matches Ok(map) ==> map.wf()),
            views == raw_views(all),
            1 <= i,
            rest@.len() > 0 ==> i + rest@.len() == all.len(),
            rest@.len() == 0 ==> i >= all.len(),
            forall|k: int| 0 <= k < rest@.len() ==> #[trigger] rest@[k] == all[i + k],
            device_map.wf(),
            args.ws_url == (match ws_url {
                Some(url) => Some(url@),
                None => None,
            }),
            args.scale_bits == scale_bits,
            args.device_map == device_map@,
            read_from(default_args(), views, 1) == read_from(args, views, i),
        decreases rest@.len(),
    {
        let ghost before = rest@;
        assert(before[0] == all[i]);
        let option = rest.remove(0);
        assert(views[i] == option@);
        if is_text(&option.text, "--ws-url") {
            if rest.len() == 0 {
                return Err(ArgError::UrlNeedsValue);
            }
            assert(before[1] == all[i + 1]);
            let value = rest.remove(0);
            ws_url = Some(value.text);
            proof {
                assert(views[i + 1].text == value.text@);
                args = ArgsView { ws_url: Some(value.text@), ..args };
            }
        } else if is_text(&option.text, "--scale") {
            if rest.len() == 0 {
                return Err(ArgError::ScaleNeedsValue);
            }
            assert(before[1] == all[i + 1]);
            let value = rest.remove(0);
            assert(views[i + 1] == value@);
            match value.number {
                Ok(bits) => {
                    scale_bits = bits;
                },
                Err(reason) => {
                    return Err(ArgError::ScaleIsNoNumber { reason });
                },
            }
            proof {
                args = ArgsView { scale_bits, ..args };
            }
        } else if is_text(&option.text, "--device-map") {
            if rest.len() == 0 {
                return Err(ArgError::MapNeedsValue);
            }
            assert(before[1] == all[i + 1]);
            let value = rest.remove(0);
            assert(views[i + 1] == value@);
            match value.map {
                Ok(map) => {
                    device_map = map;
                },
                Err(reason) => {
                    return Err(ArgError::MapIsNoJson { reason });
                },
            }
            proof {
                args = ArgsView { device_map: device_map@, ..args };
            }
        } else {
            return Err(ArgError::Unrecognized { argument: option.text });
        }
        proof {
            i = i + 2;
            assert forall|k: int| 0 <= k < rest@.len() implies #[trigger] rest@[k] == all[i
                + k] by {
                assert(before[k + 2] == all[i - 2 + (k + 2)]);
            }
        }
    }
    match ws_url {
        Some(ws_url) => Ok(Args { ws_url, scale_bits, device_map }),
        None => Err(ArgError::UrlMissing),
    }
}

/// The arguments, with what each is as the value of an option.
pub open spec fn raw_of(texts: Seq<String>, numbers: Seq<Result<u32, String>>) -> Seq<
    RawArgView,
> {
    Seq::new(
        texts.len(),
        |i: int|
            RawArgView {
                text: texts[i]@,
                number: bits_view(numbers[i]),
                map: map_or_reason(parsed_device_map(texts[i]@)),
            },
    )
}

/// Reads the command line of the probe. `numbers` holds, for each argument, the bits of the
/// single-precision number that it is, or the reason why it is none.
pub fn parse_args(texts: &Vec<String>, numbers: &Vec<Result<u32, String>>) -> (result: Result<
    Args,
    ArgError,
>)
    requires
        numbers@.len() == texts@.len(),
    ensures
        args_view(result) == read_from(default_args(), raw_of(texts@, numbers@), 1),
        result matches Ok(args) ==> args.device_map.wf(),
{
    let mut raw: Vec<RawArg> = Vec::new();
    let mut i: usize = 0;
    while i < texts.len()
        invariant
            numbers@.len() == texts@.len(),
            i <= texts@.len(),
            raw@.len() == i,
            forall|k: int|
                0 <= k < i ==> ((#[trigger] raw@[k]).map matches Ok(map) ==> map.wf()),
            forall|k: int| 0 <= k < i ==> (#[trigger] raw@[k])@ == raw_of(texts@, numbers@)[k],
        decreases texts@.len() - i,
    {
        let number = match &numbers[i] {
            Ok(bits) => Ok(*bits),
            Err(reason) => Err(reason.clone()),
        };
        let map = collect_device_map(read_device_map(texts[i].as_str()));
        raw.push(RawArg { text: texts[i].clone(), number, map });
        i = i + 1;
    }
    assert(raw_views(raw@) =~= raw_of(texts@, numbers@));
    read_args(raw)
}

/// Whether the command line of the probe asks for the list of devices, which it does by its first
/// argument alone.
pub fn wants_device_list(texts: &Vec<String>) -> (wants: bool)
    ensures
        wants == (texts@.len() > 1 && texts@[1]@ == "--list-devices"@),
{
    texts.len() > 1 && is_text(&texts[1], "--list-devices")
}

proof fn lemma_latest_entry_counts(
    entries: Seq<(Seq<char>, Option<Seq<u32>>)>,
    device_id: Seq<char>,
    i: int,
)
    requires
        0 <= i < entries.len(),
        entries[i].0 == device_id,
        forall|j: int| i < j < entries.len() ==> (#[trigger] entries[j]).0 != device_id,
    ensures
        map_of(entries).contains_key(device_id),
        map_of(entries)[device_id] == entries[i].1,
    decreases entries.len(),
{
    let rest = entries.drop_last();
    if i < rest.len() {
        assert(entries[entries.len() - 1].0 != device_id);
        assert forall|j: int| i < j < rest.len() implies (#[trigger] rest[j]).0 != device_id by {
            assert(entries[j].0 != device_id);
        }
        lemma_latest_entry_counts(rest, device_id, i);
    }
}

proof fn lemma_no_entry_for_others(
    entries: Seq<(Seq<char>, Option<Seq<u32>>)>,
    device_id: Seq<char>,
)
    requires
        forall|j: int| 0 <= j < entries.len() ==> (#[trigger] entries[j]).0 != device_id,
    ensures
        !map_of(entries).contains_key(device_id),
    decreases entries.len(),
{
    if entries.len() > 0 {
        let rest = entries.drop_last();
        assert(entries[entries.len() - 1].0 != device_id);
        assert forall|j: int| 0 <= j < rest.len() implies (#[trigger] rest[j]).0 != device_id by {
            assert(entries[j].0 != device_id);
        }
        lemma_no_entry_for_others(rest, device_id);
    }
}

/// The targets of an entry are those of a map: the same list, or none of both.
pub open spec fn same_targets(given: Option<Vec<u32>>, kept: Option<Seq<u32>>) -> bool {
    match (given, kept) {
        (Some(indices), Some(kept_indices)) => indices@ == kept_indices,
        (None, None) => true,
        _ => false,
    }
}

/// A list of entries makes a map in which every device that is listed has the targets of the last
/// entry for it, and no other device has an entry.
pub proof fn last_entry_of_a_device_counts(
    entries: Vec<(String, Option<Vec<u32>>)>,
    result: Result<DeviceMap, String>,
    i: int,
    device_id: Seq<char>,
)
    requires
        call_ensures(
            collect_device_map,
            (Ok::<Vec<(String, Option<Vec<u32>>)>, String>(entries),),
            result,
        ),
    ensures
        result is Ok,
        0 <= i < entries@.len() && (forall|j: int|
            i < j < entries@.len() ==> (#[trigger] entries@[j]).0@ != entries@[i].0@) ==> (
        result->Ok_0)@.contains_key(entries@[i].0@) && same_targets(
            entries@[i].1,
            (result->Ok_0)@[entries@[i].0@],
        ),
        (forall|j: int| 0 <= j < entries@.len() ==> (#[trigger] entries@[j]).0@ != device_id)
            ==> !(result->Ok_0)@.contains_key(device_id),
{
    let views = entry_views(entries@);
    if 0 <= i < entries@.len() && (forall|j: int|
        i < j < entries@.len() ==> (#[trigger] entries@[j]).0@ != entries@[i].0@) {
        assert forall|j: int| i < j < views.len() implies (#[trigger] views[j]).0
            != entries@[i].0@ by {
            assert(entries@[j].0@ != entries@[i].0@);
        }
        assert(views[i].0 == entries@[i].0@);
        lemma_latest_entry_counts(views, entries@[i].0@, i);
    }
    if forall|j: int| 0 <= j < entries@.len() ==> (#[trigger] entries@[j]).0@ != device_id {
        assert forall|j: int| 0 <= j < views.len() implies (#[trigger] views[j]).0
            != device_id by {
            assert(entries@[j].0@ != device_id);
        }
        lemma_no_entry_for_others(views, device_id);
    }
}

/// A map that could not be read is not made, for the reason why it could not be read. On the
/// command line the complaint says which option it is about, and ends with the reason.
pub proof fn unreadable_map_is_complained_about(
    reason: String,
    result: Result<DeviceMap, String>,
    complaint: Result<DeviceMap, String>,
)
    requires
        call_ensures(
            collect_device_map,
            (Err::<Vec<(String, Option<Vec<u32>>)>, String>(reason),),
            result,
        ),
        call_ensures(
            device_map_of,
            (Err::<Vec<(String, Option<Vec<u32>>)>, String>(reason),),
            complaint,
        ),
    ensures
        result matches Err(text) && text@ == reason@,
        complaint matches Err(text) && text@ == "--device-map must be JSON: "@ + reason@,
{
}

/// On the command line a map that could be read is made as anywhere else.
pub proof fn readable_map_is_made(
    entries: Vec<(String, Option<Vec<u32>>)>,
    result: Result<DeviceMap, String>,
    option: Result<DeviceMap, String>,
)
    requires
        call_ensures(
            collect_device_map,
            (Ok::<Vec<(String, Option<Vec<u32>>)>, String>(entries),),
            result,
        ),
        call_ensures(
            device_map_of,
            (Ok::<Vec<(String, Option<Vec<u32>>)>, String>(entries),),
            option,
        ),
    ensures
        result is Ok,
        option is Ok,
        (option->Ok_0)@ == (result->Ok_0)@,
{
}

/// A line sets the scale exactly where a number was found, to that number; it asks for nothing
/// where none was found, and is bad, for the reason given, where it could not be read.
pub proof fn found_number_sets_the_scale(number: Result<Option<u64>, String>, control: Control)
    requires
        call_ensures(control_of, (number,), control),
    ensures
        match control {
            Control::SetScale { bits } => number matches Ok(found) && found == Some(bits),
            Control::Nothing => number matches Ok(found) && found is None,
            Control::Bad { reason } => number matches Err(given) && given@ == reason@,
        },
{
}

/// A line is asked for the number under the key `scale`.
pub proof fn line_sets_the_scale_under_its_key(line: &str, control: Control)
    requires
        call_ensures(read_control_line, (line,), control),
    ensures
        match control {
            Control::SetScale { bits } => json_number(line@, "scale"@) == Ok::<
                Option<u64>,
                Seq<char>,
            >(Some(bits)),
            Control::Nothing => json_number(line@, "scale"@) == Ok::<Option<u64>, Seq<char>>(
                None,
            ),
            Control::Bad { reason } => json_number(line@, "scale"@) == Err::<
                Option<u64>,
                Seq<char>,
            >(reason@),
        },
{
}

/// An option and its value stand at `i` and behind it, and the value can be read. Options stand at
/// every second place, the first of them behind the program's name.
pub open spec fn is_readable_option(raw: Seq<RawArgView>, i: int) -> bool {
    &&& i + 1 < raw.len()
    &&& raw[i].text == "--ws-url"@ || raw[i].text == "--scale"@ || raw[i].text == "--device-map"@
    &&& raw[i].text == "--scale"@ ==> raw[i + 1].number is Ok
    &&& raw[i].text == "--device-map"@ ==> raw[i + 1].map is Ok
}

/// All options from `from` on and before `to` have values that can be read.
pub open spec fn are_readable_options(raw: Seq<RawArgView>, from: int, to: int) -> bool {
    forall|i: int|
        #![trigger raw[i]]
        from <= i < to && i < raw.len() && i % 2 == 1 ==> is_readable_option(raw, i)
}

/// The last `option` from `from` on stands at `i`.
pub open spec fn is_last_option(
    raw: Seq<RawArgView>,
    from: int,
    option: Seq<char>,
    i: int,
) -> bool {
    &&& from <= i < raw.len()
    &&& i % 2 == 1
    &&& raw[i].text == option
    &&& lacks_option(raw, i + 2, option)
}

/// There is no `option` from `from` on.
pub open spec fn lacks_option(raw: Seq<RawArgView>, from: int, option: Seq<char>) -> bool {
    forall|j: int|
        from <= j < raw.len() && j % 2 == 1 ==> (#[trigger] raw[j]).text != option
}

/// `mistake` is what is wrong at `i`, where an option is expected.
pub open spec fn is_mistake_at(raw: Seq<RawArgView>, i: int, mistake: ArgErrorView) -> bool {
    &&& 0 <= i < raw.len()
    &&& i % 2 == 1
    &&& match mistake {
        ArgErrorView::UrlNeedsValue => raw[i].text == "--ws-url"@ && i + 1 == raw.len(),
        ArgErrorView::ScaleNeedsValue => raw[i].text == "--scale"@ && i + 1 == raw.len(),
        ArgErrorView::MapNeedsValue => raw[i].text == "--device-map"@ && i + 1 == raw.len(),
        ArgErrorView::ScaleIsNoNumber { reason } => raw[i].text == "--scale"@ && i + 1 < raw.len()
            && raw[i + 1].number == Err::<u32, Seq<char>>(reason),
        ArgErrorView::MapIsNoJson { reason } => raw[i].text == "--device-map"@ && i + 1 < raw.len()
            && raw[i + 1].map == Err::<Map<Seq<char>, Option<Seq<u32>>>, Seq<char>>(reason),
        ArgErrorView::Unrecognized { argument } => argument == raw[i].text && raw[i].text
            != "--ws-url"@ && raw[i].text != "--scale"@ && raw[i].text != "--device-map"@,
        ArgErrorView::UrlMissing => false,
    }
}

/// `args` is what the options from `from` on make of `before`: of each kind the last counts, and
/// where there is none of a kind, what was said before stays.
pub open spec fn are_last_values(
    before: ArgsView,
    raw: Seq<RawArgView>,
    from: int,
    args: ArgsView,
) -> bool {
    &&& lacks_option(raw, from, "--ws-url"@) ==> args.ws_url == before.ws_url
    &&& lacks_option(raw, from, "--scale"@) ==> args.scale_bits == before.scale_bits
    &&& lacks_option(raw, from, "--device-map"@) ==> args.device_map == before.device_map
    &&& forall|i: int| #[trigger]
        is_last_option(raw, from, "--ws-url"@, i) ==> i + 1 < raw.len() && args.ws_url == Some(
            raw[i + 1].text,
        )
    &&& forall|i: int| #[trigger]
        is_last_option(raw, from, "--scale"@, i) ==> i + 1 < raw.len() && raw[i + 1].number == Ok::<
            u32,
            Seq<char>,
        >(args.scale_bits)
    &&& forall|i: int| #[trigger]
        is_last_option(raw, from, "--device-map"@, i) ==> i + 1 < raw.len() && raw[i + 1].map
            == Ok::<Map<Seq<char>, Option<Seq<u32>>>, Seq<char>>(args.device_map)
}

/// Names of options are different from each other.
proof fn lemma_options_differ()
    ensures
        "--ws-url"@ != "--scale"@,
        "--ws-url"@ != "--device-map"@,
        "--scale"@ != "--device-map"@,
{
    reveal_strlit("--ws-url");
    reveal_strlit("--scale");
    reveal_strlit("--device-map");
    assert("--ws-url"@.len() == 8);
    assert("--scale"@.len() == 7);
    assert("--device-map"@.len() == 12);
}

/// Whether an option is the last of its kind depends on what follows it alone.
proof fn lemma_last_option_later(raw: Seq<RawArgView>, i: int, option: Seq<char>)
    requires
        0 <= i < raw.len(),
        i % 2 == 1,
    ensures
        raw[i].text != option ==> (lacks_option(raw, i, option) <==> lacks_option(
            raw,
            i + 2,
            option,
        )),
        raw[i].text == option ==> !lacks_option(raw, i, option),
        forall|k: int| #[trigger]
            is_last_option(raw, i, option, k) ==> k == i || is_last_option(raw, i + 2, option, k),
        raw[i].text == option && lacks_option(raw, i + 2, option) ==> is_last_option(
            raw,
            i,
            option,
            i,
        ),
        forall|k: int| #[trigger]
            is_last_option(raw, i + 2, option, k) ==> is_last_option(raw, i, option, k)
                && !lacks_option(raw, i + 2, option),
{
    if raw[i].text != option && lacks_option(raw, i + 2, option) {
        assert forall|j: int| i <= j < raw.len() && j % 2 == 1 implies (#[trigger] raw[j]).text
            != option by {
            if j > i {
                assert(j >= i + 2);
            }
        }
    }
    assert forall|k: int| #[trigger] is_last_option(raw, i, option, k) implies k == i
        || is_last_option(raw, i + 2, option, k) by {
        if k > i {
            assert(k >= i + 2);
        }
    }
}

#[verifier::rlimit(60)]
proof fn lemma_options_are_read(args: ArgsView, raw: Seq<RawArgView>, i: int)
    requires
        i >= 1,
        i % 2 == 1,
    ensures
        match read_from(args, raw, i) {
            Ok(read) => {
                &&& are_readable_options(raw, i, raw.len() as int)
                &&& are_last_values(args, raw, i, read)
                &&& read.ws_url is Some
            },
            Err(ArgErrorView::UrlMissing) => {
                &&& are_readable_options(raw, i, raw.len() as int)
                &&& lacks_option(raw, i, "--ws-url"@)
                &&& args.ws_url is None
            },
            Err(mistake) => exists|k: int|
                i <= k && #[trigger] is_mistake_at(raw, k, mistake) && are_readable_options(
                    raw,
                    i,
                    k,
                ),
        },
    decreases raw.len() - i,
{
    lemma_options_differ();
    if i < raw.len() {
        if is_readable_option(raw, i) {
            let next = if raw[i].text == "--ws-url"@ {
                ArgsView { ws_url: Some(raw[i + 1].text), ..args }
            } else if raw[i].text == "--scale"@ {
                ArgsView { scale_bits: raw[i + 1].number->Ok_0, ..args }
            } else {
                ArgsView { device_map: raw[i + 1].map->Ok_0, ..args }
            };
            assert(read_from(args, raw, i) == read_from(next, raw, i + 2));
            lemma_options_are_read(next, raw, i + 2);
            lemma_last_option_later(raw, i, "--ws-url"@);
            lemma_last_option_later(raw, i, "--scale"@);
            lemma_last_option_later(raw, i, "--device-map"@);
            match read_from(next, raw, i + 2) {
                Ok(_) => {
                    lemma_one_more_readable(raw, i, raw.len() as int);
                },
                Err(ArgErrorView::UrlMissing) => {
                    lemma_one_more_readable(raw, i, raw.len() as int);
                },
                Err(mistake) => {
                    let k = choose|k: int|
                        i + 2 <= k && #[trigger] is_mistake_at(raw, k, mistake)
                            && are_readable_options(raw, i + 2, k);
                    lemma_one_more_readable(raw, i, k);
                    assert(is_mistake_at(raw, k, mistake));
                },
            }
        } else {
            let mistake = read_from(args, raw, i)->Err_0;
            assert(is_mistake_at(raw, i, mistake));
            assert(are_readable_options(raw, i, i));
        }
    }
}

proof fn lemma_one_more_readable(raw: Seq<RawArgView>, i: int, to: int)
    requires
        i % 2 == 1,
        is_readable_option(raw, i),
        are_readable_options(raw, i + 2, to),
    ensures
        are_readable_options(raw, i, to),
{
    assert forall|j: int|
        #![trigger raw[j]]
        i <= j < to && j < raw.len() && j % 2 == 1 implies is_readable_option(raw, j) by {
        if j > i {
            assert(j >= i + 2);
        }
    }
}

/// A command line is accepted exactly where every second argument is an option with a value that
/// can be read, and one of them gives the URL. Then the last URL, scale and map count; without a
/// scale it is one, and without a map the map is empty.
pub proof fn command_line_is_read(raw: Vec<RawArg>, result: Result<Args, ArgError>)
    requires
        call_ensures(read_args, (raw,), result),
    ensures
        result is Ok <==> are_readable_options(raw_views(raw@), 1, raw@.len() as int)
            && !lacks_option(raw_views(raw@), 1, "--ws-url"@),
        result matches Ok(args) ==> are_last_values(
            ArgsView { ws_url: None, scale_bits: 0x3f80_0000, device_map: Map::empty() },
            raw_views(raw@),
            1,
            args@,
        ),
{
    let views = raw_views(raw@);
    lemma_options_are_read(default_args(), views, 1);
    lemma_options_differ();
    match read_from(default_args(), views, 1) {
        Ok(read) => {
            if lacks_option(views, 1, "--ws-url"@) {
                assert(read.ws_url is None);
            }
        },
        Err(ArgErrorView::UrlMissing) => {},
        Err(mistake) => {
            let k = choose|k: int|
                1 <= k && #[trigger] is_mistake_at(views, k, mistake) && are_readable_options(
                    views,
                    1,
                    k,
                );
            if are_readable_options(views, 1, raw@.len() as int) {
                assert(views[k].text == views[k].text);
                assert(is_readable_option(views, k));
            }
        },
    }
}

/// What is told of a command line that is refused is its first mistake; that the URL is missing is
/// told only where there is no other.
pub proof fn first_mistake_is_told(raw: Vec<RawArg>, result: Result<Args, ArgError>)
    requires
        call_ensures(read_args, (raw,), result),
    ensures
        result matches Err(error) ==> if error is UrlMissing {
            are_readable_options(raw_views(raw@), 1, raw@.len() as int) && lacks_option(
                raw_views(raw@),
                1,
                "--ws-url"@,
            )
        } else {
            exists|k: int|
                1 <= k && #[trigger] is_mistake_at(raw_views(raw@), k, error@)
                    && are_readable_options(raw_views(raw@), 1, k)
        },
{
    lemma_options_are_read(default_args(), raw_views(raw@), 1);
}

/// The command line is read from its arguments: each is taken as a text, as the number that it was
/// read as, and as the map that its text is.
pub proof fn arguments_are_read_as_they_stand(
    texts: Vec<String>,
    numbers: Vec<Result<u32, String>>,
    result: Result<Args, ArgError>,
    raw: Vec<RawArg>,
    read: Result<Args, ArgError>,
)
    requires
        call_ensures(parse_args, (&texts, &numbers), result),
        call_ensures(read_args, (raw,), read),
        raw@.len() == texts@.len(),
        forall|i: int|
            0 <= i < raw@.len() ==> (#[trigger] raw@[i]).text@ == texts@[i]@ && bits_view(
                raw@[i].number,
            ) == bits_view(numbers@[i]) && device_map_view(raw@[i].map) == map_or_reason(
                parsed_device_map(texts@[i]@),
            ),
    ensures
        args_view(result) == args_view(read),
{
    assert(raw_views(raw@) =~= raw_of(texts@, numbers@));
}

/// Each mistake is told in its own words; an argument that is not recognised is told as it was
/// given, and where a value could not be read, the reason is told, too.
pub proof fn mistakes_are_told_in_words(error: ArgError, text: String, cause: Option<String>)
    requires
        call_ensures(ArgError::message, (&error,), text),
        call_ensures(ArgError::cause, (&error,), cause),
    ensures
        match error {
            ArgError::UrlNeedsValue => text@ == "--ws-url needs a value"@ && cause is None,
            ArgError::ScaleNeedsValue => text@ == "--scale needs a value"@ && cause is None,
            ArgError::MapNeedsValue => text@ == "--device-map needs a value"@ && cause is None,
            ArgError::ScaleIsNoNumber { reason } => text@ == "--scale must be a float"@ && (
            cause matches Some(told) && told@ == reason@),
            ArgError::MapIsNoJson { reason } => text@ == "--device-map must be JSON"@ && (
            cause matches Some(told) && told@ == reason@),
            ArgError::Unrecognized { argument } => text@ == "unrecognized argument: "@ + argument@
                && cause is None,
            ArgError::UrlMissing => text@ == "--ws-url is required"@ && cause is None,
        },
{
}

/// The list of devices is asked for by the first argument alone.
pub proof fn list_is_asked_for_by_the_first_argument(texts: Vec<String>, wants: bool)
    requires
        call_ensures(wants_device_list, (&texts,), wants),
    ensures
        texts@.len() <= 1 ==> !wants,
        texts@.len() > 1 ==> (wants <==> texts@[1]@ == "--list-devices"@),
{
}

/// The device map of a text is the one that the entries of the text make, or the complaint that the
/// text has none.
pub proof fn text_makes_the_map_of_its_entries(
    json: &str,
    result: Result<DeviceMap, String>,
    parsed: Result<Vec<(String, Option<Vec<u32>>)>, String>,
    made: Result<DeviceMap, String>,
)
    requires
        call_ensures(parse_device_map, (json,), result),
        parsed_view(parsed) == parsed_device_map(json@),
        call_ensures(device_map_of, (parsed,), made),
    ensures
        match (result, made) {
            (Ok(map), Ok(other)) => map@ == other@,
            (Err(complaint), Err(other)) => complaint@ == other@,
            _ => false,
        },
{
}

} // verus!
