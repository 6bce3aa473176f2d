//! Input devices with force feedback, and the events that they send.

use crate::text::{contains_text, has_part};
use crate::words::{signed_word, to_signed};
use vstd::prelude::*;

verus! {

/// The type of force-feedback events (`EV_FF`).
pub const EV_FF: u16 = 0x15;

/// What is told of one input device with force feedback.
#[derive(Debug, Clone)]
pub struct DeviceInfo {
    pub device_id: String,
    pub name: String,
    pub path: String,
}

/// A [`DeviceInfo`] by its characters.
pub struct DeviceInfoView {
    pub device_id: Seq<char>,
    pub name: Seq<char>,
    pub path: Seq<char>,
}

impl View for DeviceInfo {
    type V = DeviceInfoView;

    open spec fn view(&self) -> DeviceInfoView {
        DeviceInfoView { device_id: self.device_id@, name: self.name@, path: self.path@ }
    }
}

/// What an opened device says of itself.
#[derive(Debug)]
pub struct OpenDevice {
    /// Whether it sends force-feedback events.
    pub force_feedback: bool,
    /// Where it is plugged in, if it says so.
    pub physical_path: Option<String>,
    /// Its name, if it has one.
    pub name: Option<String>,
}

/// One entry of the directory of input devices.
#[derive(Debug)]
pub struct InputNode {
    /// Its path, where that is valid Unicode.
    pub unicode_path: Option<String>,
    /// Its path as it is shown.
    pub path: String,
    /// The last component of its path.
    pub file_name: String,
    /// The device behind it, where it could be opened.
    pub device: Option<OpenDevice>,
}

/// The path of an entry names an event device.
pub open spec fn is_event_path(unicode_path: Option<Seq<char>>) -> bool {
    unicode_path matches Some(path) && has_part(path, "event"@)
}

/// Whether the path of an entry, as far as it is valid Unicode, names an event device. Only those
/// are opened.
pub fn names_event_device(unicode_path: &Option<String>) -> (names: bool)
    ensures
        names == is_event_path(optional_text(*unicode_path)),
{
    match unicode_path {
        Some(path) => contains_text(path.as_str(), "event"),
        None => false,
    }
}

/// An optional text by its characters.
pub open spec fn optional_text(text: Option<String>) -> Option<Seq<char>> {
    match text {
        Some(text) => Some(text@),
        None => None,
    }
}

/// What identifies a device across reconnects: where it is plugged in, or its file name where it
/// does not say.
pub open spec fn spec_stable_id(
    physical_path: Option<Seq<char>>,
    file_name: Seq<char>,
) -> Seq<char> {
    match physical_path {
        Some(path) => if path.len() > 0 {
            path
        } else {
            file_name
        },
        None => file_name,
    }
}

/// What identifies a device across reconnects: its physical path, or its file name where it has
/// no physical path or an empty one.
pub fn stable_id(physical_path: &Option<String>, file_name: &String) -> (id: String)
    ensures
        id@ == spec_stable_id(optional_text(*physical_path), file_name@),
{
    match physical_path {
        Some(path) => if !is_empty_text(path) {
            path.clone()
        } else {
            file_name.clone()
        },
        None => file_name.clone(),
    }
}

fn is_empty_text(text: &String) -> (empty: bool)
    ensures
        empty == (text@.len() == 0),
{
    let nothing = "".to_owned();
    let empty = *text == nothing;
    proof {
        reveal_strlit("");
        if text@.len() == 0 {
            assert(text@ =~= nothing@);
        }
    }
    empty
}

/// An entry is listed: its path names an event device, it could be opened, and it has force
/// feedback.
pub open spec fn is_listed(node: InputNode) -> bool {
    is_event_path(optional_text(node.unicode_path)) && (node.device matches Some(device)
        && device.force_feedback)
}

/// What is told of the device of an entry.
pub open spec fn described(node: InputNode, device: OpenDevice) -> DeviceInfoView {
    DeviceInfoView {
        device_id: spec_stable_id(optional_text(device.physical_path), node.file_name@),
        name: match device.name {
            Some(name) => name@,
            None => "Unknown"@,
        },
        path: node.path@,
    }
}

/// What is told of the listed entries, in their order.
pub open spec fn listed(nodes: Seq<InputNode>) -> Seq<DeviceInfoView>
    decreases nodes.len(),
{
    if nodes.len() == 0 {
        seq![]
    } else if is_listed(nodes.last()) {
        listed(nodes.drop_last()).push(described(nodes.last(), nodes.last().device->0))
    } else {
        listed(nodes.drop_last())
    }
}

/// Texts by their characters.
pub open spec fn device_infos(infos: Seq<DeviceInfo>) -> Seq<DeviceInfoView> {
    infos.map_values(|info: DeviceInfo| info@)
}

/// Lists the devices with force feedback among the entries of the input directory.
pub fn list_ff_devices(nodes: &Vec<InputNode>) -> (infos: Vec<DeviceInfo>)
    ensures
        device_infos(infos@) == listed(nodes@),
{
    let mut infos: Vec<DeviceInfo> = Vec::new();
    let mut i: usize = 0;
    while i < nodes.len()
        invariant
            i <= nodes@.len(),
            device_infos(infos@) =~= listed(nodes@.subrange(0, i as int)),
        decreases nodes@.len() - i,
    {
        let node = &nodes[i];
        let ghost before = infos@;
        if names_event_device(&node.unicode_path) {
            if let Some(device) = &node.device {
                if device.force_feedback {
                    let name = match &device.name {
                        Some(name) => name.clone(),
                        None => "Unknown".to_owned(),
                    };
                    infos.push(
                        DeviceInfo {
                            device_id: stable_id(&device.physical_path, &node.file_name),
                            name,
                            path: node.path.clone(),
                        },
                    );
                }
            }
        }
        i = i + 1;
        proof {
            let so_far = nodes@.subrange(0, i as int);
            assert(so_far.drop_last() =~= nodes@.subrange(0, i - 1));
            assert(so_far.last() == *node);
            if is_listed(*node) {
                assert(device_infos(infos@) =~= device_infos(before).push(
                    described(*node, node.device->0),
                ));
            }
        }
    }
    assert(nodes@.subrange(0, i as int) =~= nodes@);
    infos
}

/// An event from a device with force feedback: an effect is to be played or stopped.
#[derive(Debug, Clone, Copy, PartialEq, Eq, Structural)]
pub enum FfEvent {
    Play { effect_id: i16 },
    Stop { effect_id: i16 },
}

/// An event as an input device sends it.
#[derive(Debug, Clone, Copy, PartialEq, Eq, Structural)]
pub struct InputEvent {
    pub event_type: u16,
    pub code: u16,
    pub value: i32,
}

/// The meaning of a force-feedback event: its code is the effect id, and a value of zero stops.
pub open spec fn ff_event(event: InputEvent) -> FfEvent {
    let effect_id = signed_word(event.code) as i16;
    if event.value != 0 {
        FfEvent::Play { effect_id }
    } else {
        FfEvent::Stop { effect_id }
    }
}

/// The first force-feedback event of a batch stands at `i`.
pub open spec fn first_ff_event_at(events: Seq<InputEvent>, i: int) -> bool {
    0 <= i < events.len() && events[i].event_type == EV_FF && forall|j: int|
        0 <= j < i ==> (#[trigger] events[j]).event_type != EV_FF
}

/// The meaning of the first force-feedback event in a batch of events. A batch without one gives
/// nothing, and the next batch is read.
pub fn next_ff_event(events: &Vec<InputEvent>) -> (event: Option<FfEvent>)
    ensures
        event matches Some(e) ==> exists|i: int| #[trigger]
            first_ff_event_at(events@, i) && e == ff_event(events@[i]),
        event is None <==> forall|i: int|
            0 <= i < events@.len() ==> (#[trigger] events@[i]).event_type != EV_FF,
{
    let mut i: usize = 0;
    while i < events.len()
        invariant
            i <= events@.len(),
            forall|j: int| 0 <= j < i ==> (#[trigger] events@[j]).event_type != EV_FF,
        decreases events@.len() - i,
    {
        let event = events[i];
        if event.event_type == EV_FF {
            assert(first_ff_event_at(events@, i as int));
            let effect_id: i16 = to_signed(event.code);
            return Some(
                if event.value != 0 {
                    FfEvent::Play { effect_id }
                } else {
                    FfEvent::Stop { effect_id }
                },
            );
        }
        i = i + 1;
    }
    None
}

/// A path names an event device exactly where it is valid Unicode and has the word in it.
pub proof fn event_devices_are_named_so(unicode_path: Option<String>, names: bool)
    requires
        call_ensures(names_event_device, (&unicode_path,), names),
    ensures
        names <==> unicode_path is Some && has_part((unicode_path->0)@, "event"@),
{
}

/// A device is identified by where it is plugged in, wherever it says so, and otherwise by its file
/// name.
pub proof fn device_is_identified_by_its_place(
    physical_path: Option<String>,
    file_name: String,
    id: String,
)
    requires
        call_ensures(stable_id, (&physical_path, &file_name), id),
    ensures
        physical_path is Some && (physical_path->0)@.len() > 0 ==> id@ == (physical_path->0)@,
        physical_path is Some && (physical_path->0)@.len() == 0 ==> id@ == file_name@,
        physical_path is None ==> id@ == file_name@,
{
}

/// An entry is that of a device with force feedback: it names an event device, could be opened, and
/// has force feedback.
pub open spec fn has_force_feedback(node: InputNode) -> bool {
    &&& node.unicode_path is Some
    &&& has_part((node.unicode_path->0)@, "event"@)
    &&& node.device is Some
    &&& (node.device->0).force_feedback
}

/// `info` tells of the device of `node`: where it is plugged in, or its file name where it does not
/// say; its name, or that it is unknown; and its path.
pub open spec fn tells_of(info: DeviceInfo, node: InputNode) -> bool {
    let device = node.device->0;
    &&& info.path@ == node.path@
    &&& device.name is Some ==> info.name@ == (device.name->0)@
    &&& device.name is None ==> info.name@ == "Unknown"@
    &&& device.physical_path is Some && (device.physical_path->0)@.len() > 0 ==> info.device_id@
        == (device.physical_path->0)@
    &&& device.physical_path is None || (device.physical_path->0)@.len() == 0 ==> info.device_id@
        == node.file_name@
}

proof fn lemma_listed_is_filtered(nodes: Seq<InputNode>)
    ensures
        listed(nodes) == nodes.filter(|node: InputNode| has_force_feedback(node)).map_values(
            |node: InputNode| described(node, node.device->0),
        ),
    decreases nodes.len(),
{
    let wanted = |node: InputNode| has_force_feedback(node);
    let told = |node: InputNode| described(node, node.device->0);
    reveal(Seq::filter);
    if nodes.len() == 0 {
        assert(nodes.filter(wanted).map_values(told) =~= seq![]);
    } else {
        let rest = nodes.drop_last();
        lemma_listed_is_filtered(rest);
        assert(is_listed(nodes.last()) == has_force_feedback(nodes.last()));
        if has_force_feedback(nodes.last()) {
            assert(nodes.filter(wanted) =~= rest.filter(wanted).push(nodes.last()));
            assert(nodes.filter(wanted).map_values(told) =~= rest.filter(wanted).map_values(
                told,
            ).push(told(nodes.last())));
        } else {
            assert(nodes.filter(wanted) =~= rest.filter(wanted));
        }
    }
}

/// The devices with force feedback are listed, in the order of their entries, each with what its
/// entry tells of it, and no others.
pub proof fn devices_with_force_feedback_are_listed(
    nodes: Vec<InputNode>,
    infos: Vec<DeviceInfo>,
    i: int,
)
    requires
        call_ensures(list_ff_devices, (&nodes,), infos),
    ensures
        ({
            let kept = nodes@.filter(|node: InputNode| has_force_feedback(node));
            &&& infos@.len() == kept.len()
            &&& 0 <= i < infos@.len() ==> tells_of(infos@[i], kept[i])
        }),
{
    lemma_listed_is_filtered(nodes@);
    let kept = nodes@.filter(|node: InputNode| has_force_feedback(node));
    assert(device_infos(infos@).len() == infos@.len());
    if 0 <= i < infos@.len() {
        assert(device_infos(infos@)[i] == infos@[i]@);
        assert(infos@[i]@ == described(kept[i], kept[i].device->0));
    }
}

/// Of a batch the first force-feedback event counts, and only where there is none is there nothing.
/// Its code is the effect id, as a signed number; a value of zero stops and any other plays.
pub proof fn first_event_of_a_batch_counts(
    events: Vec<InputEvent>,
    event: Option<FfEvent>,
    i: int,
)
    requires
        call_ensures(next_ff_event, (&events,), event),
        0 <= i < events@.len(),
        events@[i].event_type == 0x15,
        forall|j: int| 0 <= j < i ==> (#[trigger] events@[j]).event_type != 0x15,
    ensures
        match event {
            Some(FfEvent::Play { effect_id }) => events@[i].value != 0 && (effect_id
                == events@[i].code || effect_id == events@[i].code - 0x1_0000),
            Some(FfEvent::Stop { effect_id }) => events@[i].value == 0 && (effect_id
                == events@[i].code || effect_id == events@[i].code - 0x1_0000),
            None => false,
        },
{
    let k = choose|k: int| #[trigger]
        first_ff_event_at(events@, k) && event->0 == ff_event(events@[k]);
    assert(!(event is None));
    if k < i {
        assert(events@[k].event_type != 0x15);
    }
}

/// A batch without a force-feedback event gives nothing.
pub proof fn batch_without_events_gives_nothing(
    events: Vec<InputEvent>,
    event: Option<FfEvent>,
)
    requires
        call_ensures(next_ff_event, (&events,), event),
        forall|j: int| 0 <= j < events@.len() ==> (#[trigger] events@[j]).event_type != 0x15,
    ensures
        event is None,
{
}

} // verus!
