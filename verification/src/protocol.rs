//! The test server's side of the buttplug protocol: what it reads from a client, and what it
//! answers.

use crate::clock::Timestamp;
use crate::text::{decimal, signed_decimal};
use buttplug_core::message::ButtplugClientMessageV4 as Message;
use buttplug_core::message::{
    ButtplugMessage, ButtplugMessageSpecVersion, ButtplugServerMessageV4, DeviceFeature,
    DeviceFeatureOutput, DeviceFeatureOutputValueProperties, DeviceListV4, DeviceMessageInfoV4,
    OkV0, ServerInfoV4,
};
use buttplug_core::util::range::RangeInclusive;
use buttplug_core::util::small_vec_enum_map::SmallVecEnumMap;
use vstd::prelude::*;

verus! {

/// A command to an actuator, as the test server received it.
#[derive(Debug, Clone, Copy, PartialEq, Eq, Structural)]
pub struct ReceivedCommand {
    pub device_index: u32,
    pub feature_index: u32,
    pub value: i32,
    /// When the server read it.
    pub at: Timestamp,
}

/// A message from a client, as far as the test server looks into it.
#[derive(Debug, Clone, Copy, PartialEq, Eq, Structural)]
pub enum ClientRequest {
    ServerInfo { id: u32 },
    DeviceList { id: u32 },
    Output { id: u32, device_index: u32, feature_index: u32, value: i32 },
    Ping,
    StartScanning,
    StopScanning,
    Stop,
    Input,
}

/// The messages that a text from a client holds, or the reason why it holds none.
pub uninterp spec fn client_requests(text: Seq<char>) -> Result<Seq<ClientRequest>, Seq<char>>;

/// What came of reading a text, by its characters.
pub open spec fn requests_view(requests: Result<Vec<ClientRequest>, String>) -> Result<
    Seq<ClientRequest>,
    Seq<char>,
> {
    match requests {
        Ok(requests) => Ok(requests@),
        Err(reason) => Err(reason@),
    }
}

/// `serde_json::from_str`, for a list of `buttplug_core`'s client messages of the fourth version.
/// Of the result nothing is said but that it depends on the text alone.
#[verifier::external_body]
pub(crate) fn read_messages(text: &str) -> (requests: Result<Vec<ClientRequest>, String>)
    ensures
        requests_view(requests) == client_requests(text@),
{
    let messages = serde_json::from_str::<Vec<Message>>(text).map_err(|e| e.to_string())?;
    Ok(messages.iter().map(|message| match message {
        Message::RequestServerInfo(m) => ClientRequest::ServerInfo { id: m.id() },
        Message::RequestDeviceList(m) => ClientRequest::DeviceList { id: m.id() },
        Message::OutputCmd(m) => ClientRequest::Output { id: m.id(), device_index:
            m.device_index(), feature_index: m.feature_index(), value: m.command().value() },
        Message::Ping(_) => ClientRequest::Ping,
        Message::StartScanning(_) => ClientRequest::StartScanning,
        Message::StopScanning(_) => ClientRequest::StopScanning,
        Message::StopCmd(_) => ClientRequest::Stop,
        Message::InputCmd(_) => ClientRequest::Input,
    }).collect())
}

/// Reads the messages of a text from a client.
pub fn parse_messages(text: &str) -> (requests: Result<Vec<ClientRequest>, String>)
    ensures
        requests_view(requests) == client_requests(text@),
{
    read_messages(text)
}

/// A text that stands in JSON as it is: printable ASCII without quotes and backslashes.
pub open spec fn is_plain(text: Seq<char>) -> bool {
    forall|i: int|
        0 <= i < text.len() ==> ' ' <= #[trigger] text[i] <= '~' && text[i] != '"' && text[i]
            != '\\'
}

/// The text that was written, if it could be.
pub open spec fn written(text: Result<String, String>) -> Option<Seq<char>> {
    match text {
        Ok(text) => Some(text@),
        Err(_) => None,
    }
}

/// The text of an answer that a command was taken.
pub open spec fn ok_text(id: u32) -> Seq<char> {
    "[{\"Ok\":{\"Id\":"@ + decimal(id as nat) + "}}]"@
}

/// `serde_json::to_string` of a list of one `buttplug_core` message, an `Ok` with this id: the
/// message's derived serialization writes its name and its one field.
#[verifier::external_body]
pub(crate) fn write_ok(id: u32) -> (text: Result<String, String>)
    ensures
        written(text) == Some(ok_text(id)),
{
    let ok = ButtplugServerMessageV4::Ok(OkV0::new(id));
    serde_json::to_string(&[&ok]).map_err(|e| e.to_string())
}

/// The text of an answer that tells about a server that speaks the fourth version.
pub open spec fn server_info_text(
    id: u32,
    name: Seq<char>,
    minor_version: u32,
    max_ping_time: u32,
) -> Seq<char> {
    "[{\"ServerInfo\":{\"Id\":"@ + decimal(id as nat)
        + ",\"ProtocolVersionMajor\":4,\"ProtocolVersionMinor\":"@ + decimal(minor_version as nat)
        + ",\"MaxPingTime\":"@ + decimal(max_ping_time as nat) + ",\"ServerName\":\""@ + name
        + "\"}}]"@
}

/// `serde_json::to_string` of a list of one `buttplug_core` message, a `ServerInfo` of the fourth
/// version: the message's derived serialization writes its fields in their order, the version as
/// its number.
#[verifier::external_body]
pub(crate) fn write_server_info(
    id: u32,
    name: &str,
    minor_version: u32,
    max_ping_time: u32,
) -> (text: Result<String, String>)
    requires
        is_plain(name@),
    ensures
        written(text) == Some(server_info_text(id, name@, minor_version, max_ping_time)),
{
    let version = ButtplugMessageSpecVersion::Version4;
    let mut info = ServerInfoV4::new(name, version, minor_version, max_ping_time);
    info.set_id(id);
    serde_json::to_string(&[&ButtplugServerMessageV4::ServerInfo(info)]).map_err(|e| e.to_string())
}

/// The text of an answer that lists one device with one feature, a vibrator.
pub open spec fn device_list_text(
    id: u32,
    device_index: u32,
    name: Seq<char>,
    timing_gap: u32,
    feature_index: u32,
    low: i32,
    high: i32,
) -> Seq<char> {
    "[{\"DeviceList\":{\"Id\":"@ + decimal(id as nat) + ",\"Devices\":{\""@ + decimal(
        device_index as nat,
    ) + "\":{\"DeviceIndex\":"@ + decimal(device_index as nat) + ",\"DeviceName\":\""@ + name
        + "\",\"DeviceMessageTimingGap\":"@ + decimal(timing_gap as nat)
        + ",\"DeviceFeatures\":{\""@ + decimal(feature_index as nat) + "\":{\"FeatureIndex\":"@
        + decimal(feature_index as nat) + ",\"FeatureDescription\":\""@ + name
        + "\",\"Output\":{\"Vibrate\":{\"Value\":["@ + signed_decimal(low as int) + ","@
        + signed_decimal(high as int) + "]}}}}}}}}]"@
}

/// `serde_json::to_string` of a list of one `buttplug_core` message, a `DeviceList` of one device
/// without a display name, with one feature without inputs: the derived serializations write the
/// fields in their order, the maps with their one key, and leave out what is absent.
#[verifier::external_body]
pub(crate) fn write_device_list(
    id: u32,
    device_index: u32,
    name: &str,
    timing_gap: u32,
    feature_index: u32,
    low: i32,
    high: i32,
) -> (text: Result<String, String>)
    requires
        is_plain(name@),
    ensures
        written(text) == Some(
            device_list_text(id, device_index, name@, timing_gap, feature_index, low, high),
        ),
{
    let value = DeviceFeatureOutputValueProperties::new(RangeInclusive::new(low, high));
    let outputs = SmallVecEnumMap::from_iter([DeviceFeatureOutput::Vibrate(value)]);
    let feature = DeviceFeature::new(feature_index, name, &outputs, &SmallVecEnumMap::default());
    let features = std::collections::BTreeMap::from([(feature_index, feature)]);
    let info = DeviceMessageInfoV4::new(device_index, name, &None, timing_gap, &features);
    let mut list = DeviceListV4::new(vec![info]);
    list.set_id(id);
    serde_json::to_string(&[&ButtplugServerMessageV4::DeviceList(list)]).map_err(|e| e.to_string())
}

/// The list of devices of the test server: one vibrator, that takes values from 0 to 100.
pub fn device_list_message(id: u32) -> (text: Result<String, String>)
    ensures
        written(text) == Some(device_list_text(id, 0, "Fake Vibrator"@, 0, 0, 0, 100)),
{
    proof {
        reveal_strlit("Fake Vibrator");
    }
    write_device_list(id, 0, "Fake Vibrator", 0, 0, 0, 100)
}

/// What the test server does about one message.
#[derive(Debug)]
pub struct Response {
    /// The command that it received.
    pub received: Option<ReceivedCommand>,
    /// The text that it answers, or why that could not be written; `None` where it does not
    /// answer.
    pub reply: Option<Result<String, String>>,
}

/// The text that the test server answers to a message.
pub open spec fn reply_text(request: ClientRequest) -> Option<Seq<char>> {
    match request {
        ClientRequest::ServerInfo { id } => Some(
            server_info_text(id, "fake-buttplug-server"@, 0, 0),
        ),
        ClientRequest::DeviceList { id } => Some(
            device_list_text(id, 0, "Fake Vibrator"@, 0, 0, 0, 100),
        ),
        ClientRequest::Output { id, .. } => Some(ok_text(id)),
        _ => None,
    }
}

/// What the test server does about one message, read at `at`: it tells about itself and its
/// devices, takes commands and remembers them, and answers nothing else.
pub fn respond(request: &ClientRequest, at: Timestamp) -> (response: Response)
    ensures
        response.received == (match *request {
            ClientRequest::Output { device_index, feature_index, value, .. } => Some(
                ReceivedCommand { device_index, feature_index, value, at },
            ),
            _ => None,
        }),
        response.reply is Some <==> reply_text(*request) is Some,
        response.reply matches Some(reply) ==> written(reply) == reply_text(*request),
{
    match request {
        ClientRequest::ServerInfo { id } => {
            proof {
                reveal_strlit("fake-buttplug-server");
            }
            Response {
                received: None,
                reply: Some(write_server_info(*id, "fake-buttplug-server", 0, 0)),
            }
        },
        ClientRequest::DeviceList { id } => {
            Response { received: None, reply: Some(device_list_message(*id)) }
        },
        ClientRequest::Output { id, device_index, feature_index, value } => {
            let received = ReceivedCommand {
                device_index: *device_index,
                feature_index: *feature_index,
                value: *value,
                at,
            };
            Response { received: Some(received), reply: Some(write_ok(*id)) }
        },
        _ => Response { received: None, reply: None },
    }
}

/// A command is remembered with its actuator, feature and value and with when it was read, and no
/// other message is.
pub proof fn commands_alone_are_remembered(
    request: ClientRequest,
    at: Timestamp,
    response: Response,
)
    requires
        call_ensures(respond, (&request, at), response),
    ensures
        response.received is Some <==> request is Output,
        response.received matches Some(received) ==> {
            &&& received.at == at
            &&& received.device_index == request->Output_device_index
            &&& received.feature_index == request->feature_index
            &&& received.value == request->value
        },
{
}

/// The server answers a request about itself, a request for its devices and a command, each under
/// the id of the message that it answers, and answers nothing else. It has one vibrator, that takes
/// values from 0 to 100.
pub proof fn answers_bear_the_id_of_the_request(
    request: ClientRequest,
    at: Timestamp,
    response: Response,
)
    requires
        call_ensures(respond, (&request, at), response),
    ensures
        match (request, response.reply) {
            (ClientRequest::ServerInfo { id }, Some(reply)) => written(reply) == Some(
                server_info_text(id, "fake-buttplug-server"@, 0, 0),
            ),
            (ClientRequest::DeviceList { id }, Some(reply)) => written(reply) == Some(
                device_list_text(id, 0, "Fake Vibrator"@, 0, 0, 0, 100),
            ),
            (ClientRequest::Output { id, .. }, Some(reply)) => written(reply) == Some(ok_text(id)),
            (ClientRequest::ServerInfo { .. }, None) => false,
            (ClientRequest::DeviceList { .. }, None) => false,
            (ClientRequest::Output { .. }, None) => false,
            (_, reply) => reply is None,
        },
{
}

/// The messages of a text are those that reading it gives.
pub proof fn parsed_messages_are_those_of_the_text(
    text: &str,
    requests: Result<Vec<ClientRequest>, String>,
)
    requires
        call_ensures(parse_messages, (text,), requests),
    ensures
        match requests {
            Ok(messages) => client_requests(text@) == Ok::<Seq<ClientRequest>, Seq<char>>(
                messages@,
            ),
            Err(reason) => client_requests(text@) == Err::<Seq<ClientRequest>, Seq<char>>(
                reason@,
            ),
        },
{
}

/// The list of devices is written under the id that was asked for: one vibrator, that takes values
/// from 0 to 100.
pub proof fn device_list_bears_its_id(id: u32, text: Result<String, String>)
    requires
        call_ensures(device_list_message, (id,), text),
    ensures
        written(text) == Some(device_list_text(id, 0, "Fake Vibrator"@, 0, 0, 0, 100)),
{
}

} // verus!
