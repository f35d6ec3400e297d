use crate::config::str_eq;
use crate::json::{
    as_u64, field, field_of, json_of, member_index, parse_json, to_document, u64_of, Json,
};
use crate::producer::{update_spec, IntervalTooShort, ProbeConfig, ProducerConfig};
use serde_json::Value;
use vstd::prelude::*;

verus! {

/// The wire envelope `{type, data}`; `kind` holds the `type` tag.
#[derive(Clone, Debug)]
pub struct Message<T> {
    pub kind: String,
    pub data: T,
}

/// The decode of MessagePack bytes; `None` when they are not a document.
pub uninterp spec fn msgpack_of(bytes: Seq<u8>) -> Option<Json>;

/// Relies on `rmp_serde::from_slice`: decodes MessagePack bytes; the result
/// depends on the bytes alone.
#[verifier::external_body]
fn parse_msgpack(bytes: &[u8]) -> (r: Option<Json>)
    ensures
        r == msgpack_of(bytes@),
{
    match rmp_serde::from_slice::<Value>(bytes) {
        Ok(v) => Some(to_document(v)),
        Err(_) => None,
    }
}

/// The envelope a document holds: an object with a string `type` and a `data` member.
pub open spec fn envelope_spec(doc: Json) -> Option<Message<Json>> {
    match field_of(doc, "type"@) {
        Some(Json::Str(kind)) => match field_of(doc, "data"@) {
            Some(data) => Some(Message { kind, data }),
            None => None,
        },
        _ => None,
    }
}

/// The envelope, if any, in a parse result.
pub open spec fn decoded_spec(doc: Option<Json>) -> Option<Message<Json>> {
    match doc {
        Some(d) => envelope_spec(d),
        None => None,
    }
}

/// Takes the envelope out of a decoded document.
pub fn message_from_document(doc: Json) -> (r: Option<Message<Json>>)
    ensures
        r == envelope_spec(doc),
{
    match doc {
        Json::Object(mut members) => {
            let kind = match member_index(&members, "type") {
                Some(i) => match &members[i].1 {
                    Json::Str(s) => s.clone(),
                    _ => return None,
                },
                None => return None,
            };
            match member_index(&members, "data") {
                Some(j) => {
                    let (_, data) = members.remove(j);
                    Some(Message { kind, data })
                },
                None => None,
            }
        },
        _ => None,
    }
}

/// Decodes a text frame (JSON).
pub fn decode_text(text: &str) -> (r: Option<Message<Json>>)
    ensures
        r == decoded_spec(json_of(text@)),
{
    match parse_json(text) {
        Some(doc) => message_from_document(doc),
        None => None,
    }
}

/// Decodes a binary frame (MessagePack, same schema).
pub fn decode_binary(bytes: &[u8]) -> (r: Option<Message<Json>>)
    ensures
        r == decoded_spec(msgpack_of(bytes@)),
{
    match parse_msgpack(bytes) {
        Some(doc) => message_from_document(doc),
        None => None,
    }
}

/// The `update_config` payload `{"metrics_interval": <u64>}`.
pub open spec fn probe_spec(data: Json) -> Option<ProbeConfig> {
    match field_of(data, "metrics_interval"@) {
        Some(v) => match u64_of(v) {
            Some(n) => Some(ProbeConfig { metrics_interval: n }),
            None => None,
        },
        None => None,
    }
}

/// Reads an `update_config` payload.
pub fn probe_from_value(data: &Json) -> (r: Option<ProbeConfig>)
    ensures
        r == probe_spec(*data),
{
    match field(data, "metrics_interval") {
        Some(n) => match as_u64(n) {
            Some(secs) => Some(ProbeConfig { metrics_interval: secs }),
            None => None,
        },
        None => None,
    }
}

/// A server command, by its envelope tag.
#[derive(Clone, Debug, PartialEq, Eq)]
pub enum Command {
    /// `get_info`: answer with the identity snapshot.
    GetInfo,
    /// `update_config`, with its payload when it is well formed.
    UpdateConfig(Option<ProbeConfig>),
    /// Any other tag.
    Unknown(String),
}

pub open spec fn command_spec(msg: Message<Json>) -> Command {
    if msg.kind@ == "get_info"@ {
        Command::GetInfo
    } else if msg.kind@ == "update_config"@ {
        Command::UpdateConfig(probe_spec(msg.data))
    } else {
        Command::Unknown(msg.kind)
    }
}

/// Classifies a decoded envelope by its tag; only `update_config` has its
/// payload read.
pub fn command_from_message(msg: &Message<Json>) -> (r: Command)
    ensures
        r == command_spec(*msg),
{
    proof {
        reveal_strlit("get_info");
        reveal_strlit("update_config");
        assert("get_info"@.len() != "update_config"@.len());
    }
    if str_eq(msg.kind.as_str(), "get_info") {
        Command::GetInfo
    } else if str_eq(msg.kind.as_str(), "update_config") {
        Command::UpdateConfig(probe_from_value(&msg.data))
    } else {
        Command::Unknown(msg.kind.clone())
    }
}

/// What the dispatcher does for one inbound frame.
#[derive(Clone, Debug, PartialEq, Eq)]
pub enum DispatchAction {
    /// Nothing to do (a control frame other than ping).
    Nothing,
    /// Enqueue a pong carrying this payload, ahead of nothing already queued.
    Pong(Vec<u8>),
    /// The frame did not hold an envelope: log and go on.
    DecodeFailed,
    /// Sample identity and enqueue it as a `vm_info` envelope.
    SendIdentity,
    /// Publish this validated configuration on the control channel.
    Publish(ProducerConfig),
    /// The update asked for too short an interval: keep the current one.
    Rejected(IntervalTooShort),
    /// The update's payload was not a configuration: keep the current one.
    BadPayload,
    /// An envelope with an unknown tag: log it.
    Unrecognized(String),
}

pub open spec fn decide_spec(cmd: Command) -> DispatchAction {
    match cmd {
        Command::GetInfo => DispatchAction::SendIdentity,
        Command::UpdateConfig(Some(p)) => match update_spec(p) {
            Ok(c) => DispatchAction::Publish(c),
            Err(e) => DispatchAction::Rejected(e),
        },
        Command::UpdateConfig(None) => DispatchAction::BadPayload,
        Command::Unknown(k) => DispatchAction::Unrecognized(k),
    }
}

/// The action for a command.
pub fn decide(cmd: Command) -> (r: DispatchAction)
    ensures
        r == decide_spec(cmd),
{
    match cmd {
        Command::GetInfo => DispatchAction::SendIdentity,
        Command::UpdateConfig(Some(p)) => match ProducerConfig::from_probe(p) {
            Ok(c) => DispatchAction::Publish(c),
            Err(e) => DispatchAction::Rejected(e),
        },
        Command::UpdateConfig(None) => DispatchAction::BadPayload,
        Command::Unknown(k) => DispatchAction::Unrecognized(k),
    }
}

/// An inbound frame, as read from the receive half.
#[derive(Clone, Debug, PartialEq, Eq)]
pub enum InboundFrame {
    Text(String),
    Binary(Vec<u8>),
    Ping(Vec<u8>),
    /// Pong, close or any other control frame.
    Other,
}

/// The reaction to a decoded frame: a frame holding no envelope is dropped.
pub open spec fn reaction_spec(doc: Option<Json>) -> DispatchAction {
    match decoded_spec(doc) {
        Some(m) => decide_spec(command_spec(m)),
        None => DispatchAction::DecodeFailed,
    }
}

/// The dispatcher's decision for one frame.
pub fn dispatch_frame(frame: InboundFrame) -> (r: DispatchAction)
    ensures
        frame matches InboundFrame::Ping(p) ==> r == DispatchAction::Pong(p),
        frame is Other ==> r == DispatchAction::Nothing,
        frame matches InboundFrame::Text(t) ==> r == reaction_spec(json_of(t@)),
        frame matches InboundFrame::Binary(b) ==> r == reaction_spec(msgpack_of(b@)),
{
    let msg = match frame {
        InboundFrame::Ping(p) => return DispatchAction::Pong(p),
        InboundFrame::Other => return DispatchAction::Nothing,
        InboundFrame::Text(t) => decode_text(t.as_str()),
        InboundFrame::Binary(b) => decode_binary(b.as_slice()),
    };
    match msg {
        Some(m) => {
            let cmd = command_from_message(&m);
            decide(cmd)
        },
        None => DispatchAction::DecodeFailed,
    }
}

/// A text frame and a binary frame that hold the same envelope get the same
/// reaction.
pub proof fn lemma_same_envelope_same_reaction(text: Seq<char>, bytes: Seq<u8>)
    requires
        decoded_spec(json_of(text)) == decoded_spec(msgpack_of(bytes)),
    ensures
        reaction_spec(json_of(text)) == reaction_spec(msgpack_of(bytes)),
{
}

/// Wraps a telemetry snapshot for sending.
pub fn metrics_message<T>(data: T) -> (r: Message<T>)
    ensures
        r.kind@ == "metrics"@,
        r.data == data,
{
    Message { kind: "metrics".to_owned(), data }
}

/// Wraps an identity snapshot, the answer to `get_info`.
pub fn vm_info_message<T>(data: T) -> (r: Message<T>)
    ensures
        r.kind@ == "vm_info"@,
        r.data == data,
{
    Message { kind: "vm_info".to_owned(), data }
}

} // verus!
