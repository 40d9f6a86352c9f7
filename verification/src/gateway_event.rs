//! The events that a shard exchanges with the gateway, and the frame that carries them.
use vstd::prelude::*;

use crate::text::{is_json_bool, json_bool_error, lemma_json_bool_unique, parse_json_bool};

verus! {

/// Something happened; what it was is in `event_type`, the details are in `event_data`.
#[derive(Debug)]
pub struct Dispatch {
    pub event_type: String,
    /// The payload, as unparsed JSON text.
    pub event_data: String,
    pub seq: u64,
}

#[derive(Debug)]
pub struct Heartbeat {
    pub last_seq_number: u64,
}

#[derive(Debug)]
pub struct IdentifyProperties {
    pub os: &'static str,
    pub browser: &'static str,
    pub device: &'static str,
}

#[derive(Debug)]
pub struct Identify {
    pub token: String,
    pub properties: IdentifyProperties,
    pub intents: u32,
}

#[derive(Debug)]
pub struct PresenceUpdate {}

#[derive(Debug)]
pub struct VoiceStateUpdate {}

#[derive(Debug)]
pub struct Resume {
    pub token: String,
    pub session_id: String,
    pub seq: u64,
}

#[derive(Debug)]
pub struct RequestGuildMembers {}

#[derive(Debug)]
pub struct InvalidSession {
    pub may_be_resumable: bool,
}

#[derive(Debug)]
pub struct Hello {
    /// The time between two heartbeats, in milliseconds.
    pub heartbeat_interval: u64,
}

/// The payload of the dispatched event that opens a session.
#[derive(Debug)]
pub struct Ready {
    pub session_id: String,
    pub resume_gateway_url: String,
}

/// The frame around every event: an opcode, the payload, and for dispatched events a sequence
/// number and a name.
#[derive(Debug)]
pub struct RawGatewayEvent<T> {
    pub op: u32,
    pub d: T,
    pub s: Option<u64>,
    pub t: Option<String>,
}

#[derive(Debug)]
pub enum GatewaySendEvent {
    /// Fired periodically by the client to keep the connection alive.
    Heartbeat(Heartbeat),
    /// Starts a new session during the initial handshake.
    Identify(Identify),
    /// Update the client's presence.
    PresenceUpdate(PresenceUpdate),
    /// Used to join/leave or move between voice channels.
    VoiceStateUpdate(VoiceStateUpdate),
    /// Resume a previous session that was disconnected.
    Resume(Resume),
    /// Request information about offline guild members in a large guild.
    RequestGuildMembers(RequestGuildMembers),
}

/// The opcode under which `event` is sent.
pub open spec fn send_opcode(event: GatewaySendEvent) -> u32 {
    match event {
        GatewaySendEvent::Heartbeat(_) => 1,
        GatewaySendEvent::Identify(_) => 2,
        GatewaySendEvent::PresenceUpdate(_) => 3,
        GatewaySendEvent::VoiceStateUpdate(_) => 4,
        GatewaySendEvent::Resume(_) => 6,
        GatewaySendEvent::RequestGuildMembers(_) => 8,
    }
}

impl GatewaySendEvent {
    /// Puts the event into its frame: the opcode of its kind, the event as the payload, and
    /// neither a sequence number nor a name.
    pub fn serialize(self) -> (frame: RawGatewayEvent<GatewaySendEvent>)
        ensures
            frame.op == send_opcode(self),
            self is Heartbeat ==> frame.op == 1,
            self is Identify ==> frame.op == 2,
            self is PresenceUpdate ==> frame.op == 3,
            self is VoiceStateUpdate ==> frame.op == 4,
            self is Resume ==> frame.op == 6,
            self is RequestGuildMembers ==> frame.op == 8,
            frame.d == self,
            frame.s is None,
            frame.t is None,
    {
        let op: u32 = match &self {
            GatewaySendEvent::Heartbeat(_) => 1,
            GatewaySendEvent::Identify(_) => 2,
            GatewaySendEvent::PresenceUpdate(_) => 3,
            GatewaySendEvent::VoiceStateUpdate(_) => 4,
            GatewaySendEvent::Resume(_) => 6,
            GatewaySendEvent::RequestGuildMembers(_) => 8,
        };
        RawGatewayEvent { op, d: self, s: None, t: None }
    }
}

#[derive(Debug)]
pub enum GatewayReceiveEvent {
    /// An event was dispatched.
    Dispatch(Dispatch),
    /// You should immediately send another heartbeat without waiting the remainer of the
    /// current interval.
    Heartbeat,
    /// You should attempt to reconnect and resume immediately.
    Reconnect,
    /// The session has been invalidated. You should reconnect and identify/resume accordingly.
    InvalidSession(InvalidSession),
    /// Sent immediately after connecting, contains the heartbeat_interval to use.
    Hello(Hello),
    /// Sent in response to receiving a heartbeat to acknowledge that it has been received.
    HeartbeatAck,
}

/// What a frame turned out to hold.
#[derive(Debug)]
pub enum Decoded {
    /// The event, complete.
    Event(GatewayReceiveEvent),
    /// A hello whose payload, this JSON text, has yet to be read. `GatewayReceiveEvent::hello`
    /// takes what came of it.
    Hello(String),
}

/// Why a frame holds no event that a client can receive.
#[derive(Debug)]
pub enum DecodeError {
    /// A field of the frame that its opcode calls for is absent.
    MissingField(&'static str),
    /// The payload is not what the opcode calls for, as this message says.
    InvalidPayload(String),
    /// The opcode is unknown, or is one that only a client sends.
    InvalidOpcode(u32),
}

/// The opcodes under which a client can receive an event.
pub open spec fn is_receive_opcode(op: u32) -> bool {
    op == 0 || op == 1 || op == 7 || op == 9 || op == 10 || op == 11
}

impl GatewayReceiveEvent {
    /// Tells from its opcode which event a frame holds. The payload of a hello is left to be
    /// read, that of a dispatched event is left as it is.
    pub fn deserialize(event: RawGatewayEvent<String>) -> (r: Result<Decoded, DecodeError>)
        ensures
            event.op == 0 ==> match (event.t, event.s) {
                (Some(event_type), Some(seq)) => r == Ok::<Decoded, DecodeError>(
                    Decoded::Event(
                        GatewayReceiveEvent::Dispatch(
                            Dispatch { event_type, event_data: event.d, seq },
                        ),
                    ),
                ),
                (None, _) => r == Err::<Decoded, DecodeError>(DecodeError::MissingField("t")),
                (Some(_), None) => r == Err::<Decoded, DecodeError>(DecodeError::MissingField("s")),
            },
            event.op == 1 ==> r == Ok::<Decoded, DecodeError>(
                Decoded::Event(GatewayReceiveEvent::Heartbeat),
            ),
            event.op == 7 ==> r == Ok::<Decoded, DecodeError>(
                Decoded::Event(GatewayReceiveEvent::Reconnect),
            ),
            event.op == 9 && is_json_bool(event.d@, true) ==> r == Ok::<Decoded, DecodeError>(
                Decoded::Event(
                    GatewayReceiveEvent::InvalidSession(
                        InvalidSession { may_be_resumable: true },
                    ),
                ),
            ),
            event.op == 9 && is_json_bool(event.d@, false) ==> r == Ok::<Decoded, DecodeError>(
                Decoded::Event(
                    GatewayReceiveEvent::InvalidSession(
                        InvalidSession { may_be_resumable: false },
                    ),
                ),
            ),
            event.op == 9 && !is_json_bool(event.d@, true) && !is_json_bool(event.d@, false) ==> (r
                matches Err(DecodeError::InvalidPayload(message)) && message@ == json_bool_error(
                event.d@,
            )),
            event.op == 10 ==> r == Ok::<Decoded, DecodeError>(Decoded::Hello(event.d)),
            event.op == 11 ==> r == Ok::<Decoded, DecodeError>(
                Decoded::Event(GatewayReceiveEvent::HeartbeatAck),
            ),
            event.op != 0 && event.op != 1 && event.op != 7 && event.op != 9 && event.op != 10
                && event.op != 11 ==> r == Err::<Decoded, DecodeError>(
                DecodeError::InvalidOpcode(event.op),
            ),
            !is_receive_opcode(event.op) ==> r == Err::<Decoded, DecodeError>(
                DecodeError::InvalidOpcode(event.op),
            ),
    {
        proof {
            lemma_json_bool_unique(event.d@);
        }
        match event.op {
            0 => match event.t {
                None => Err(DecodeError::MissingField("t")),
                Some(event_type) => match event.s {
                    None => Err(DecodeError::MissingField("s")),
                    Some(seq) => Ok(
                        Decoded::Event(
                            GatewayReceiveEvent::Dispatch(
                                Dispatch { event_type, event_data: event.d, seq },
                            ),
                        ),
                    ),
                },
            },
            1 => Ok(Decoded::Event(GatewayReceiveEvent::Heartbeat)),
            7 => Ok(Decoded::Event(GatewayReceiveEvent::Reconnect)),
            9 => match parse_json_bool(event.d.as_str()) {
                Ok(may_be_resumable) => Ok(
                    Decoded::Event(
                        GatewayReceiveEvent::InvalidSession(InvalidSession { may_be_resumable }),
                    ),
                ),
                Err(message) => Err(DecodeError::InvalidPayload(message)),
            },
            10 => Ok(Decoded::Hello(event.d)),
            11 => Ok(Decoded::Event(GatewayReceiveEvent::HeartbeatAck)),
            op => Err(DecodeError::InvalidOpcode(op)),
        }
    }

    /// Completes a hello with what reading its payload gave, which is a message where the
    /// payload could not be read.
    pub fn hello(payload: Result<Hello, String>) -> (r: Result<
        GatewayReceiveEvent,
        DecodeError,
    >)
        ensures
            match payload {
                Ok(hello) => r == Ok::<GatewayReceiveEvent, DecodeError>(
                    GatewayReceiveEvent::Hello(hello),
                ),
                Err(message) => r == Err::<GatewayReceiveEvent, DecodeError>(
                    DecodeError::InvalidPayload(message),
                ),
            },
    {
        match payload {
            Ok(hello) => Ok(GatewayReceiveEvent::Hello(hello)),
            Err(message) => Err(DecodeError::InvalidPayload(message)),
        }
    }
}

} // verus!
