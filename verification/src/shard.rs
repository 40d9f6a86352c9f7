//! The state of a shard and what it does about each event. Nothing here touches the network:
//! every operation hands back an [`Action`], which the caller performs and, where the action
//! says so, reports on.
use vstd::prelude::*;

use crate::gateway_event::{
    Dispatch, GatewayReceiveEvent, GatewaySendEvent, Heartbeat, Hello, Identify,
    IdentifyProperties, InvalidSession, Ready, Resume,
};

verus! {

/// What users of a shard are told of a dispatched event.
#[derive(Debug)]
pub struct ShardEvent {
    pub name: String,
}

/// What users of a shard can ask of it.
pub enum ShardCommand {
    Shutdown,
}

/// What a connection waits for.
pub enum ConnectionState {
    WaitingForHello,
    WaitingForHelloToResume,
    WaitingForResumedAck,
    Connected,
}

#[non_exhaustive]
pub struct ShardOptions {
    pub gateway_url: String,
    pub token: String,
}

impl ShardOptions {
    pub fn new<U: Into<String>, T: Into<String>>(gateway_url: U, token: T) -> (options: Self)
        ensures
            call_ensures(U::into, (gateway_url,), options.gateway_url),
            call_ensures(T::into, (token,), options.token),
    {
        Self { gateway_url: gateway_url.into(), token: token.into() }
    }
}

/// Contains all data about a shard connection that gets thrown out on reconnect.
pub struct ShardConnection {
    /// Need to keep track of this because "When sending a heartbeat, your app will need to
    /// include the last sequence number your app received in the d field".
    pub last_seq_number: u64,
    /// Need to keep track of this because "If a client does not receive a heartbeat ACK between
    /// its attempts at sending heartbeats, this may be due to a failed or "zombied" connection.
    /// The client should immediately terminate the connection with any close code besides 1000
    /// or 1001, then reconnect and attempt to Resume."
    pub has_acknowledged_last_heartbeat: bool,
    /// The interval, in milliseconds, of the heartbeat task of this connection, once it runs.
    pub heartbeat_interval: Option<u64>,
}

/// A connection on which nothing has happened yet.
pub open spec fn fresh_connection() -> ShardConnection {
    ShardConnection {
        last_seq_number: 0,
        has_acknowledged_last_heartbeat: true,
        heartbeat_interval: None,
    }
}

impl ShardConnection {
    /// A connection on which nothing has happened yet.
    pub fn new() -> (connection: Self)
        ensures
            connection == fresh_connection(),
    {
        Self {
            last_seq_number: 0,
            has_acknowledged_last_heartbeat: true,
            heartbeat_interval: None,
        }
    }
}

/// Contains [`ShardConnection`], as well as the data that survives a reconnect.
pub struct Shard {
    pub connection: ShardConnection,
    pub session_id: Option<String>,
    pub resume_gateway_url: Option<String>,
    pub state: ConnectionState,
    pub options: ShardOptions,
}

/// Why a new connection is made, and so what becomes of the shard once it stands.
pub enum ConnectGoal {
    /// To go on with the session.
    Resume,
    /// To go on with the session, and then to send the heartbeat that was due.
    ResumeAndHeartbeat,
    /// To start a new session.
    Restart,
}

/// What is to be done about an event.
pub enum Action {
    Nothing,
    /// The event makes no sense now and has been ignored.
    Ignored,
    /// Send an event to the gateway.
    Send(GatewaySendEvent),
    /// Start the heartbeat task with the given interval in milliseconds, unless there is none
    /// because one runs already, and send `reply` to the gateway.
    Handshake { heartbeat_interval: Option<u64>, reply: GatewaySendEvent },
    /// Tell the user of an event.
    Report(ShardEvent),
    /// Read `event_data`, which is JSON text, as a [`Ready`], and hand it to
    /// [`Shard::session_ready`] along with `event`.
    ReadReady { event_data: String, event: ShardEvent },
    /// Terminate the connection with the close code `code`, and then call [`Shard::closed`].
    Close { code: u16 },
    /// Connect to `url`, replace the connection and its heartbeat task by the new connection,
    /// and hand `goal` to [`Shard::connected`].
    Connect { url: String, goal: ConnectGoal },
}

/// What came in on a connection.
pub enum Incoming {
    /// A text message, decoded.
    Event(GatewayReceiveEvent),
    /// A message that is not text.
    Other,
    /// An error in place of a message.
    Failed,
    /// The end of the stream of messages.
    Exhausted,
}

/// The close code for a connection on which a heartbeat has not been acknowledged: one of those
/// left to applications, and so neither 1000 nor 1001.
pub const ZOMBIED_CLOSE_CODE: u16 = 4000;

/// Guilds, guild messages, and the content of messages.
pub const INTENTS: u32 = 1 << 0 | 1 << 9 | 1 << 15;

/// The event that starts a session.
pub open spec fn identify_event(token: String) -> GatewaySendEvent {
    GatewaySendEvent::Identify(
        Identify {
            token,
            properties: IdentifyProperties { os: "a", browser: "b", device: "c" },
            intents: 33281,
        },
    )
}

/// `name` is the name of the event that opens a session.
pub open spec fn is_ready_event(name: Seq<char>) -> bool {
    crate::text::same_ignoring_ascii_case(name, "ready"@)
}

impl Shard {
    /// A shard at the start of its first connection.
    pub open spec fn started(options: ShardOptions) -> Shard {
        Shard {
            connection: fresh_connection(),
            session_id: None,
            resume_gateway_url: None,
            state: ConnectionState::WaitingForHello,
            options,
        }
    }

    /// Where to connect in order to resume: where the gateway said, or the default if it has
    /// not said anything.
    pub open spec fn resume_url(self) -> String {
        match self.resume_gateway_url {
            Some(url) => url,
            None => self.options.gateway_url,
        }
    }

    /// The shard on a new connection that is to go on with the session. Of the old connection
    /// only the sequence number is left.
    pub open spec fn resumed(self) -> Shard {
        Shard {
            connection: ShardConnection {
                last_seq_number: self.connection.last_seq_number,
                ..fresh_connection()
            },
            state: ConnectionState::WaitingForHelloToResume,
            ..self
        }
    }

    /// The shard on a new connection that is to start a new session. Of the old connection
    /// nothing is left.
    pub open spec fn restarted(self) -> Shard {
        Shard {
            connection: fresh_connection(),
            state: ConnectionState::WaitingForHello,
            ..self
        }
    }

    /// The shard once it knows of its session.
    pub open spec fn with_session(self, ready: Ready) -> Shard {
        Shard {
            session_id: Some(ready.session_id),
            resume_gateway_url: Some(ready.resume_gateway_url),
            ..self
        }
    }

    /// The shard once it has sent a heartbeat of its own accord.
    pub open spec fn heartbeat_sent(self) -> Shard {
        Shard {
            connection: ShardConnection {
                has_acknowledged_last_heartbeat: false,
                ..self.connection
            },
            ..self
        }
    }

    /// The heartbeat that the shard would send now.
    pub open spec fn heartbeat_event(self) -> GatewaySendEvent {
        GatewaySendEvent::Heartbeat(
            Heartbeat { last_seq_number: self.connection.last_seq_number },
        )
    }

    /// The connection waits for a hello, to start a session or to resume one.
    pub open spec fn waits_for_hello(self) -> bool {
        self.state is WaitingForHello || self.state is WaitingForHelloToResume
    }

    /// The event that answers a hello.
    pub open spec fn handshake_event(self) -> GatewaySendEvent {
        if self.state is WaitingForHelloToResume {
            GatewaySendEvent::Resume(
                Resume {
                    token: self.options.token,
                    session_id: self.session_id->0,
                    seq: self.connection.last_seq_number,
                },
            )
        } else {
            identify_event(self.options.token)
        }
    }

    /// There is an answer to `msg`. There is none to a hello that asks the shard to resume a
    /// session that it never had.
    pub open spec fn can_process(self, msg: GatewayReceiveEvent) -> bool {
        msg is Hello && self.state is WaitingForHelloToResume ==> self.session_id is Some
    }

    /// The shard once it has received `msg`, before anything has been done about it.
    pub open spec fn received(self, msg: GatewayReceiveEvent) -> Shard {
        Shard {
            connection: ShardConnection {
                last_seq_number: match msg {
                    GatewayReceiveEvent::Dispatch(dispatch) => dispatch.seq,
                    _ => self.connection.last_seq_number,
                },
                has_acknowledged_last_heartbeat: msg is HeartbeatAck
                    || self.connection.has_acknowledged_last_heartbeat,
                heartbeat_interval: match (msg, self.connection.heartbeat_interval) {
                    (GatewayReceiveEvent::Hello(hello), None) if self.waits_for_hello() => Some(
                        hello.heartbeat_interval,
                    ),
                    (_, interval) => interval,
                },
            },
            ..self
        }
    }

    /// What is to be done about `msg`.
    pub open spec fn reaction(self, msg: GatewayReceiveEvent) -> Action {
        match msg {
            GatewayReceiveEvent::Dispatch(dispatch) => {
                let event = ShardEvent { name: dispatch.event_type };
                if is_ready_event(dispatch.event_type@) {
                    Action::ReadReady { event_data: dispatch.event_data, event }
                } else {
                    Action::Report(event)
                }
            },
            GatewayReceiveEvent::Heartbeat => Action::Send(self.heartbeat_event()),
            GatewayReceiveEvent::Hello(hello) => if self.waits_for_hello() {
                Action::Handshake {
                    heartbeat_interval: if self.connection.heartbeat_interval is None {
                        Some(hello.heartbeat_interval)
                    } else {
                        None
                    },
                    reply: self.handshake_event(),
                }
            } else {
                Action::Ignored
            },
            GatewayReceiveEvent::Reconnect => Action::Connect {
                url: self.resume_url(),
                goal: ConnectGoal::Resume,
            },
            GatewayReceiveEvent::HeartbeatAck => Action::Nothing,
            GatewayReceiveEvent::InvalidSession(invalid) => if invalid.may_be_resumable {
                Action::Connect { url: self.resume_url(), goal: ConnectGoal::Resume }
            } else {
                Action::Connect { url: self.options.gateway_url, goal: ConnectGoal::Restart }
            },
        }
    }

    /// What is to be done when a heartbeat is due.
    pub open spec fn heartbeat_reaction(self) -> Action {
        if self.connection.has_acknowledged_last_heartbeat {
            Action::Send(self.heartbeat_event())
        } else {
            Action::Close { code: ZOMBIED_CLOSE_CODE }
        }
    }

    /// What is to be done once the connection has been terminated.
    pub open spec fn closed_reaction(self) -> Action {
        Action::Connect { url: self.resume_url(), goal: ConnectGoal::ResumeAndHeartbeat }
    }

    /// A shard whose first connection, to the gateway URL of `options`, has just been made.
    pub fn new(options: ShardOptions) -> (shard: Self)
        ensures
            shard == Shard::started(options),
    {
        Self {
            connection: ShardConnection::new(),
            session_id: None,
            resume_gateway_url: None,
            state: ConnectionState::WaitingForHello,
            options,
        }
    }

    /// Deals with an event from the gateway.
    pub fn process_gateway_event(&mut self, msg: GatewayReceiveEvent) -> (action: Action)
        requires
            old(self).can_process(msg),
        ensures
            *final(self) == old(self).received(msg),
            action == old(self).reaction(msg),
    {
        match msg {
            GatewayReceiveEvent::Dispatch(Dispatch { event_type, event_data, seq }) => {
                self.connection.last_seq_number = seq;
                if event_type.as_str().eq_ignore_ascii_case("ready") {
                    Action::ReadReady { event_data, event: ShardEvent { name: event_type } }
                } else {
                    Action::Report(ShardEvent { name: event_type })
                }
            },
            GatewayReceiveEvent::Heartbeat => {
                Action::Send(
                    GatewaySendEvent::Heartbeat(
                        Heartbeat { last_seq_number: self.connection.last_seq_number },
                    ),
                )
            },
            GatewayReceiveEvent::Hello(Hello { heartbeat_interval }) => self.handshake(
                heartbeat_interval,
            ),
            GatewayReceiveEvent::Reconnect => Action::Connect {
                url: self.resume_gateway_url_or_default(),
                goal: ConnectGoal::Resume,
            },
            GatewayReceiveEvent::HeartbeatAck => {
                self.connection.has_acknowledged_last_heartbeat = true;
                Action::Nothing
            },
            GatewayReceiveEvent::InvalidSession(InvalidSession { may_be_resumable }) => {
                if may_be_resumable {
                    Action::Connect {
                        url: self.resume_gateway_url_or_default(),
                        goal: ConnectGoal::Resume,
                    }
                } else {
                    Action::Connect {
                        url: self.options.gateway_url.clone(),
                        goal: ConnectGoal::Restart,
                    }
                }
            },
        }
    }

    /// Tells whether [`Shard::process_gateway_event`] can deal with `msg`.
    pub fn is_processable(&self, msg: &GatewayReceiveEvent) -> (r: bool)
        ensures
            r == self.can_process(*msg),
    {
        match (msg, &self.state) {
            (GatewayReceiveEvent::Hello(_), ConnectionState::WaitingForHelloToResume) => {
                self.session_id.is_some()
            },
            _ => true,
        }
    }

    /// Takes note of the session that [`Action::ReadReady`] asked about.
    pub fn session_ready(&mut self, ready: Ready, event: ShardEvent) -> (action: Action)
        ensures
            *final(self) == old(self).with_session(ready),
            action == Action::Report(event),
    {
        self.resume_gateway_url = Some(ready.resume_gateway_url);
        self.session_id = Some(ready.session_id);
        Action::Report(event)
    }

    /// Moves the shard to the new connection that [`Action::Connect`] asked for.
    pub fn connected(&mut self, goal: ConnectGoal) -> (action: Action)
        ensures
            match goal {
                ConnectGoal::Resume => {
                    &&& *final(self) == old(self).resumed()
                    &&& action is Nothing
                },
                ConnectGoal::ResumeAndHeartbeat => {
                    &&& *final(self) == old(self).resumed().heartbeat_sent()
                    &&& action == Action::Send(old(self).heartbeat_event())
                },
                ConnectGoal::Restart => {
                    &&& *final(self) == old(self).restarted()
                    &&& action is Nothing
                },
            },
    {
        match goal {
            ConnectGoal::Resume => {
                self.reconnect_and_resume();
                Action::Nothing
            },
            ConnectGoal::ResumeAndHeartbeat => {
                self.reconnect_and_resume();
                Action::Send(self.heartbeat())
            },
            ConnectGoal::Restart => {
                self.reconnect_and_dont_resume();
                Action::Nothing
            },
        }
    }

    /// Deals with a heartbeat that is due. If the last one has not been acknowledged, the
    /// connection is terminated first.
    pub fn heartbeat_due(&mut self) -> (action: Action)
        ensures
            *final(self) == if old(self).connection.has_acknowledged_last_heartbeat {
                old(self).heartbeat_sent()
            } else {
                *old(self)
            },
            action == old(self).heartbeat_reaction(),
            !old(self).connection.has_acknowledged_last_heartbeat ==> (action
                matches Action::Close { code } && code != 1000 && code != 1001),
    {
        if self.connection.has_acknowledged_last_heartbeat {
            Action::Send(self.heartbeat())
        } else {
            Action::Close { code: ZOMBIED_CLOSE_CODE }
        }
    }

    /// Goes on after the termination that [`Action::Close`] asked for: a new connection is to
    /// be made, to resume the session and to send the heartbeat that was due.
    pub fn closed(&self) -> (action: Action)
        ensures
            action == self.closed_reaction(),
    {
        Action::Connect {
            url: self.resume_gateway_url_or_default(),
            goal: ConnectGoal::ResumeAndHeartbeat,
        }
    }

    /// One turn of the shard's loop: what to do about `incoming`, or `None` if the loop is over.
    pub fn run(&mut self, incoming: Incoming) -> (action: Option<Action>)
        requires
            incoming matches Incoming::Event(msg) ==> old(self).can_process(msg),
        ensures
            match incoming {
                Incoming::Event(msg) => {
                    &&& *final(self) == old(self).received(msg)
                    &&& action == Some(old(self).reaction(msg))
                },
                Incoming::Other | Incoming::Failed => {
                    &&& *final(self) == *old(self)
                    &&& action == Some(Action::Nothing)
                },
                Incoming::Exhausted => {
                    &&& *final(self) == *old(self)
                    &&& action is None
                },
            },
    {
        run(self, incoming)
    }

    /// The heartbeat to send now. It is yet to be acknowledged.
    fn heartbeat(&mut self) -> (event: GatewaySendEvent)
        ensures
            *final(self) == old(self).heartbeat_sent(),
            event == old(self).heartbeat_event(),
    {
        self.connection.has_acknowledged_last_heartbeat = false;
        GatewaySendEvent::Heartbeat(
            Heartbeat { last_seq_number: self.connection.last_seq_number },
        )
    }

    fn reconnect_and_resume(&mut self)
        ensures
            *final(self) == old(self).resumed(),
    {
        let last_seq_number: u64 = self.connection.last_seq_number;
        self.connection = ShardConnection::new();
        self.connection.last_seq_number = last_seq_number;
        self.state = ConnectionState::WaitingForHelloToResume;
    }

    fn reconnect_and_dont_resume(&mut self)
        ensures
            *final(self) == old(self).restarted(),
    {
        self.connection = ShardConnection::new();
        self.state = ConnectionState::WaitingForHello;
    }

    fn resume_gateway_url_or_default(&self) -> (url: String)
        ensures
            url == self.resume_url(),
    {
        match &self.resume_gateway_url {
            Some(url) => url.clone(),
            None => self.options.gateway_url.clone(),
        }
    }

    /// Answers a hello.
    fn handshake(&mut self, heartbeat_interval: u64) -> (action: Action)
        requires
            old(self).state is WaitingForHelloToResume ==> old(self).session_id is Some,
        ensures
            *final(self) == old(self).received(
                GatewayReceiveEvent::Hello(Hello { heartbeat_interval }),
            ),
            action == old(self).reaction(
                GatewayReceiveEvent::Hello(Hello { heartbeat_interval }),
            ),
    {
        let is_resuming = match self.state {
            ConnectionState::WaitingForHello => false,
            ConnectionState::WaitingForHelloToResume => true,
            ConnectionState::Connected | ConnectionState::WaitingForResumedAck => {
                return Action::Ignored;
            },
        };
        let new_task = if self.connection.heartbeat_interval.is_none() {
            self.connection.heartbeat_interval = Some(heartbeat_interval);
            Some(heartbeat_interval)
        } else {
            None
        };
        let reply = if is_resuming {
            GatewaySendEvent::Resume(
                Resume {
                    token: self.options.token.clone(),
                    session_id: self.session_id.clone().unwrap(),
                    seq: self.connection.last_seq_number,
                },
            )
        } else {
            assert(INTENTS == 33281) by (bit_vector);
            GatewaySendEvent::Identify(
                Identify {
                    token: self.options.token.clone(),
                    properties: IdentifyProperties { os: "a", browser: "b", device: "c" },
                    intents: INTENTS,
                },
            )
        };
        Action::Handshake { heartbeat_interval: new_task, reply }
    }
}

/// One turn of the loop of `shard`: what to do about `incoming`, or `None` if the loop is over.
/// Only the end of the stream ends the loop.
pub fn run(shard: &mut Shard, incoming: Incoming) -> (action: Option<Action>)
    requires
        incoming matches Incoming::Event(msg) ==> old(shard).can_process(msg),
    ensures
        match incoming {
            Incoming::Event(msg) => {
                &&& *final(shard) == old(shard).received(msg)
                &&& action == Some(old(shard).reaction(msg))
            },
            Incoming::Other | Incoming::Failed => {
                &&& *final(shard) == *old(shard)
                &&& action == Some(Action::Nothing)
            },
            Incoming::Exhausted => {
                &&& *final(shard) == *old(shard)
                &&& action is None
            },
        },
{
    match incoming {
        Incoming::Event(msg) => Some(shard.process_gateway_event(msg)),
        Incoming::Other => Some(Action::Nothing),
        Incoming::Failed => Some(Action::Nothing),
        Incoming::Exhausted => None,
    }
}

} // verus!
