//! What a shard does about each thing that happens to it, rule by rule and spelled out. Every
//! rule holds of every shard, whatever has happened to it before.
use vstd::prelude::*;

use crate::gateway_event::{
    Dispatch, GatewayReceiveEvent, GatewaySendEvent, Heartbeat, Hello, Identify,
    IdentifyProperties, InvalidSession, Ready, Resume,
};
use crate::shard::{
    Action, ConnectGoal, ConnectionState, Shard, ShardConnection, ShardEvent, ShardOptions,
};

verus! {

/// A dispatched event is read for a session exactly if its name is "ready" up to the case of
/// ASCII letters, whatever session the shard knows already. Any other event is reported at
/// once. Both keep the name, and the payload is handed on as it came.
pub proof fn ready_events_are_read(shard: Shard, dispatch: Dispatch)
    ensures
        crate::text::same_ignoring_ascii_case(dispatch.event_type@, "ready"@) ==> shard.reaction(
            GatewayReceiveEvent::Dispatch(dispatch),
        ) == (Action::ReadReady {
            event_data: dispatch.event_data,
            event: ShardEvent { name: dispatch.event_type },
        }),
        !crate::text::same_ignoring_ascii_case(dispatch.event_type@, "ready"@) ==> shard.reaction(
            GatewayReceiveEvent::Dispatch(dispatch),
        ) == Action::Report(ShardEvent { name: dispatch.event_type }),
{
}

/// A dispatched event leaves its sequence number behind, larger than the last one or not, and
/// changes nothing else.
pub proof fn dispatch_sets_the_sequence_number(shard: Shard, dispatch: Dispatch)
    ensures
        shard.received(GatewayReceiveEvent::Dispatch(dispatch)) == (Shard {
            connection: ShardConnection {
                last_seq_number: dispatch.seq,
                has_acknowledged_last_heartbeat: shard.connection.has_acknowledged_last_heartbeat,
                heartbeat_interval: shard.connection.heartbeat_interval,
            },
            session_id: shard.session_id,
            resume_gateway_url: shard.resume_gateway_url,
            state: shard.state,
            options: shard.options,
        }),
{
}

/// After a ready event has been read, the session is the one of its payload, whatever the shard
/// knew before, and it is this one that the shard goes on to resume. Nothing else changes with
/// it.
pub proof fn ready_payload_becomes_the_session(
    shard: Shard,
    dispatch: Dispatch,
    ready: Ready,
    hello: Hello,
)
    requires
        crate::text::same_ignoring_ascii_case(dispatch.event_type@, "ready"@),
    ensures
        shard.reaction(GatewayReceiveEvent::Dispatch(dispatch)) is ReadReady,
        ({
            let now = shard.received(GatewayReceiveEvent::Dispatch(dispatch)).with_session(ready);
            &&& now == (Shard {
                connection: ShardConnection {
                    last_seq_number: dispatch.seq,
                    has_acknowledged_last_heartbeat:
                        shard.connection.has_acknowledged_last_heartbeat,
                    heartbeat_interval: shard.connection.heartbeat_interval,
                },
                session_id: Some(ready.session_id),
                resume_gateway_url: Some(ready.resume_gateway_url),
                state: shard.state,
                options: shard.options,
            })
            &&& now.reaction(GatewayReceiveEvent::Reconnect) == (Action::Connect {
                url: ready.resume_gateway_url,
                goal: ConnectGoal::Resume,
            })
            &&& now.resumed().reaction(GatewayReceiveEvent::Hello(hello)) == (Action::Handshake {
                heartbeat_interval: Some(hello.heartbeat_interval),
                reply: GatewaySendEvent::Resume(
                    Resume {
                        token: shard.options.token,
                        session_id: ready.session_id,
                        seq: dispatch.seq,
                    },
                ),
            })
        }),
{
}

/// Taking note of a session changes the identifier and the resume URL, and nothing else.
pub proof fn session_changes_nothing_else(shard: Shard, ready: Ready)
    ensures
        shard.with_session(ready) == (Shard {
            connection: shard.connection,
            session_id: Some(ready.session_id),
            resume_gateway_url: Some(ready.resume_gateway_url),
            state: shard.state,
            options: shard.options,
        }),
{
}

/// A heartbeat that the gateway asks for is sent at once, in every state, acknowledged or not.
/// It carries the last sequence number, and nothing changes with it.
pub proof fn requested_heartbeat_is_sent(shard: Shard)
    ensures
        shard.reaction(GatewayReceiveEvent::Heartbeat) == Action::Send(
            GatewaySendEvent::Heartbeat(
                Heartbeat { last_seq_number: shard.connection.last_seq_number },
            ),
        ),
        shard.received(GatewayReceiveEvent::Heartbeat) == shard,
{
}

/// An acknowledgement is noted, in every state and however often it comes, and nothing else is
/// done or changed.
pub proof fn acknowledgement_is_only_noted(shard: Shard)
    ensures
        shard.reaction(GatewayReceiveEvent::HeartbeatAck) == Action::Nothing,
        shard.received(GatewayReceiveEvent::HeartbeatAck) == (Shard {
            connection: ShardConnection {
                last_seq_number: shard.connection.last_seq_number,
                has_acknowledged_last_heartbeat: true,
                heartbeat_interval: shard.connection.heartbeat_interval,
            },
            session_id: shard.session_id,
            resume_gateway_url: shard.resume_gateway_url,
            state: shard.state,
            options: shard.options,
        }),
{
}

/// A reconnect that the gateway asks for goes to the URL that the gateway gave for it, or to
/// the default one if it gave none, in order to resume. Until the connection stands, nothing
/// changes.
pub proof fn requested_reconnect_resumes(shard: Shard, url: String)
    ensures
        shard.resume_gateway_url == Some(url) ==> shard.reaction(GatewayReceiveEvent::Reconnect)
            == (Action::Connect { url, goal: ConnectGoal::Resume }),
        shard.resume_gateway_url is None ==> shard.reaction(GatewayReceiveEvent::Reconnect) == (
        Action::Connect { url: shard.options.gateway_url, goal: ConnectGoal::Resume }),
        shard.received(GatewayReceiveEvent::Reconnect) == shard,
{
}

/// A session that may be resumable is resumed, as if the gateway had asked for a reconnect.
pub proof fn resumable_session_is_resumed(shard: Shard, url: String)
    ensures
        ({
            let msg = GatewayReceiveEvent::InvalidSession(
                InvalidSession { may_be_resumable: true },
            );
            &&& shard.reaction(msg) == shard.reaction(GatewayReceiveEvent::Reconnect)
            &&& shard.resume_gateway_url == Some(url) ==> shard.reaction(msg) == (
            Action::Connect { url, goal: ConnectGoal::Resume })
            &&& shard.resume_gateway_url is None ==> shard.reaction(msg) == (Action::Connect {
                url: shard.options.gateway_url,
                goal: ConnectGoal::Resume,
            })
            &&& shard.received(msg) == shard
        }),
{
}

/// A session that is not resumable is given up, in every state: the new connection goes to the
/// default URL, and the hello on it is answered by identifying anew.
pub proof fn dead_session_is_given_up(shard: Shard, hello: Hello)
    ensures
        ({
            let msg = GatewayReceiveEvent::InvalidSession(
                InvalidSession { may_be_resumable: false },
            );
            &&& shard.reaction(msg) == (Action::Connect {
                url: shard.options.gateway_url,
                goal: ConnectGoal::Restart,
            })
            &&& shard.received(msg) == shard
            &&& shard.restarted().reaction(
                GatewayReceiveEvent::Hello(hello),
            ) matches Action::Handshake { reply, .. }
            &&& reply is Identify
        }),
{
}

/// The same over the whole life of a shard, however often its session was resumed before.
pub proof fn dead_session_is_given_up_at_any_time(
    options: ShardOptions,
    steps: Seq<crate::laws::Step>,
)
    ensures
        crate::laws::after(Shard::started(options), steps).reaction(
            GatewayReceiveEvent::InvalidSession(InvalidSession { may_be_resumable: false }),
        ) == (Action::Connect { url: options.gateway_url, goal: ConnectGoal::Restart }),
{
    crate::laws::options_are_kept(Shard::started(options), steps);
}

/// A connection is replaced for three reasons only: the gateway asks for it, the session is
/// invalid, or a heartbeat is due while the last one has not been acknowledged. Only for the
/// last of these is the old connection closed with a code.
pub proof fn connection_is_replaced_only_for_a_reason(shard: Shard, msg: GatewayReceiveEvent)
    ensures
        shard.reaction(msg) is Connect <==> msg is Reconnect || msg is InvalidSession,
        !(shard.reaction(msg) is Close),
        shard.heartbeat_reaction() is Close
            <==> !shard.connection.has_acknowledged_last_heartbeat,
        !(shard.heartbeat_reaction() is Connect),
{
}

/// A shard that waits for a hello in order to start a session answers it by identifying with
/// the token of its options, always with the same properties, and with the intents for guilds,
/// guild messages and the content of messages.
pub proof fn hello_starts_a_session(shard: Shard, hello: Hello)
    requires
        shard.state is WaitingForHello,
    ensures
        shard.reaction(GatewayReceiveEvent::Hello(hello)) matches Action::Handshake {
            reply: GatewaySendEvent::Identify(identify),
            ..
        } && {
            &&& identify.token == shard.options.token
            &&& identify.properties.os@ == "a"@
            &&& identify.properties.browser@ == "b"@
            &&& identify.properties.device@ == "c"@
            &&& identify.intents == 33281
        },
{
}

/// The intents that a shard identifies with are those in the bits for guilds (0), guild
/// messages (9) and the content of messages (15), and no others, whatever the token.
pub proof fn identify_asks_for_three_intents(token: String, bit: u32)
    requires
        bit < 32,
    ensures
        crate::shard::identify_event(token) matches GatewaySendEvent::Identify(identify) && (
        identify.intents & (1u32 << bit) != 0 <==> bit == 0 || bit == 9 || bit == 15),
{
    assert(33281u32 & (1u32 << bit) != 0 <==> bit == 0 || bit == 9 || bit == 15) by (bit_vector)
        requires
            bit < 32,
    ;
}

/// A shard that waits for a hello in order to resume answers it with its token, the session it
/// knows and the last sequence number.
pub proof fn hello_resumes_a_session(shard: Shard, hello: Hello, session_id: String)
    requires
        shard.state is WaitingForHelloToResume,
        shard.session_id == Some(session_id),
    ensures
        shard.reaction(GatewayReceiveEvent::Hello(hello)) matches Action::Handshake { reply, .. }
            && reply == GatewaySendEvent::Resume(
            Resume {
                token: shard.options.token,
                session_id,
                seq: shard.connection.last_seq_number,
            },
        ),
{
}

/// With an answer to a hello a heartbeat task is started at the interval that the hello asks
/// for, unless the connection has one, which is then kept. Nothing else changes.
pub proof fn hello_starts_the_heartbeat_task(shard: Shard, hello: Hello)
    requires
        shard.state is WaitingForHello || shard.state is WaitingForHelloToResume,
    ensures
        shard.connection.heartbeat_interval is None ==> {
            &&& shard.reaction(
                GatewayReceiveEvent::Hello(hello),
            ) matches Action::Handshake { heartbeat_interval, .. }
            &&& heartbeat_interval == Some(hello.heartbeat_interval)
        },
        shard.connection.heartbeat_interval is Some ==> {
            &&& shard.reaction(
                GatewayReceiveEvent::Hello(hello),
            ) matches Action::Handshake { heartbeat_interval, .. }
            &&& heartbeat_interval is None
        },
        shard.received(GatewayReceiveEvent::Hello(hello)) == (Shard {
            connection: ShardConnection {
                last_seq_number: shard.connection.last_seq_number,
                has_acknowledged_last_heartbeat: shard.connection.has_acknowledged_last_heartbeat,
                heartbeat_interval: Some(
                    match shard.connection.heartbeat_interval {
                        Some(interval) => interval,
                        None => hello.heartbeat_interval,
                    },
                ),
            },
            session_id: shard.session_id,
            resume_gateway_url: shard.resume_gateway_url,
            state: shard.state,
            options: shard.options,
        }),
{
}

/// A hello that is not waited for is ignored and changes nothing.
pub proof fn unexpected_hello_is_ignored(shard: Shard, hello: Hello)
    requires
        shard.state is Connected || shard.state is WaitingForResumedAck,
    ensures
        shard.reaction(GatewayReceiveEvent::Hello(hello)) == Action::Ignored,
        shard.received(GatewayReceiveEvent::Hello(hello)) == shard,
{
}

/// The one event to which there is no answer is a hello on a connection that is to resume a
/// session when the shard knows of none.
pub proof fn only_a_resume_without_session_cannot_be_processed(
    shard: Shard,
    msg: GatewayReceiveEvent,
)
    ensures
        !shard.can_process(msg) <==> msg is Hello && shard.state is WaitingForHelloToResume
            && shard.session_id is None,
{
}

/// A heartbeat that is due is sent, with the last sequence number, if the last one has been
/// acknowledged. Otherwise the connection is closed with the code 4000.
pub proof fn due_heartbeat_is_sent_or_closes(shard: Shard)
    ensures
        shard.connection.has_acknowledged_last_heartbeat ==> shard.heartbeat_reaction()
            == Action::Send(
            GatewaySendEvent::Heartbeat(
                Heartbeat { last_seq_number: shard.connection.last_seq_number },
            ),
        ),
        !shard.connection.has_acknowledged_last_heartbeat ==> shard.heartbeat_reaction() == (
        Action::Close { code: 4000 }),
{
}

/// A heartbeat of the shard's own accord is marked as not acknowledged. Nothing else changes.
pub proof fn sent_heartbeat_is_only_marked(shard: Shard)
    ensures
        shard.heartbeat_event() == GatewaySendEvent::Heartbeat(
            Heartbeat { last_seq_number: shard.connection.last_seq_number },
        ),
        shard.heartbeat_sent() == (Shard {
            connection: ShardConnection {
                last_seq_number: shard.connection.last_seq_number,
                has_acknowledged_last_heartbeat: false,
                heartbeat_interval: shard.connection.heartbeat_interval,
            },
            session_id: shard.session_id,
            resume_gateway_url: shard.resume_gateway_url,
            state: shard.state,
            options: shard.options,
        }),
{
}

/// A connection that was closed is replaced in order to resume and to send the heartbeat that
/// was due, at the URL that the gateway gave for it, or the default one if it gave none.
pub proof fn closed_connection_is_replaced(shard: Shard, url: String)
    ensures
        shard.resume_gateway_url == Some(url) ==> shard.closed_reaction() == (Action::Connect {
            url,
            goal: ConnectGoal::ResumeAndHeartbeat,
        }),
        shard.resume_gateway_url is None ==> shard.closed_reaction() == (Action::Connect {
            url: shard.options.gateway_url,
            goal: ConnectGoal::ResumeAndHeartbeat,
        }),
{
}

/// A new connection that is to resume keeps the sequence number, the session and the options.
/// It owes no acknowledgement, has no heartbeat task, and waits for the hello to resume.
pub proof fn resuming_connection_keeps_the_sequence_number(shard: Shard)
    ensures
        shard.resumed() == (Shard {
            connection: ShardConnection {
                last_seq_number: shard.connection.last_seq_number,
                has_acknowledged_last_heartbeat: true,
                heartbeat_interval: None,
            },
            session_id: shard.session_id,
            resume_gateway_url: shard.resume_gateway_url,
            state: ConnectionState::WaitingForHelloToResume,
            options: shard.options,
        }),
{
}

/// A new connection that is to start a session counts from zero. It keeps the options and what
/// is known of the old session, owes no acknowledgement, has no heartbeat task, and waits for a
/// hello.
pub proof fn restarting_connection_counts_from_zero(shard: Shard)
    ensures
        shard.restarted() == (Shard {
            connection: ShardConnection {
                last_seq_number: 0,
                has_acknowledged_last_heartbeat: true,
                heartbeat_interval: None,
            },
            session_id: shard.session_id,
            resume_gateway_url: shard.resume_gateway_url,
            state: ConnectionState::WaitingForHello,
            options: shard.options,
        }),
{
}

/// A shard starts on a connection on which nothing has happened, with no session.
pub proof fn shard_starts_without_a_session(options: ShardOptions)
    ensures
        crate::shard::fresh_connection() == (ShardConnection {
            last_seq_number: 0,
            has_acknowledged_last_heartbeat: true,
            heartbeat_interval: None,
        }),
        Shard::started(options) == (Shard {
            connection: ShardConnection {
                last_seq_number: 0,
                has_acknowledged_last_heartbeat: true,
                heartbeat_interval: None,
            },
            session_id: None,
            resume_gateway_url: None,
            state: ConnectionState::WaitingForHello,
            options,
        }),
{
}

/// On the first connection and on one that was made to start a session, and for as long as it
/// lasts, the answer to a hello identifies with the token of the options, and with properties
/// and intents that depend on nothing.
pub proof fn new_session_identifies_in_full(
    options: ShardOptions,
    shard: Shard,
    since: Seq<crate::laws::Step>,
    hello: Hello,
)
    requires
        crate::laws::on_one_connection(since),
    ensures
        crate::laws::after(Shard::started(options), since).reaction(
            GatewayReceiveEvent::Hello(hello),
        ) matches Action::Handshake { reply, .. } && reply == GatewaySendEvent::Identify(
            Identify {
                token: options.token,
                properties: IdentifyProperties { os: "a", browser: "b", device: "c" },
                intents: 33281,
            },
        ),
        crate::laws::after(shard.restarted(), since).reaction(
            GatewayReceiveEvent::Hello(hello),
        ) matches Action::Handshake { reply, .. } && reply == GatewaySendEvent::Identify(
            Identify {
                token: shard.options.token,
                properties: IdentifyProperties { os: "a", browser: "b", device: "c" },
                intents: 33281,
            },
        ),
{
    crate::laws::new_session_identifies(options, shard, since, hello);
}

} // verus!
