//! What holds of a shard over its whole life, whatever the gateway sends and however often the
//! connection is lost.
use vstd::prelude::*;

use crate::gateway_event::{
    Dispatch, GatewayReceiveEvent, GatewaySendEvent, Heartbeat, Hello, InvalidSession, Ready,
    Resume,
};
use crate::shard::{Action, ConnectGoal, Shard, ShardConnection, ShardOptions};

verus! {

/// One thing that can happen to a shard.
pub enum Step {
    /// An event came from the gateway: `Shard::process_gateway_event`.
    Received(GatewayReceiveEvent),
    /// The payload of a ready event was read: `Shard::session_ready`.
    SessionReady(Ready),
    /// A heartbeat was due and was sent: `Shard::heartbeat_due`.
    HeartbeatSent,
    /// A new connection was made to go on with the session: `Shard::connected`.
    Resumed,
    /// A new connection was made to start a new session: `Shard::connected`.
    Restarted,
}

/// The shard after one step.
pub open spec fn after_step(shard: Shard, step: Step) -> Shard {
    match step {
        Step::Received(msg) => shard.received(msg),
        Step::SessionReady(ready) => shard.with_session(ready),
        Step::HeartbeatSent => shard.heartbeat_sent(),
        Step::Resumed => shard.resumed(),
        Step::Restarted => shard.restarted(),
    }
}

/// The shard after `steps`, taken one after the other.
pub open spec fn after(shard: Shard, steps: Seq<Step>) -> Shard
    decreases steps.len(),
{
    if steps.len() == 0 {
        shard
    } else {
        after_step(after(shard, steps.drop_last()), steps.last())
    }
}

/// A step that puts the shard on a new connection.
pub open spec fn is_reconnect(step: Step) -> bool {
    step is Resumed || step is Restarted
}

pub open spec fn is_dispatch(step: Step) -> bool {
    step matches Step::Received(msg) && msg is Dispatch
}

pub open spec fn is_heartbeat_ack(step: Step) -> bool {
    step matches Step::Received(msg) && msg is HeartbeatAck
}

/// None of `steps` puts the shard on a new connection.
pub open spec fn on_one_connection(steps: Seq<Step>) -> bool {
    forall|i: int| 0 <= i < steps.len() ==> !is_reconnect(#[trigger] steps[i])
}

/// None of `steps` opens a session.
pub open spec fn in_one_session(steps: Seq<Step>) -> bool {
    forall|i: int| 0 <= i < steps.len() ==> !(#[trigger] steps[i] is SessionReady)
}

/// Nothing of what users configured ever changes.
pub proof fn options_are_kept(shard: Shard, steps: Seq<Step>)
    ensures
        after(shard, steps).options == shard.options,
    decreases steps.len(),
{
    if steps.len() > 0 {
        options_are_kept(shard, steps.drop_last());
    }
}

/// The last sequence number received is remembered until another one is received or a new
/// session is started, on new connections too. Every heartbeat carries it, those that the
/// gateway asks for and those that are due, and so does the request to resume the session.
pub proof fn last_received_seq_is_sent(
    shard: Shard,
    dispatch: Dispatch,
    later: Seq<Step>,
)
    requires
        forall|i: int|
            0 <= i < later.len() ==> !is_dispatch(#[trigger] later[i]) && !(later[i] is Restarted),
    ensures
        ({
            let now = after(shard.received(GatewayReceiveEvent::Dispatch(dispatch)), later);
            let heartbeat = GatewaySendEvent::Heartbeat(
                Heartbeat { last_seq_number: dispatch.seq },
            );
            &&& now.connection.last_seq_number == dispatch.seq
            &&& now.reaction(GatewayReceiveEvent::Heartbeat) == Action::Send(heartbeat)
            &&& now.heartbeat_event() == heartbeat
            &&& now.resumed().handshake_event() matches GatewaySendEvent::Resume(resume)
                && resume.seq == dispatch.seq
        }),
    decreases later.len(),
{
    if later.len() > 0 {
        last_received_seq_is_sent(shard, dispatch, later.drop_last());
    }
}

/// Until an event is dispatched in it, a new session counts from zero, and so does the first.
pub proof fn new_session_counts_from_zero(options: ShardOptions, shard: Shard, steps: Seq<Step>)
    requires
        forall|i: int| 0 <= i < steps.len() ==> !is_dispatch(#[trigger] steps[i]),
    ensures
        after(Shard::started(options), steps).connection.last_seq_number == 0,
        after(shard.restarted(), steps).connection.last_seq_number == 0,
    decreases steps.len(),
{
    if steps.len() > 0 {
        new_session_counts_from_zero(options, shard, steps.drop_last());
    }
}

/// If no acknowledgement comes between one heartbeat and the next that is due on the same
/// connection, the connection is terminated with a close code other than 1000 and 1001. Only
/// then is a new one made, where the session can be resumed; on it the shard waits for the
/// hello to resume, and the heartbeat that was due is sent.
pub proof fn unacknowledged_heartbeat_reconnects(shard: Shard, later: Seq<Step>)
    requires
        on_one_connection(later),
        forall|i: int| 0 <= i < later.len() ==> !is_heartbeat_ack(#[trigger] later[i]),
    ensures
        ({
            let now = after(shard.heartbeat_sent(), later);
            &&& !now.connection.has_acknowledged_last_heartbeat
            &&& now.heartbeat_reaction() matches Action::Close { code }
            &&& code != 1000 && code != 1001
            &&& now.closed_reaction() == Action::Connect {
                url: now.resume_url(),
                goal: ConnectGoal::ResumeAndHeartbeat,
            }
            &&& now.resumed().heartbeat_sent().state is WaitingForHelloToResume
            &&& now.resumed().heartbeat_event() == now.heartbeat_event()
        }),
    decreases later.len(),
{
    if later.len() > 0 {
        unacknowledged_heartbeat_reconnects(shard, later.drop_last());
    }
}

/// After an acknowledgement, and on a new connection, the next heartbeat that is due is sent.
pub proof fn acknowledged_heartbeat_is_followed(shard: Shard, later: Seq<Step>)
    requires
        forall|i: int| 0 <= i < later.len() ==> !(#[trigger] later[i] is HeartbeatSent),
    ensures
        ({
            let acked = after(shard.received(GatewayReceiveEvent::HeartbeatAck), later);
            acked.heartbeat_reaction() == Action::Send(acked.heartbeat_event())
        }),
        ({
            let resumed = after(shard.resumed(), later);
            resumed.heartbeat_reaction() == Action::Send(resumed.heartbeat_event())
        }),
        ({
            let restarted = after(shard.restarted(), later);
            restarted.heartbeat_reaction() == Action::Send(restarted.heartbeat_event())
        }),
    decreases later.len(),
{
    if later.len() > 0 {
        acknowledged_heartbeat_is_followed(shard, later.drop_last());
    }
}

/// A reconnect keeps the session and the options. It throws out what belonged to the old
/// connection: its heartbeat task, the acknowledgement it was waiting for and, unless the
/// session is to be resumed, the sequence number.
pub proof fn reconnect_keeps_the_session(shard: Shard)
    ensures
        shard.resumed().session_id == shard.session_id,
        shard.resumed().resume_gateway_url == shard.resume_gateway_url,
        shard.resumed().options == shard.options,
        shard.resumed().connection == (ShardConnection {
            last_seq_number: shard.connection.last_seq_number,
            has_acknowledged_last_heartbeat: true,
            heartbeat_interval: None,
        }),
        shard.restarted().session_id == shard.session_id,
        shard.restarted().resume_gateway_url == shard.resume_gateway_url,
        shard.restarted().options == shard.options,
        shard.restarted().connection == (ShardConnection {
            last_seq_number: 0,
            has_acknowledged_last_heartbeat: true,
            heartbeat_interval: None,
        }),
{
}

/// What the gateway said of a session is remembered until another session is opened.
pub proof fn session_is_remembered(shard: Shard, steps: Seq<Step>)
    requires
        in_one_session(steps),
    ensures
        after(shard, steps).session_id == shard.session_id,
        after(shard, steps).resume_gateway_url == shard.resume_gateway_url,
    decreases steps.len(),
{
    if steps.len() > 0 {
        session_is_remembered(shard, steps.drop_last());
    }
}

/// A shard knows the identifier of a session exactly when it knows where to resume it.
pub proof fn session_is_known_in_full(options: ShardOptions, steps: Seq<Step>)
    ensures
        ({
            let now = after(Shard::started(options), steps);
            now.session_id is Some <==> now.resume_gateway_url is Some
        }),
    decreases steps.len(),
{
    if steps.len() > 0 {
        session_is_known_in_full(options, steps.drop_last());
    }
}

/// What a connection waits for changes only with the connection.
pub proof fn state_is_kept_on_one_connection(shard: Shard, steps: Seq<Step>)
    requires
        on_one_connection(steps),
    ensures
        after(shard, steps).state == shard.state,
    decreases steps.len(),
{
    if steps.len() > 0 {
        state_is_kept_on_one_connection(shard, steps.drop_last());
    }
}

/// At every moment of its life a shard waits for a hello.
pub proof fn shard_always_waits_for_hello(options: ShardOptions, steps: Seq<Step>)
    ensures
        after(Shard::started(options), steps).waits_for_hello(),
    decreases steps.len(),
{
    if steps.len() > 0 {
        shard_always_waits_for_hello(options, steps.drop_last());
    }
}

/// At every moment of its life a shard answers a hello that it can process with a handshake:
/// none is ignored.
pub proof fn every_hello_is_answered(options: ShardOptions, steps: Seq<Step>, hello: Hello)
    requires
        after(Shard::started(options), steps).can_process(GatewayReceiveEvent::Hello(hello)),
    ensures
        after(Shard::started(options), steps).reaction(
            GatewayReceiveEvent::Hello(hello),
        ) is Handshake,
{
    shard_always_waits_for_hello(options, steps);
}

/// Once a session has been opened, a shard can process every event, for the rest of its life.
pub proof fn every_event_is_processable_in_a_session(
    shard: Shard,
    ready: Ready,
    later: Seq<Step>,
    msg: GatewayReceiveEvent,
)
    ensures
        after(shard.with_session(ready), later).session_id is Some,
        after(shard.with_session(ready), later).can_process(msg),
    decreases later.len(),
{
    if later.len() > 0 {
        every_event_is_processable_in_a_session(shard, ready, later.drop_last(), msg);
    }
}

/// Until it first reconnects to resume, a shard can process every event.
pub proof fn every_event_is_processable_before_resuming(
    options: ShardOptions,
    steps: Seq<Step>,
    msg: GatewayReceiveEvent,
)
    requires
        forall|i: int| 0 <= i < steps.len() ==> !(#[trigger] steps[i] is Resumed),
    ensures
        after(Shard::started(options), steps).state is WaitingForHello,
        after(Shard::started(options), steps).can_process(msg),
    decreases steps.len(),
{
    if steps.len() > 0 {
        every_event_is_processable_before_resuming(options, steps.drop_last(), msg);
    }
}

/// A session that the gateway opened is the one that a later reconnect resumes. Whether the
/// gateway asks for the reconnect, invalidates a session that may be resumable, or leaves a
/// heartbeat unacknowledged, the new connection goes where the gateway said. The hello on it is
/// answered with the identifier that the gateway gave, the token, and the last sequence number.
pub proof fn reconnect_resumes_the_session(
    shard: Shard,
    ready: Ready,
    before: Seq<Step>,
    since: Seq<Step>,
    hello: Hello,
)
    requires
        in_one_session(before),
        in_one_session(since),
        on_one_connection(since),
    ensures
        ({
            let lost = after(shard.with_session(ready), before);
            let now = after(lost.resumed(), since);
            &&& lost.reaction(GatewayReceiveEvent::Reconnect) == Action::Connect {
                url: ready.resume_gateway_url,
                goal: ConnectGoal::Resume,
            }
            &&& lost.reaction(
                GatewayReceiveEvent::InvalidSession(InvalidSession { may_be_resumable: true }),
            ) == Action::Connect { url: ready.resume_gateway_url, goal: ConnectGoal::Resume }
            &&& !lost.connection.has_acknowledged_last_heartbeat ==> lost.heartbeat_reaction()
                is Close
            &&& lost.closed_reaction() == Action::Connect {
                url: ready.resume_gateway_url,
                goal: ConnectGoal::ResumeAndHeartbeat,
            }
            &&& now.can_process(GatewayReceiveEvent::Hello(hello))
            &&& now.reaction(
                GatewayReceiveEvent::Hello(hello),
            ) matches Action::Handshake { reply, .. } && reply == GatewaySendEvent::Resume(
                Resume {
                    token: shard.options.token,
                    session_id: ready.session_id,
                    seq: now.connection.last_seq_number,
                },
            )
        }),
{
    let lost = after(shard.with_session(ready), before);
    session_is_remembered(shard.with_session(ready), before);
    session_is_remembered(lost.resumed(), since);
    state_is_kept_on_one_connection(lost.resumed(), since);
    options_are_kept(shard.with_session(ready), before);
    options_are_kept(lost.resumed(), since);
}

/// On the first connection, and on one made because the session was lost for good, the hello
/// is answered by identifying with the token.
pub proof fn new_session_identifies(
    options: ShardOptions,
    shard: Shard,
    since: Seq<Step>,
    hello: Hello,
)
    requires
        on_one_connection(since),
    ensures
        after(Shard::started(options), since).reaction(
            GatewayReceiveEvent::Hello(hello),
        ) matches Action::Handshake { reply, .. } && reply == crate::shard::identify_event(
            options.token,
        ),
        after(shard.restarted(), since).reaction(
            GatewayReceiveEvent::Hello(hello),
        ) matches Action::Handshake { reply, .. } && reply == crate::shard::identify_event(
            shard.options.token,
        ),
{
    state_is_kept_on_one_connection(Shard::started(options), since);
    options_are_kept(Shard::started(options), since);
    state_is_kept_on_one_connection(shard.restarted(), since);
    options_are_kept(shard.restarted(), since);
}

/// The first hello on a connection starts a heartbeat task with the interval it asks for. As
/// long as the connection lasts the task is kept, and no other is started.
pub proof fn connection_has_one_heartbeat_task(
    shard: Shard,
    hello: Hello,
    later: Seq<Step>,
    other: Hello,
)
    requires
        shard.waits_for_hello(),
        shard.connection.heartbeat_interval is None,
        on_one_connection(later),
    ensures
        shard.reaction(
            GatewayReceiveEvent::Hello(hello),
        ) matches Action::Handshake { heartbeat_interval, .. } && heartbeat_interval == Some(
            hello.heartbeat_interval,
        ),
        ({
            let now = after(shard.received(GatewayReceiveEvent::Hello(hello)), later);
            &&& now.connection.heartbeat_interval == Some(hello.heartbeat_interval)
            &&& now.reaction(
                GatewayReceiveEvent::Hello(other),
            ) matches Action::Handshake { heartbeat_interval, .. } && heartbeat_interval is None
        }),
    decreases later.len(),
{
    state_is_kept_on_one_connection(shard.received(GatewayReceiveEvent::Hello(hello)), later);
    if later.len() > 0 {
        connection_has_one_heartbeat_task(shard, hello, later.drop_last(), other);
    }
}

/// Users are told the name of every event that is dispatched, at once or, for the event that
/// opens a session, by way of reading its payload.
pub proof fn dispatched_event_is_reported(shard: Shard, dispatch: Dispatch)
    ensures
        match shard.reaction(GatewayReceiveEvent::Dispatch(dispatch)) {
            Action::Report(event) => event.name == dispatch.event_type,
            Action::ReadReady { event, event_data } => {
                &&& event.name == dispatch.event_type
                &&& event_data == dispatch.event_data
            },
            _ => false,
        },
{
}

/// Each kind of event is sent under an opcode of its own.
pub proof fn opcodes_tell_sent_events_apart(a: GatewaySendEvent, b: GatewaySendEvent)
    requires
        crate::gateway_event::send_opcode(a) == crate::gateway_event::send_opcode(b),
    ensures
        a is Heartbeat <==> b is Heartbeat,
        a is Identify <==> b is Identify,
        a is PresenceUpdate <==> b is PresenceUpdate,
        a is VoiceStateUpdate <==> b is VoiceStateUpdate,
        a is Resume <==> b is Resume,
        a is RequestGuildMembers <==> b is RequestGuildMembers,
{
}

/// Of the events that are sent, only a heartbeat can be received. The opcodes of the others
/// are refused.
pub proof fn only_heartbeats_go_both_ways(event: GatewaySendEvent)
    ensures
        crate::gateway_event::is_receive_opcode(crate::gateway_event::send_opcode(event))
            <==> event is Heartbeat,
{
}

/// The opcode of an event that is sent depends on its kind alone, whatever it holds.
pub proof fn opcode_depends_on_the_kind_alone(event: GatewaySendEvent)
    ensures
        event is Heartbeat <==> crate::gateway_event::send_opcode(event) == 1,
        event is Identify <==> crate::gateway_event::send_opcode(event) == 2,
        event is PresenceUpdate <==> crate::gateway_event::send_opcode(event) == 3,
        event is VoiceStateUpdate <==> crate::gateway_event::send_opcode(event) == 4,
        event is Resume <==> crate::gateway_event::send_opcode(event) == 6,
        event is RequestGuildMembers <==> crate::gateway_event::send_opcode(event) == 8,
{
}

/// A client can receive events under six opcodes, and under no other.
pub proof fn six_opcodes_can_be_received(op: u32)
    ensures
        crate::gateway_event::is_receive_opcode(op) <==> set![0u32, 1, 7, 9, 10, 11].contains(op),
{
}

} // verus!
