use gateway_shard::gateway_event::{
    Dispatch, GatewayReceiveEvent, GatewaySendEvent, Hello, InvalidSession, Ready,
};
use gateway_shard::{
    run, Action, ConnectGoal, ConnectionState, Incoming, Shard, ShardCommand, ShardConnection,
    ShardEvent, ShardOptions,
};

const DEFAULT_URL: &str = "wss://gateway.example";
const RESUME_URL: &str = "wss://resume.example";

fn new_shard() -> Shard {
    Shard::new(ShardOptions::new(DEFAULT_URL, "token"))
}

fn dispatch(name: &str, data: &str, seq: u64) -> GatewayReceiveEvent {
    GatewayReceiveEvent::Dispatch(Dispatch {
        event_type: name.to_string(),
        event_data: data.to_string(),
        seq,
    })
}

fn hello(heartbeat_interval: u64) -> GatewayReceiveEvent {
    GatewayReceiveEvent::Hello(Hello { heartbeat_interval })
}

fn invalid_session(may_be_resumable: bool) -> GatewayReceiveEvent {
    GatewayReceiveEvent::InvalidSession(InvalidSession { may_be_resumable })
}

fn ready() -> Ready {
    Ready { session_id: "session".to_string(), resume_gateway_url: RESUME_URL.to_string() }
}

fn event(name: &str) -> ShardEvent {
    ShardEvent { name: name.to_string() }
}

fn shard_in_session() -> Shard {
    let mut shard = new_shard();
    shard.process_gateway_event(hello(45000));
    shard.process_gateway_event(dispatch("READY", "{}", 1));
    shard.session_ready(ready(), event("READY"));
    shard
}

fn sent_heartbeat(action: Action) -> u64 {
    match action {
        Action::Send(GatewaySendEvent::Heartbeat(heartbeat)) => heartbeat.last_seq_number,
        _ => panic!("no heartbeat"),
    }
}

fn connect(action: Action) -> (String, ConnectGoal) {
    match action {
        Action::Connect { url, goal } => (url, goal),
        _ => panic!("no new connection"),
    }
}

fn handshake(action: Action) -> (Option<u64>, GatewaySendEvent) {
    match action {
        Action::Handshake { heartbeat_interval, reply } => (heartbeat_interval, reply),
        _ => panic!("no handshake"),
    }
}

fn assert_identifies(reply: GatewaySendEvent) {
    match reply {
        GatewaySendEvent::Identify(identify) => {
            assert_eq!(identify.token, "token");
            assert_eq!(identify.properties.os, "a");
            assert_eq!(identify.properties.browser, "b");
            assert_eq!(identify.properties.device, "c");
            assert_eq!(identify.intents, 33281);
            assert_eq!(identify.intents, 1 << 0 | 1 << 9 | 1 << 15);
        }
        other => panic!("{:?}", other),
    }
}

fn assert_resumes(reply: GatewaySendEvent, seq: u64) {
    match reply {
        GatewaySendEvent::Resume(resume) => {
            assert_eq!(resume.token, "token");
            assert_eq!(resume.session_id, "session");
            assert_eq!(resume.seq, seq);
        }
        other => panic!("{:?}", other),
    }
}

#[test]
fn options_hold_what_they_were_made_from() {
    let options = ShardOptions::new("url", "secret".to_string());
    assert_eq!(options.gateway_url, "url");
    assert_eq!(options.token, "secret");
}

#[test]
fn new_shard_waits_for_hello() {
    let shard = new_shard();
    assert_eq!(shard.connection.last_seq_number, 0);
    assert!(shard.connection.has_acknowledged_last_heartbeat);
    assert_eq!(shard.connection.heartbeat_interval, None);
    assert_eq!(shard.session_id, None);
    assert_eq!(shard.resume_gateway_url, None);
    assert!(matches!(shard.state, ConnectionState::WaitingForHello));
    assert_eq!(shard.options.gateway_url, DEFAULT_URL);
    assert_eq!(shard.options.token, "token");
}

#[test]
fn new_connection_is_fresh() {
    let connection = ShardConnection::new();
    assert_eq!(connection.last_seq_number, 0);
    assert!(connection.has_acknowledged_last_heartbeat);
    assert_eq!(connection.heartbeat_interval, None);
}

#[test]
fn the_only_command_is_to_shut_down() {
    assert!(matches!(ShardCommand::Shutdown, ShardCommand::Shutdown));
}

#[test]
fn first_hello_is_answered_by_identifying() {
    let mut shard = new_shard();
    let (interval, reply) = handshake(shard.process_gateway_event(hello(41250)));
    assert_eq!(interval, Some(41250));
    assert_identifies(reply);
    assert_eq!(shard.connection.heartbeat_interval, Some(41250));
    assert!(matches!(shard.state, ConnectionState::WaitingForHello));
}

#[test]
fn second_hello_starts_no_second_heartbeat_task() {
    let mut shard = new_shard();
    shard.process_gateway_event(hello(41250));
    let (interval, reply) = handshake(shard.process_gateway_event(hello(1)));
    assert_eq!(interval, None);
    assert_identifies(reply);
    assert_eq!(shard.connection.heartbeat_interval, Some(41250));
}

#[test]
fn unexpected_hello_is_ignored() {
    for state in vec![ConnectionState::Connected, ConnectionState::WaitingForResumedAck] {
        let mut shard = new_shard();
        shard.state = state;
        assert!(shard.is_processable(&hello(5)));
        assert!(matches!(shard.process_gateway_event(hello(5)), Action::Ignored));
        assert_eq!(shard.connection.heartbeat_interval, None);
    }
}

#[test]
fn dispatched_event_is_reported_and_counted() {
    let mut shard = new_shard();
    match shard.process_gateway_event(dispatch("MESSAGE_CREATE", "{}", 17)) {
        Action::Report(event) => assert_eq!(event.name, "MESSAGE_CREATE"),
        _ => panic!("not reported"),
    }
    assert_eq!(shard.connection.last_seq_number, 17);
    assert_eq!(shard.session_id, None);
}

#[test]
fn ready_event_is_known_in_any_case() {
    for name in vec!["READY", "ready", "Ready", "rEaDy"] {
        let mut shard = new_shard();
        match shard.process_gateway_event(dispatch(name, "{\"v\":10}", 1)) {
            Action::ReadReady { event_data, event } => {
                assert_eq!(event_data, "{\"v\":10}");
                assert_eq!(event.name, name);
            }
            _ => panic!("not read: {}", name),
        }
        assert_eq!(shard.connection.last_seq_number, 1);
    }
}

#[test]
fn other_names_are_not_ready() {
    for name in vec!["", "READ", "READYY", " READY", "RESUMED", "REAdY\u{301}", "\u{211d}EADY"] {
        let mut shard = new_shard();
        match shard.process_gateway_event(dispatch(name, "{}", 1)) {
            Action::Report(event) => assert_eq!(event.name, name),
            _ => panic!("not reported: {}", name),
        }
    }
}

#[test]
fn session_is_remembered_and_then_reported() {
    let mut shard = new_shard();
    match shard.session_ready(ready(), event("READY")) {
        Action::Report(event) => assert_eq!(event.name, "READY"),
        _ => panic!("not reported"),
    }
    assert_eq!(shard.session_id, Some("session".to_string()));
    assert_eq!(shard.resume_gateway_url, Some(RESUME_URL.to_string()));
}

#[test]
fn requested_heartbeat_carries_last_seq_and_is_not_waited_for() {
    let mut shard = new_shard();
    assert_eq!(sent_heartbeat(shard.process_gateway_event(GatewayReceiveEvent::Heartbeat)), 0);
    shard.process_gateway_event(dispatch("A", "{}", 3));
    shard.process_gateway_event(dispatch("B", "{}", 9));
    assert_eq!(sent_heartbeat(shard.process_gateway_event(GatewayReceiveEvent::Heartbeat)), 9);
    assert!(shard.connection.has_acknowledged_last_heartbeat);
}

#[test]
fn due_heartbeats_go_on_while_they_are_acknowledged() {
    let mut shard = shard_in_session();
    for _ in 0..3 {
        assert_eq!(sent_heartbeat(shard.heartbeat_due()), 1);
        assert!(!shard.connection.has_acknowledged_last_heartbeat);
        let action = shard.process_gateway_event(GatewayReceiveEvent::HeartbeatAck);
        assert!(matches!(action, Action::Nothing));
        assert!(shard.connection.has_acknowledged_last_heartbeat);
    }
}

#[test]
fn unacknowledged_heartbeat_reconnects_and_then_sends_the_heartbeat() {
    let mut shard = shard_in_session();
    sent_heartbeat(shard.heartbeat_due());
    shard.process_gateway_event(dispatch("A", "{}", 8));
    match shard.heartbeat_due() {
        Action::Close { code } => assert_eq!(code, 4000),
        _ => panic!("not closed"),
    }
    let (url, goal) = connect(shard.closed());
    assert_eq!(url, RESUME_URL);
    assert!(matches!(goal, ConnectGoal::ResumeAndHeartbeat));
    assert_eq!(shard.connection.heartbeat_interval, Some(45000));
    assert_eq!(sent_heartbeat(shard.connected(goal)), 8);
    assert!(matches!(shard.state, ConnectionState::WaitingForHelloToResume));
    assert!(!shard.connection.has_acknowledged_last_heartbeat);
    assert_eq!(shard.connection.heartbeat_interval, None);
    let (interval, reply) = handshake(shard.process_gateway_event(hello(30000)));
    assert_eq!(interval, Some(30000));
    assert_resumes(reply, 8);
}

#[test]
fn zombied_connection_without_a_session_is_replaced_at_the_default_url() {
    let mut shard = new_shard();
    assert_eq!(sent_heartbeat(shard.heartbeat_due()), 0);
    assert!(matches!(shard.heartbeat_due(), Action::Close { .. }));
    let (url, goal) = connect(shard.closed());
    assert_eq!(url, DEFAULT_URL);
    assert!(matches!(goal, ConnectGoal::ResumeAndHeartbeat));
}

#[test]
fn reconnect_resumes_the_session() {
    let mut shard = shard_in_session();
    shard.process_gateway_event(dispatch("A", "{}", 12));
    let (url, goal) = connect(shard.process_gateway_event(GatewayReceiveEvent::Reconnect));
    assert_eq!(url, RESUME_URL);
    assert!(matches!(goal, ConnectGoal::Resume));
    assert!(matches!(shard.connected(goal), Action::Nothing));
    assert!(matches!(shard.state, ConnectionState::WaitingForHelloToResume));
    assert_eq!(shard.connection.last_seq_number, 12);
    assert!(shard.connection.has_acknowledged_last_heartbeat);
    assert_eq!(shard.connection.heartbeat_interval, None);
    let (interval, reply) = handshake(shard.process_gateway_event(hello(7)));
    assert_eq!(interval, Some(7));
    assert_resumes(reply, 12);
}

#[test]
fn reconnect_without_a_session_falls_back_to_the_default_url() {
    let mut shard = new_shard();
    let (url, goal) = connect(shard.process_gateway_event(GatewayReceiveEvent::Reconnect));
    assert_eq!(url, DEFAULT_URL);
    shard.connected(goal);
    assert!(!shard.is_processable(&hello(5)));
    assert!(shard.is_processable(&GatewayReceiveEvent::Heartbeat));
    shard.session_ready(ready(), event("READY"));
    assert!(shard.is_processable(&hello(5)));
}

#[test]
fn resumable_invalid_session_is_resumed() {
    let mut shard = shard_in_session();
    let (url, goal) = connect(shard.process_gateway_event(invalid_session(true)));
    assert_eq!(url, RESUME_URL);
    assert!(matches!(goal, ConnectGoal::Resume));
}

#[test]
fn lost_session_is_started_anew() {
    let mut shard = shard_in_session();
    shard.process_gateway_event(dispatch("A", "{}", 20));
    let (url, goal) = connect(shard.process_gateway_event(invalid_session(false)));
    assert_eq!(url, DEFAULT_URL);
    assert!(matches!(goal, ConnectGoal::Restart));
    assert!(matches!(shard.connected(goal), Action::Nothing));
    assert!(matches!(shard.state, ConnectionState::WaitingForHello));
    assert_eq!(shard.connection.last_seq_number, 0);
    assert_eq!(shard.session_id, Some("session".to_string()));
    assert_eq!(shard.resume_gateway_url, Some(RESUME_URL.to_string()));
    let (interval, reply) = handshake(shard.process_gateway_event(hello(45000)));
    assert_eq!(interval, Some(45000));
    assert_identifies(reply);
    assert_eq!(sent_heartbeat(shard.heartbeat_due()), 0);
}

#[test]
fn only_the_end_of_the_stream_ends_the_loop() {
    let mut shard = new_shard();
    assert!(matches!(shard.run(Incoming::Other), Some(Action::Nothing)));
    assert!(matches!(shard.run(Incoming::Failed), Some(Action::Nothing)));
    match shard.run(Incoming::Event(dispatch("A", "{}", 2))) {
        Some(Action::Report(event)) => assert_eq!(event.name, "A"),
        _ => panic!("not reported"),
    }
    assert_eq!(shard.connection.last_seq_number, 2);
    assert!(shard.run(Incoming::Exhausted).is_none());
    assert_eq!(shard.connection.last_seq_number, 2);
    assert!(run(&mut shard, Incoming::Exhausted).is_none());
    assert!(matches!(run(&mut shard, Incoming::Other), Some(Action::Nothing)));
}
