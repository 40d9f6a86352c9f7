use gateway_shard::gateway_event::{
    DecodeError, Decoded, GatewayReceiveEvent, GatewaySendEvent, Heartbeat, Hello, Identify,
    IdentifyProperties, PresenceUpdate, RawGatewayEvent, RequestGuildMembers, Resume,
    VoiceStateUpdate,
};

fn frame(op: u32, d: &str) -> RawGatewayEvent<String> {
    RawGatewayEvent { op, d: d.to_string(), s: None, t: None }
}

fn identify() -> GatewaySendEvent {
    GatewaySendEvent::Identify(Identify {
        token: "token".to_string(),
        properties: IdentifyProperties { os: "a", browser: "b", device: "c" },
        intents: 33281,
    })
}

fn resume() -> GatewaySendEvent {
    GatewaySendEvent::Resume(Resume {
        token: "token".to_string(),
        session_id: "session".to_string(),
        seq: 7,
    })
}

fn heartbeat() -> GatewaySendEvent {
    GatewaySendEvent::Heartbeat(Heartbeat { last_seq_number: 251 })
}

fn sent_events() -> Vec<GatewaySendEvent> {
    vec![
        heartbeat(),
        identify(),
        GatewaySendEvent::PresenceUpdate(PresenceUpdate {}),
        GatewaySendEvent::VoiceStateUpdate(VoiceStateUpdate {}),
        resume(),
        GatewaySendEvent::RequestGuildMembers(RequestGuildMembers {}),
    ]
}

#[test]
fn sent_events_have_their_opcodes() {
    let mut opcodes: Vec<u32> = Vec::new();
    for event in sent_events() {
        opcodes.push(event.serialize().op);
    }
    assert_eq!(opcodes, vec![1, 2, 3, 4, 6, 8]);
}

#[test]
fn frame_of_a_sent_event_holds_only_the_event() {
    let framed = resume().serialize();
    assert_eq!(framed.s, None);
    assert_eq!(framed.t, None);
    match framed.d {
        GatewaySendEvent::Resume(payload) => {
            assert_eq!(payload.token, "token");
            assert_eq!(payload.session_id, "session");
            assert_eq!(payload.seq, 7);
        }
        other => panic!("{:?}", other),
    }
    match heartbeat().serialize().d {
        GatewaySendEvent::Heartbeat(payload) => assert_eq!(payload.last_seq_number, 251),
        other => panic!("{:?}", other),
    }
}

#[test]
fn dispatch_is_decoded() {
    let raw = RawGatewayEvent {
        op: 0,
        d: "{\"content\":\"hi\"}".to_string(),
        s: Some(42),
        t: Some("MESSAGE_CREATE".to_string()),
    };
    match GatewayReceiveEvent::deserialize(raw) {
        Ok(Decoded::Event(GatewayReceiveEvent::Dispatch(dispatch))) => {
            assert_eq!(dispatch.event_type, "MESSAGE_CREATE");
            assert_eq!(dispatch.event_data, "{\"content\":\"hi\"}");
            assert_eq!(dispatch.seq, 42);
        }
        other => panic!("{:?}", other),
    }
}

#[test]
fn dispatch_needs_a_name_and_a_sequence_number() {
    let nameless =
        RawGatewayEvent { op: 0, d: "null".to_string(), s: Some(1), t: None };
    assert!(matches!(
        GatewayReceiveEvent::deserialize(nameless),
        Err(DecodeError::MissingField("t"))
    ));
    let numberless =
        RawGatewayEvent { op: 0, d: "null".to_string(), s: None, t: Some("X".to_string()) };
    assert!(matches!(
        GatewayReceiveEvent::deserialize(numberless),
        Err(DecodeError::MissingField("s"))
    ));
    assert!(matches!(
        GatewayReceiveEvent::deserialize(frame(0, "null")),
        Err(DecodeError::MissingField("t"))
    ));
}

#[test]
fn events_without_payload_are_decoded() {
    assert!(matches!(
        GatewayReceiveEvent::deserialize(frame(1, "null")),
        Ok(Decoded::Event(GatewayReceiveEvent::Heartbeat))
    ));
    assert!(matches!(
        GatewayReceiveEvent::deserialize(frame(7, "null")),
        Ok(Decoded::Event(GatewayReceiveEvent::Reconnect))
    ));
    assert!(matches!(
        GatewayReceiveEvent::deserialize(frame(11, "null")),
        Ok(Decoded::Event(GatewayReceiveEvent::HeartbeatAck))
    ));
}

fn invalid_session(d: &str) -> Option<bool> {
    match GatewayReceiveEvent::deserialize(frame(9, d)) {
        Ok(Decoded::Event(GatewayReceiveEvent::InvalidSession(payload))) => {
            Some(payload.may_be_resumable)
        }
        Err(DecodeError::InvalidPayload(message)) => {
            assert_eq!(message, serde_json::from_str::<bool>(d).unwrap_err().to_string());
            None
        }
        other => panic!("{:?}", other),
    }
}

#[test]
fn invalid_session_holds_a_json_boolean() {
    assert_eq!(invalid_session("true"), Some(true));
    assert_eq!(invalid_session("false"), Some(false));
    assert_eq!(invalid_session(" \n\t\rtrue"), Some(true));
    assert_eq!(invalid_session("false \r\n\t"), Some(false));
}

#[test]
fn invalid_session_holds_nothing_else() {
    let refused = vec![
        "", " ", "null", "1", "0", "\"true\"", "True", "tru", "truee", "true false", "true,",
        "[true]", "{}", "\u{a0}true", "\u{feff}true", "true\u{b}", "\u{c}false", "fals e",
    ];
    for d in refused {
        assert_eq!(invalid_session(d), None, "{:?}", d);
    }
}

#[test]
fn refused_payload_is_explained() {
    match GatewayReceiveEvent::deserialize(frame(9, "null")) {
        Err(DecodeError::InvalidPayload(message)) => {
            assert_eq!(message, "invalid type: null, expected a boolean at line 1 column 4");
        }
        other => panic!("{:?}", other),
    }
}

#[test]
fn hello_is_completed_with_its_payload() {
    let d = match GatewayReceiveEvent::deserialize(frame(10, "{\"heartbeat_interval\":45000}")) {
        Ok(Decoded::Hello(d)) => d,
        other => panic!("{:?}", other),
    };
    assert_eq!(d, "{\"heartbeat_interval\":45000}");
    match GatewayReceiveEvent::hello(Ok(Hello { heartbeat_interval: 45000 })) {
        Ok(GatewayReceiveEvent::Hello(hello)) => assert_eq!(hello.heartbeat_interval, 45000),
        other => panic!("{:?}", other),
    }
}

#[test]
fn hello_with_a_bad_payload_is_refused() {
    match GatewayReceiveEvent::hello(Err("missing field".to_string())) {
        Err(DecodeError::InvalidPayload(message)) => assert_eq!(message, "missing field"),
        other => panic!("{:?}", other),
    }
}

#[test]
fn other_opcodes_are_refused() {
    for op in vec![2, 3, 4, 5, 6, 8, 12, 255, u32::MAX] {
        match GatewayReceiveEvent::deserialize(frame(op, "null")) {
            Err(DecodeError::InvalidOpcode(refused)) => assert_eq!(refused, op),
            other => panic!("{:?}", other),
        }
    }
}

#[test]
fn only_heartbeats_go_both_ways() {
    for event in sent_events() {
        let is_heartbeat = matches!(event, GatewaySendEvent::Heartbeat(_));
        let op = event.serialize().op;
        match GatewayReceiveEvent::deserialize(frame(op, "null")) {
            Ok(Decoded::Event(GatewayReceiveEvent::Heartbeat)) => assert!(is_heartbeat),
            Err(DecodeError::InvalidOpcode(refused)) => {
                assert!(!is_heartbeat);
                assert_eq!(refused, op);
            }
            other => panic!("{:?}", other),
        }
    }
}
