use discord::client::{Client, ClientAction};
use discord::errors::DiscordError;
use discord::gateway::{
    close_policy, interpret_message, parse_frame, ClosePolicy, Frame, GatewayEvent, GatewayOpcode,
    InboundMessage, Session,
};
use discord::heartbeat::{HeartbeatMonitor, HeartbeatStep, ACK_GRACE_MS};

#[test]
fn opcode_codes_round_trip() {
    assert_eq!(GatewayOpcode::from_u64(10), Some(GatewayOpcode::Hello));
    assert_eq!(GatewayOpcode::from_u64(0), Some(GatewayOpcode::Dispatch));
    assert_eq!(GatewayOpcode::from_u64(5), None);
    assert_eq!(GatewayOpcode::from_u64(12), None);
    for code in [0u64, 1, 2, 3, 4, 6, 7, 8, 9, 10, 11] {
        let op = GatewayOpcode::from_u64(code).unwrap();
        assert_eq!(op.as_u64(), code);
    }
}

#[test]
fn ready_dispatch_captures_session_identifier() {
    let text = "{\"op\":0,\"t\":\"READY\",\"s\":1,\"d\":{\"session_id\":\"abc123\"}}";
    let frame = parse_frame(text).unwrap();
    assert_eq!(frame.seq, Some(1));
    let mut session = Session::new();
    session.handle_frame(&frame);
    assert_eq!(session.session_id.as_deref(), Some("abc123"));
    assert_eq!(session.sequence, Some(1));
}

#[test]
fn non_ready_dispatch_leaves_session_identifier() {
    let text = "{\"op\":0,\"t\":\"MESSAGE_CREATE\",\"s\":9,\"d\":{\"session_id\":\"zzz\"}}";
    let frame = parse_frame(text).unwrap();
    let mut session = Session::new();
    session.handle_frame(&frame);
    assert_eq!(session.session_id, None);
    assert_eq!(session.sequence, Some(9));
}

#[test]
fn hello_records_interval_and_asks_to_identify() {
    let frame = parse_frame("{\"op\":10,\"d\":{\"heartbeat_interval\":41250}}").unwrap();
    assert!(matches!(
        frame.event,
        GatewayEvent::Hello { heartbeat_interval_ms: 41250 }
    ));
    let mut session = Session::new();
    let action = session.handle_frame(&frame);
    assert_eq!(session.heartbeat_interval_ms, Some(41250));
    assert_eq!(action, discord::gateway::GatewayAction::Identify);
}

#[test]
fn heartbeat_ack_marks_the_session() {
    let mut session = Session::new();
    session.mark_heartbeat_sent();
    assert!(!session.last_heartbeat_ack);
    let frame = parse_frame("{\"op\":11}").unwrap();
    session.handle_frame(&frame);
    assert!(session.last_heartbeat_ack);
}

#[test]
fn invalid_session_discards_resume_state() {
    let mut session = Session::new();
    session.handle_frame(&parse_frame(
        "{\"op\":0,\"t\":\"READY\",\"s\":4,\"d\":{\"session_id\":\"abc\"}}",
    ).unwrap());
    assert!(session.can_resume());
    let action = session.handle_frame(&parse_frame("{\"op\":9,\"d\":false}").unwrap());
    assert_eq!(action, discord::gateway::GatewayAction::Reidentify);
    assert_eq!(session.sequence, None);
    assert_eq!(session.session_id, None);
    assert!(!session.can_resume());
}

#[test]
fn reconnect_preserves_resume_state() {
    let mut session = Session::new();
    session.handle_frame(&parse_frame(
        "{\"op\":0,\"t\":\"READY\",\"s\":4,\"d\":{\"session_id\":\"abc\"}}",
    ).unwrap());
    let action = session.handle_frame(&parse_frame("{\"op\":7}").unwrap());
    assert_eq!(action, discord::gateway::GatewayAction::Reconnect);
    assert_eq!(session.sequence, Some(4));
    assert_eq!(session.session_id.as_deref(), Some("abc"));
}

#[test]
fn sequence_never_decreases() {
    let mut session = Session::new();
    session.handle_frame(&parse_frame("{\"op\":0,\"s\":5}").unwrap());
    assert_eq!(session.sequence, Some(5));
    session.handle_frame(&parse_frame("{\"op\":0,\"s\":3}").unwrap());
    assert_eq!(session.sequence, Some(5));
    session.handle_frame(&parse_frame("{\"op\":0,\"s\":6}").unwrap());
    assert_eq!(session.sequence, Some(6));
}

#[test]
fn malformed_json_fails_the_receive() {
    assert!(matches!(parse_frame("{nope"), Err(DiscordError::Json(_))));
}

#[test]
fn binary_frames_decode_as_text() {
    let bytes = "{\"op\":11}".as_bytes().to_vec();
    let r = interpret_message(&InboundMessage::Binary(bytes)).unwrap();
    assert!(matches!(
        r,
        Some(Frame { event: GatewayEvent::HeartbeatAck, .. })
    ));
}

#[test]
fn close_without_body_defaults_to_normal_closure() {
    let r = interpret_message(&InboundMessage::Close { frame: None });
    assert!(matches!(
        r,
        Err(DiscordError::ConnectionClosed { code: 1000, reason }) if reason.is_empty()
    ));
}

#[test]
fn close_carries_code_and_reason() {
    let r = interpret_message(&InboundMessage::Close {
        frame: Some((4004, "Authentication failed.".to_string())),
    });
    assert!(matches!(
        r,
        Err(DiscordError::ConnectionClosed { code: 4004, reason }) if reason == "Authentication failed."
    ));
}

#[test]
fn other_transport_messages_yield_no_frame() {
    assert_eq!(interpret_message(&InboundMessage::Other).unwrap(), None);
}

#[test]
fn close_codes_map_to_policies() {
    assert_eq!(close_policy(4004), ClosePolicy::Fatal);
    assert_eq!(close_policy(4013), ClosePolicy::Fatal);
    assert_eq!(close_policy(4014), ClosePolicy::Fatal);
    assert_eq!(close_policy(4007), ClosePolicy::Reidentify);
    assert_eq!(close_policy(4009), ClosePolicy::Reidentify);
    assert_eq!(close_policy(1000), ClosePolicy::Reidentify);
    assert_eq!(close_policy(4000), ClosePolicy::Resume);
    assert_eq!(close_policy(1006), ClosePolicy::Resume);
}

#[test]
fn resumable_close_keeps_session_state() {
    let mut session = Session::new();
    session.handle_frame(&parse_frame(
        "{\"op\":0,\"t\":\"READY\",\"s\":4,\"d\":{\"session_id\":\"abc\"}}",
    ).unwrap());
    session.handle_frame(&parse_frame("{\"op\":10,\"d\":{\"heartbeat_interval\":1000}}").unwrap());
    let p = session.on_close(4000);
    assert_eq!(p, ClosePolicy::Resume);
    assert_eq!(session.sequence, Some(4));
    assert_eq!(session.session_id.as_deref(), Some("abc"));
    assert_eq!(session.heartbeat_interval_ms, None);
    let p2 = session.on_close(4009);
    assert_eq!(p2, ClosePolicy::Reidentify);
    assert_eq!(session.sequence, None);
    assert_eq!(session.session_id, None);
}

#[test]
fn prepare_reconnect_keeps_only_the_resume_state() {
    let mut session = Session::new();
    session.handle_frame(&parse_frame(
        "{\"op\":0,\"t\":\"READY\",\"s\":4,\"d\":{\"session_id\":\"abc\"}}",
    ).unwrap());
    session.handle_frame(&parse_frame("{\"op\":10,\"d\":{\"heartbeat_interval\":1000}}").unwrap());
    session.mark_heartbeat_sent();
    session.prepare_reconnect();
    assert_eq!(session.sequence, Some(4));
    assert_eq!(session.session_id.as_deref(), Some("abc"));
    assert_eq!(session.heartbeat_interval_ms, None);
    assert!(session.last_heartbeat_ack);
}

#[test]
fn missed_ack_detected_within_interval_plus_grace() {
    // Hello announced a 1000 ms interval; the peer never acknowledges.
    let mut m = HeartbeatMonitor::new(0, 1000);
    assert_eq!(m.step(0, true), HeartbeatStep::Sleep { until_ms: 1000 });
    let beat = m.step(1000, true);
    assert_eq!(beat, HeartbeatStep::Beat { ack_deadline_ms: 1000 + ACK_GRACE_MS });
    // connection death is signalled no later than interval + grace
    assert_eq!(m.step(1000 + ACK_GRACE_MS, false), HeartbeatStep::Dead);
    assert_eq!(m.step(7000, false), HeartbeatStep::Dead);
}

#[test]
fn acknowledged_heartbeat_keeps_ticking() {
    let mut m = HeartbeatMonitor::new(0, 1000);
    assert!(matches!(m.step(1000, true), HeartbeatStep::Beat { .. }));
    // the ack arrived: the next decision is to wait for the next beat
    assert_eq!(m.step(1200, true), HeartbeatStep::Sleep { until_ms: 2000 });
    assert!(matches!(m.step(2000, true), HeartbeatStep::Beat { .. }));
}

#[test]
fn unacknowledged_heartbeat_waits_out_the_grace_window() {
    let mut m = HeartbeatMonitor::new(0, 1000);
    m.step(1000, true);
    assert_eq!(m.step(3000, false), HeartbeatStep::Sleep { until_ms: 6000 });
    assert_eq!(m.step(6000, false), HeartbeatStep::Dead);
}

#[test]
fn client_identifies_and_starts_heartbeat_once() {
    let mut client = Client::new(None);
    client.begin_run("token-1");
    let hello = parse_frame("{\"op\":10,\"d\":{\"heartbeat_interval\":1000}}").unwrap();
    let a1 = client.on_frame(&hello);
    assert_eq!(a1, ClientAction::Identify { start_heartbeat: true });
    let a2 = client.on_frame(&hello);
    assert_eq!(a2, ClientAction::Identify { start_heartbeat: false });
    client.heartbeat_stopped();
    let a3 = client.on_frame(&hello);
    assert_eq!(a3, ClientAction::Identify { start_heartbeat: true });
}

#[test]
fn client_forwards_dispatched_events() {
    let mut client = Client::new(None);
    let frame = parse_frame("{\"op\":0,\"t\":\"MESSAGE_CREATE\",\"s\":2,\"d\":{}}").unwrap();
    let a = client.on_frame(&frame);
    assert_eq!(
        a,
        ClientAction::Dispatch { event_name: Some("MESSAGE_CREATE".to_string()) }
    );
}

#[test]
fn client_resume_needs_a_preserved_session() {
    let mut client = Client::new(None);
    client.begin_run("tok");
    assert!(client.resume_bytes().is_err());
    let ready = parse_frame(
        "{\"op\":0,\"t\":\"READY\",\"s\":12,\"d\":{\"session_id\":\"sess\"}}",
    ).unwrap();
    client.on_frame(&ready);
    let bytes = client.resume_bytes().unwrap();
    assert_eq!(
        String::from_utf8(bytes).unwrap(),
        "{\"op\":6,\"d\":{\"token\":\"tok\",\"session_id\":\"sess\",\"seq\":12}}"
    );
}
