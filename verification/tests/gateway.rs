use termy::relay::gateway::{agent_timed_out, ws_upgrade_rate_key};
use termy::protocol::frame::{encode, Frame, KIND_FILE_CHUNK, KIND_TERMINAL_INPUT, TERMINAL_FILE_INDEX};
use termy::relay::gateway::registry::{Registry, Route, SendError};
use termy::relay::gateway::routing::{
    agent_send_failure, check_frame_size, classify_control_text, control_send_failure,
    parse_device_credential, require_subprotocol, route_control_binary, stream_key, ControlText,
    Lane,
};
use termy::relay::gateway::{
    close_reason, next_action, writer_step, LaneEvent, WriterAction, WriterPhase,
    MAX_CONTROL_FRAME_BYTES, TERMINAL_DRAIN_BUDGET,
};

fn new_id() -> u128 {
    uuid::Uuid::new_v4().as_u128()
}

#[test]
fn a_new_agent_connection_displaces_the_old_one() {
    let mut registry: Registry<&str> = Registry::new();
    let device = new_id();
    let user = new_id();

    assert!(registry.register_agent(device, user, "first", 1, 0).is_none());

    let displaced = registry.register_agent(device, user, "second", 2, 0).unwrap();
    assert_eq!(displaced, "first");

    // The displaced connection's own cleanup must not evict the replacement.
    assert!(!registry.unregister_agent_if_current(device, 1));
    assert!(registry.is_online(device));

    assert!(registry.unregister_agent_if_current(device, 2));
    assert!(!registry.is_online(device));
}

#[test]
fn a_new_control_connection_displaces_the_old_one() {
    let mut registry: Registry<&str> = Registry::new();
    let user = new_id();

    assert!(registry.register_control(user, "first", 1).is_none());
    assert!(registry.register_control(user, "second", 2).is_some());

    assert!(!registry.unregister_control_if_current(user, 1));
    assert!(registry.control_handle(user).is_some());
    assert!(registry.unregister_control_if_current(user, 2));
    assert!(registry.control_handle(user).is_none());
}

#[test]
fn routes_are_dropped_with_their_device() {
    let mut registry: Registry<&str> = Registry::new();
    let user = new_id();
    let device = new_id();
    let other_device = new_id();

    let session = new_id();
    let transfer = new_id();
    let unrelated = new_id();

    registry.open_session(session, Route { user_id: user, device_id: device });
    registry.open_transfer(transfer, Route { user_id: user, device_id: device });
    registry.open_session(unrelated, Route { user_id: user, device_id: other_device });

    assert!(registry.device_has_session(device));

    let dropped = registry.drop_routes_for_device(device);
    assert_eq!(dropped.sessions.len(), 1);
    assert_eq!(dropped.sessions[0].0, session);
    assert_eq!(dropped.sessions[0].1.device_id, device);
    assert_eq!(dropped.transfers.len(), 1);
    assert_eq!(dropped.transfers[0].0, transfer);

    assert!(!registry.device_has_session(device));
    assert!(registry.session_route(unrelated).is_some(), "another device's route survives");
}

#[test]
fn routes_are_dropped_with_their_user() {
    let mut registry: Registry<&str> = Registry::new();
    let alice = new_id();
    let bob = new_id();
    let device = new_id();

    let alice_session = new_id();
    let bob_session = new_id();
    registry.open_session(alice_session, Route { user_id: alice, device_id: device });
    registry.open_session(bob_session, Route { user_id: bob, device_id: device });

    let dropped = registry.drop_routes_for_user(alice);
    assert_eq!(dropped.sessions.len(), 1);
    assert_eq!(dropped.sessions[0].0, alice_session);
    assert!(registry.session_route(bob_session).is_some());
}

#[test]
fn the_registry_remembers_owners_and_heartbeats() {
    let mut registry: Registry<u8> = Registry::new();
    registry.register_agent(7, 70, 0, 1, 100);
    assert_eq!(registry.agent_owner(7), Some(70));
    assert_eq!(registry.agent_last_seen(7), Some(100));
    registry.touch_agent(7, 250);
    assert_eq!(registry.agent_last_seen(7), Some(250));
    assert_eq!(registry.online_devices(), vec![7]);
    assert_eq!(registry.close_session(99), None);
}

#[test]
fn control_frames_have_a_size_limit() {
    assert!(check_frame_size(MAX_CONTROL_FRAME_BYTES).is_ok());
    let f = check_frame_size(MAX_CONTROL_FRAME_BYTES + 1).unwrap_err();
    assert_eq!((f.code, f.reason.as_str()), (4413, "CONTROL_FRAME_TOO_LARGE"));
}

#[test]
fn send_failures_map_to_close_codes() {
    assert_eq!(agent_send_failure(SendError::Closed).reason, "DEVICE_OFFLINE");
    assert_eq!(agent_send_failure(SendError::Full).code, 4413);
    assert!(control_send_failure(SendError::Closed).is_ok());
    assert_eq!(control_send_failure(SendError::Full).unwrap_err().reason, "BACKPRESSURE_LIMIT");
}

#[test]
fn the_subprotocol_must_be_offered() {
    assert!(require_subprotocol("termy.v1").is_ok());
    assert!(require_subprotocol("chat, termy.v1 ").is_ok());
    let e = require_subprotocol("termy.v2").unwrap_err();
    assert_eq!(e.status, 400);
    assert_eq!(e.message, "the termy.v1 subprotocol is required");
    assert!(require_subprotocol("").is_err());
}

#[test]
fn control_messages_are_classified_by_type() {
    assert_eq!(classify_control_text("terminal.open"), ControlText::TerminalOpen);
    assert_eq!(classify_control_text("agent.hello"), ControlText::Other);
}

#[test]
fn stream_ids_read_as_big_endian_uuids() {
    let id = uuid::Uuid::new_v4();
    assert_eq!(stream_key(id.as_bytes()), id.as_u128());
}

#[test]
fn device_credentials_are_parsed() {
    let id = uuid::Uuid::new_v4();
    let header = format!("Device {id}.secret-token");
    assert_eq!(
        parse_device_credential(&header),
        Some((id.as_u128(), "secret-token".to_string()))
    );
    assert_eq!(parse_device_credential("Bearer x"), None);
    assert_eq!(parse_device_credential("Device not-a-uuid.token"), None);
}

#[test]
fn binary_frames_from_a_control_end_are_routed_by_ownership() {
    let mut registry: Registry<u8> = Registry::new();
    let user = new_id();
    let device = new_id();
    let session = uuid::Uuid::new_v4();
    registry.open_session(session.as_u128(), Route { user_id: user, device_id: device });
    let input = encode(&Frame {
        kind: KIND_TERMINAL_INPUT,
        stream_id: *session.as_bytes(),
        file_index: TERMINAL_FILE_INDEX,
        offset: 0,
        payload: b"ls\n".to_vec(),
    })
    .unwrap();

    let offline = route_control_binary(&registry, user, &input).unwrap_err();
    assert_eq!(offline.reason, "DEVICE_OFFLINE");

    registry.register_agent(device, user, 1, 1, 0);
    assert_eq!(route_control_binary(&registry, user, &input).unwrap(), (Lane::Control, device));

    let stranger = route_control_binary(&registry, new_id(), &input).unwrap_err();
    assert_eq!(stranger.reason, "DEVICE_FORBIDDEN");

    let chunk = encode(&Frame {
        kind: KIND_FILE_CHUNK,
        stream_id: *session.as_bytes(),
        file_index: 0,
        offset: 0,
        payload: vec![1],
    })
    .unwrap();
    assert_eq!(route_control_binary(&registry, user, &chunk).unwrap_err().reason, "DEVICE_FORBIDDEN");
    assert_eq!(route_control_binary(&registry, user, b"junk").unwrap_err().code, 4400);
}

#[test]
fn close_reasons_fit_a_close_frame() {
    assert_eq!(close_reason("DEVICE_OFFLINE"), "DEVICE_OFFLINE");
    assert_eq!(close_reason(&"x".repeat(200)).len(), 123);
}

#[test]
fn the_writer_gives_the_file_lane_a_turn_after_the_drain_budget() {
    let start = WriterPhase::Control { drained: 0, sent_any: false };
    assert_eq!(next_action(start), WriterAction::TryControl);
    let busy = writer_step(start, LaneEvent::Sent { len: TERMINAL_DRAIN_BUDGET, finished: false });
    assert_eq!(next_action(busy), WriterAction::TryFile);
    let after_file = writer_step(busy, LaneEvent::Sent { len: 10, finished: false });
    assert_eq!(after_file, WriterPhase::Control { drained: 0, sent_any: false });
    let idle = writer_step(WriterPhase::File { sent_any: false }, LaneEvent::Empty);
    assert_eq!(next_action(idle), WriterAction::Wait);
    assert_eq!(writer_step(idle, LaneEvent::Disconnected), WriterPhase::Stopped);
}

#[test]
fn liveness_and_upgrade_keys() {
    assert_eq!(ws_upgrade_rate_key("1.2.3.4"), "ws-upgrade:1.2.3.4");
    assert!(!agent_timed_out(50_000_000_000, 0));
    assert!(agent_timed_out(50_000_000_001, 0));
    assert!(!agent_timed_out(5, 10));
}

#[test]
fn one_byte_control_messages_yield_to_the_file_lane_after_the_budget() {
    let mut phase = WriterPhase::Control { drained: 0, sent_any: false };
    let mut control_sends: usize = 0;
    while next_action(phase) == WriterAction::TryControl {
        phase = writer_step(phase, LaneEvent::Sent { len: 1, finished: false });
        control_sends += 1;
    }
    assert_eq!(control_sends, TERMINAL_DRAIN_BUDGET);
    assert_eq!(next_action(phase), WriterAction::TryFile);
}
