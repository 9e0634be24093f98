use termy::protocol::messages::{
    builder, AgentHeartbeatMessage, AgentHeartbeatMessagePayload, AgentHelloAckMessagePayload, AgentHelloMessagePayload, Cols, FileEntry, FileIndex, Platform, Rows, SafeRelativePath, Semver, TerminalCloseMessagePayload, TerminalErrorMessagePayload, TerminalResizeMessagePayload, TerminalResizeMessageProtocolVersion, Uuid,
};
use termy::protocol::patterns::{check_safe_relative_path, check_semver, check_uuid};

#[test]
fn platforms_spell_as_the_schema_says() {
    assert_eq!(Platform::WindowsX64.as_str(), "windows-x64");
    assert!(matches!(Platform::from_str("ubuntu-x64"), Ok(Platform::UbuntuX64)));
    assert_eq!(Platform::from_str("macos").unwrap_err().0, "invalid value");
}

#[test]
fn uuids_must_be_lowercase_and_hyphenated() {
    let ok = "3d594650-3436-4c7a-9a15-9b5c3f0f4a11";
    assert_eq!(Uuid::from_str(ok).unwrap().as_str(), ok);
    assert!(Uuid::from_str("3D594650-3436-4c7a-9a15-9b5c3f0f4a11").is_err());
    assert!(Uuid::from_str("3d5946503436-4c7a-9a15-9b5c3f0f4a11").is_err());
    assert!(check_uuid(ok));
    assert!(!check_uuid(""));
}

#[test]
fn semver_follows_the_schema_pattern() {
    assert!(Semver::from_str("1.2.3").is_ok());
    assert!(check_semver("0.1.0-beta.1+build.5"));
    assert!(!check_semver("01.2.3"));
    assert!(!check_semver("1.2"));
}

#[test]
fn safe_relative_paths_follow_the_schema_pattern() {
    assert!(SafeRelativePath::from_str("notes/demo.md").is_ok());
    assert!(check_safe_relative_path("a b/c.md"));
    assert!(!check_safe_relative_path("/abs"));
    assert!(!check_safe_relative_path("../up"));
}

#[test]
fn protocol_versions_are_pinned_to_one() {
    assert_eq!(TerminalResizeMessageProtocolVersion::try_from(1).unwrap().get(), 1);
    assert_eq!(
        TerminalResizeMessageProtocolVersion::try_from(2).unwrap_err().0,
        "invalid value"
    );
}

#[test]
fn sizes_are_never_zero() {
    assert!(Cols::new(0).is_none());
    assert_eq!(Rows::new(24).unwrap().get(), 24);
}

#[test]
fn a_builder_reports_its_first_unset_field() {
    let partial = TerminalResizeMessagePayload::builder().rows(Rows::new(24).unwrap());
    assert_eq!(
        TerminalResizeMessagePayload::try_from(partial).unwrap_err().0,
        "no value supplied for cols"
    );
    let full = TerminalResizeMessagePayload::builder()
        .cols(Cols::new(80).unwrap())
        .rows(Rows::new(24).unwrap());
    let payload = TerminalResizeMessagePayload::try_from(full).unwrap();
    assert_eq!((payload.cols.get(), payload.rows.get()), (80, 24));
    let again = TerminalResizeMessagePayload::try_from(builder::TerminalResizeMessagePayload::from(payload)).unwrap();
    assert_eq!(again.cols.get(), 80);
}

fn heartbeat_payload() -> builder::AgentHeartbeatMessagePayload {
    termy::protocol::messages::AgentHeartbeatMessagePayload::builder().timestamp("2026-07-28T09:00:00Z")
}

#[test]
fn a_device_id_that_fails_its_pattern_is_reported_by_the_builder() {
    let b = AgentHeartbeatMessage::builder;
    let e = AgentHeartbeatMessage::try_from(b().device_id("3D594650-3436-4C7A-9A15-9B5C3F0F4A11")).unwrap_err();
    assert!(e.message().starts_with("error converting supplied value for device_id: doesn't match pattern"));
    let e = AgentHeartbeatMessage::try_from(b().device_id("3d594650-3436-4c7a-9a15-9b5c3f0f4a11")).unwrap_err();
    assert_eq!(e.message(), "no value supplied for payload");
}

#[test]
fn a_nested_builders_failure_is_carried_up() {
    let b = AgentHeartbeatMessage::builder().device_id("3d594650-3436-4c7a-9a15-9b5c3f0f4a11");
    let e = AgentHeartbeatMessage::try_from(b.payload(AgentHeartbeatMessagePayload::builder())).unwrap_err();
    assert_eq!(e.message(), "error converting supplied value for payload: no value supplied for timestamp");
}

#[test]
fn a_protocol_version_other_than_one_is_reported_by_the_builder() {
    let b = || {
        AgentHeartbeatMessage::builder()
            .device_id("3d594650-3436-4c7a-9a15-9b5c3f0f4a11")
            .payload(heartbeat_payload())
    };
    let e = AgentHeartbeatMessage::try_from(b().protocol_version(2i64)).unwrap_err();
    assert_eq!(e.message(), "error converting supplied value for protocol_version: invalid value");
    let e = AgentHeartbeatMessage::try_from(b().protocol_version(1i64)).unwrap_err();
    assert_eq!(e.message(), "no value supplied for request_id");
}

#[test]
fn a_wrong_type_name_is_reported_and_the_right_one_builds() {
    let b = || {
        AgentHeartbeatMessage::builder()
            .device_id("3d594650-3436-4c7a-9a15-9b5c3f0f4a11")
            .payload(heartbeat_payload())
            .protocol_version(1i64)
            .request_id(())
            .session_id(())
    };
    let e = AgentHeartbeatMessage::try_from(b().type_("agent.hello")).unwrap_err();
    assert_eq!(e.message(), "error converting supplied value for type_: invalid value");
    let m = AgentHeartbeatMessage::try_from(b().type_("agent.heartbeat")).unwrap();
    assert_eq!(m.device_id.as_str(), "3d594650-3436-4c7a-9a15-9b5c3f0f4a11");
    assert_eq!(m.payload.timestamp.seconds, 1785229200);
    assert_eq!(m.payload.timestamp.nanos, 0);
}

#[test]
fn a_timestamp_is_read_as_rfc3339_text() {
    let b = AgentHeartbeatMessagePayload::builder;
    let p = AgentHeartbeatMessagePayload::try_from(b().timestamp("2026-07-28T11:00:00.5+02:00")).unwrap();
    assert_eq!(p.timestamp.seconds, 1785229200);
    assert_eq!(p.timestamp.nanos, 500_000_000);
    let e = AgentHeartbeatMessagePayload::try_from(b().timestamp("yesterday")).unwrap_err();
    assert!(e.message().starts_with("error converting supplied value for timestamp:"));
}

#[test]
fn a_heartbeat_interval_other_than_twenty_seconds_is_reported() {
    let b = AgentHelloAckMessagePayload::builder;
    let e = AgentHelloAckMessagePayload::try_from(b().heartbeat_interval_ms(1000i64)).unwrap_err();
    assert_eq!(e.message(), "error converting supplied value for heartbeat_interval_ms: invalid value");
    let p = AgentHelloAckMessagePayload::try_from(
        b().heartbeat_interval_ms(20000i64).server_time("2026-07-28T09:00:00Z"),
    )
    .unwrap();
    assert_eq!(p.heartbeat_interval_ms.get(), 20000);
}

#[test]
fn an_agent_version_that_is_not_semver_is_reported() {
    let b = AgentHelloMessagePayload::builder;
    let e = AgentHelloMessagePayload::try_from(b().agent_version("01.2.3")).unwrap_err();
    assert!(e.message().starts_with("error converting supplied value for agent_version: doesn't match pattern"));
    let e = AgentHelloMessagePayload::try_from(b().agent_version("1.2.3-rc.1+build.5")).unwrap_err();
    assert_eq!(e.message(), "no value supplied for capabilities");
}

#[test]
fn text_supplied_for_a_path_a_reason_and_a_message_is_checked() {
    let e = FileEntry::try_from(FileEntry::builder().index(FileIndex(0)).relative_path("../escape")).unwrap_err();
    assert!(e.message().starts_with("error converting supplied value for relative_path:"));
    let e = TerminalCloseMessagePayload::try_from(
        TerminalCloseMessagePayload::builder().exit_code(None::<i32>).reason("bored"),
    )
    .unwrap_err();
    assert_eq!(e.message(), "error converting supplied value for reason: invalid value");
    let e = TerminalErrorMessagePayload::try_from(
        TerminalErrorMessagePayload::builder().code("AUTH_EXPIRED").message(""),
    )
    .unwrap_err();
    assert!(e.message().starts_with("error converting supplied value for message:"));
}
