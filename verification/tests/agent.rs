use termy::agent::client::{
    classify_control, close_outcome, control_step, uuid_field, ControlFields, ControlStep, connect_failure, device_authorization, next_backoff_secs,
    platform, platform_for, redact, terminal_size, try_redact, AgentControl, Disconnect,
};
use termy::agent::config::{config_dir_parts, default_shell, default_shell_for, home_dir_from, validate_config};
use termy::agent::identity::DeviceIdentity;
use termy::agent::paths::{validate_relative, validate_relative_for, validate_windows, PathError};
use termy::agent::pty::{stat_session_id, SessionSlot};
use termy::agent::state::ConnectionState;
use termy::agent::AgentError;

#[test]
fn redaction_strips_paths() {
    let redacted = redact("cannot start /usr/local/bin/weird-shell: No such file");
    assert!(!redacted.contains("/usr/local"));
    assert!(redacted.contains("<path>"));
    assert!(redacted.contains("No such file"));
}

#[test]
fn redaction_bounds_length() {
    assert!(redact(&"x".repeat(4096)).len() <= 512);
}

#[test]
fn redaction_keeps_ordinary_words_and_joins_them_with_single_spaces() {
    assert_eq!(redact("spawn  failed:\tpermission denied"), "spawn failed: permission denied");
    assert_eq!(redact("open C:\\Users\\me\\x failed"), "open <path> failed");
    assert_eq!(redact(""), "");
}

#[test]
fn redaction_never_splits_a_character() {
    let long = "é".repeat(400);
    let r = redact(&long);
    assert!(r.len() <= 512);
    assert_eq!(r.chars().count(), 256);
}

#[test]
fn a_cut_inside_a_character_is_reported_rather_than_made() {
    let odd = format!("a{}", "é".repeat(300));
    assert_eq!(try_redact(&odd), None);
    let even = "é".repeat(300);
    assert_eq!(try_redact(&even).unwrap(), "é".repeat(256));
    assert_eq!(try_redact("see /etc/passwd").unwrap(), "see <path>");
}

#[test]
fn platform_matches_the_protocol_enum() {
    assert!(matches!(platform(), "windows-x64" | "ubuntu-x64"));
}

#[test]
fn platform_names_per_host() {
    assert_eq!(platform_for(true), "windows-x64");
    assert_eq!(platform_for(false), "ubuntu-x64");
}

#[test]
fn backoff_doubles_up_to_thirty_seconds() {
    assert_eq!(next_backoff_secs(1), 2);
    assert_eq!(next_backoff_secs(8), 16);
    assert_eq!(next_backoff_secs(15), 30);
    assert_eq!(next_backoff_secs(16), 30);
    assert_eq!(next_backoff_secs(30), 30);
}

#[test]
fn the_device_credential_header() {
    assert_eq!(device_authorization("dev", "tok"), "Device dev.tok");
}

#[test]
fn an_unauthorized_handshake_stops_retrying() {
    assert!(matches!(
        connect_failure("HTTP error: 401 Unauthorized".to_string()),
        Disconnect::Unauthorized
    ));
    assert!(matches!(
        connect_failure("connection refused".to_string()),
        Disconnect::Retryable(_)
    ));
    assert!(matches!(close_outcome(Some(4401)), Disconnect::Unauthorized));
    assert!(matches!(close_outcome(Some(1000)), Disconnect::Retryable(m) if m == "relay closed with 1000"));
    assert!(matches!(close_outcome(None), Disconnect::Retryable(_)));
}

#[test]
fn terminal_size_defaults_and_clamps() {
    assert_eq!(terminal_size(None, None), (80, 24));
    assert_eq!(terminal_size(Some(120), Some(40)), (120, 40));
    assert_eq!(terminal_size(Some(65536 + 7), None), (7, 24));
}

#[test]
fn control_messages_are_classified() {
    assert_eq!(classify_control("terminal.open").unwrap(), AgentControl::TerminalOpen);
    assert!(matches!(classify_control("no.such.type"), Err(AgentError::Protocol(_))));
}

#[test]
fn accepts_ordinary_vault_paths() {
    for path in [
        "a.md",
        "notes/demo.md",
        "assets/img/diagram.png",
        "a b/c d.md",
        "中文/笔记.md",
    ] {
        assert_eq!(validate_relative(path), Ok(()), "{path} should be accepted");
    }
}

#[test]
fn rejects_structural_attacks() {
    assert_eq!(validate_relative(""), Err(PathError::Empty));
    assert_eq!(validate_relative("/etc/passwd"), Err(PathError::Absolute));
    assert_eq!(
        validate_relative("C:/Windows/system.ini"),
        Err(PathError::Absolute)
    );
    assert_eq!(validate_relative("../escape.md"), Err(PathError::Traversal));
    assert_eq!(
        validate_relative("notes/../../etc/shadow"),
        Err(PathError::Traversal)
    );
    assert_eq!(
        validate_relative("notes//demo.md"),
        Err(PathError::EmptySegment)
    );
    assert_eq!(
        validate_relative("notes/./demo.md"),
        Err(PathError::EmptySegment)
    );
    assert_eq!(
        validate_relative("notes\\demo.md"),
        Err(PathError::Backslash)
    );
    assert_eq!(validate_relative("a\0b.md"), Err(PathError::NulByte));
    assert_eq!(
        validate_relative(&"x".repeat(1025)),
        Err(PathError::TooLong)
    );
}

#[test]
fn windows_rules_are_explicit_regardless_of_host() {
    assert_eq!(
        validate_windows("CON.txt"),
        Err(PathError::WindowsReservedName("CON".into()))
    );
    assert_eq!(
        validate_windows("nul"),
        Err(PathError::WindowsReservedName("NUL".into()))
    );
    assert_eq!(
        validate_windows("a/COM1.md"),
        Err(PathError::WindowsReservedName("COM1".into()))
    );
    assert_eq!(
        validate_windows("trailing."),
        Err(PathError::WindowsTrailingDotOrSpace)
    );
    assert_eq!(
        validate_windows("trailing "),
        Err(PathError::WindowsTrailingDotOrSpace)
    );
    assert_eq!(
        validate_windows("what?.md"),
        Err(PathError::WindowsIllegalChar)
    );
    assert_eq!(
        validate_windows("a:b.md"),
        Err(PathError::WindowsIllegalChar)
    );

    assert_eq!(validate_windows("console.md"), Ok(()));
    assert_eq!(validate_windows("nullable.md"), Ok(()));
}

#[test]
fn a_windows_host_applies_the_windows_rules_after_the_structural_ones() {
    assert_eq!(
        validate_relative_for("notes/CON.md", true),
        Err(PathError::WindowsReservedName("CON".into()))
    );
    assert_eq!(validate_relative_for("notes/CON.md", false), Ok(()));
    assert_eq!(validate_relative_for("../CON.md", true), Err(PathError::Traversal));
    assert_eq!(
        validate_relative(&"x".repeat(1024)),
        Ok(())
    );
}

#[test]
fn the_session_slot_admits_one_at_a_time() {
    let mut slot = SessionSlot::new();
    let first = uuid::Uuid::new_v4().as_u128();
    let second = uuid::Uuid::new_v4().as_u128();

    assert!(slot.claim(first));
    assert!(!slot.claim(second), "a second session must be refused");
    assert_eq!(slot.active(), Some(first));

    slot.release(second);
    assert_eq!(slot.active(), Some(first));

    slot.release(first);
    assert!(slot.claim(second));
}

#[test]
fn the_default_unix_shell_is_a_login_shell() {
    let shell = default_shell();
    assert_eq!(shell.program, "/bin/bash");
    assert_eq!(shell.args, vec!["-l".to_string()]);
}

#[test]
fn powershell_takes_no_login_flag() {
    let shell = default_shell_for(true);
    assert_eq!(shell.program, "powershell.exe");
    assert!(shell.args.is_empty());
}

const DEVICE_ID: &str = "3d594650-3436-4c7a-9a15-9b5c3f0f4a11";

fn check(relay_url: &str, absolute_root: bool, insecure: bool) -> Result<(), AgentError> {
    validate_config(
        DEVICE_ID,
        &"a".repeat(43),
        relay_url,
        "build-server",
        absolute_root,
        "/bin/bash",
        insecure,
    )
}

#[test]
fn a_sample_configuration_is_valid() {
    assert!(check("wss://relay.example.com/v1/agent/ws", true, false).is_ok());
}

#[test]
fn a_plaintext_relay_url_is_refused_unless_explicitly_allowed() {
    assert!(matches!(
        check("ws://relay.example.com", true, false),
        Err(AgentError::Config(_))
    ));
    assert!(check("ws://relay.example.com", true, true).is_ok());
    assert!(check("http://relay.example.com", true, true).is_err());
}

#[test]
fn a_relative_receive_root_is_refused() {
    match check("wss://relay.example.com", false, false) {
        Err(AgentError::Config(m)) => assert_eq!(m, "receiveRoot must be an absolute path"),
        other => panic!("unexpected {other:?}"),
    }
}

#[test]
fn each_configuration_field_is_checked() {
    let token = "a".repeat(43);
    let bad_id = validate_config("nope", &token, "wss://r", "n", true, "sh", false);
    assert!(matches!(bad_id, Err(AgentError::Config(m)) if m == "deviceId is not a UUID"));
    let empty_token = validate_config(DEVICE_ID, "", "wss://r", "n", true, "sh", false);
    assert!(matches!(empty_token, Err(AgentError::Config(m)) if m == "deviceToken is empty"));
    let long_name = "n".repeat(65);
    let bad_name = validate_config(DEVICE_ID, &token, "wss://r", &long_name, true, "sh", false);
    assert!(matches!(bad_name, Err(AgentError::Config(m)) if m == "deviceName must be 1..64 characters"));
    let no_shell = validate_config(DEVICE_ID, &token, "wss://r", "n", true, "", false);
    assert!(matches!(no_shell, Err(AgentError::Config(m)) if m == "shell.program is empty"));
}

#[test]
fn the_config_directory_follows_the_platform_conventions() {
    assert_eq!(
        config_dir_parts(false, None, Some("/xdg"), "/home/u"),
        vec!["/xdg".to_string(), "termy-agent".to_string()]
    );
    assert_eq!(
        config_dir_parts(false, None, Some(""), "/home/u"),
        vec!["/home/u".to_string(), ".config".to_string(), "termy-agent".to_string()]
    );
    assert_eq!(
        config_dir_parts(true, Some("C:\\AppData"), None, "C:\\Users\\u"),
        vec!["C:\\AppData".to_string(), "TermyAgent".to_string()]
    );
    assert_eq!(home_dir_from(None, Some("C:\\Users\\u")), "C:\\Users\\u");
    assert_eq!(home_dir_from(None, None), ".");
}

#[test]
fn an_identity_survives_its_stored_form() {
    let identity = DeviceIdentity::generate();
    let stored = identity.stored_seed();
    let reloaded = DeviceIdentity::decode(&stored).unwrap();
    assert_eq!(identity.public_key_bytes(), reloaded.public_key_bytes());
    assert_eq!(identity.fingerprint(), reloaded.fingerprint());
    assert_eq!(identity.fingerprint().len(), 16);
    assert!(!stored.to_lowercase().contains("token"));
}

#[test]
fn fresh_identities_differ() {
    let a = DeviceIdentity::generate();
    let b = DeviceIdentity::generate();
    assert_ne!(a.public_key_bytes(), b.public_key_bytes());
}

#[test]
fn a_known_seed_gives_the_known_public_key() {
    // RFC 8032, test 1.
    let seed = "nWGxne/9WmC6hEr0kuwsxERJxWl7MmkZcDusAxyuf2A=";
    let identity = DeviceIdentity::decode(seed).unwrap();
    assert_eq!(identity.fingerprint(), "d75a980182b10ab7");
    assert_eq!(identity.stored_seed(), seed);
}

#[test]
fn a_malformed_stored_seed_is_refused() {
    assert!(matches!(
        DeviceIdentity::decode("not base64!"),
        Err(AgentError::Config(m)) if m.starts_with("identity seed is not valid base64: ")
    ));
    assert!(matches!(
        DeviceIdentity::decode("AAAA"),
        Err(AgentError::Config(m)) if m == "identity seed is not 32 bytes"
    ));
}

#[test]
fn connection_states_have_their_wire_names() {
    assert_eq!(ConnectionState::Connected.as_str(), "connected");
    assert_eq!(ConnectionState::Disconnected.as_str(), "disconnected");
}

fn fields(transfer_id: Option<&str>) -> ControlFields<'_> {
    ControlFields { cols: Some(100), rows: None, transfer_id, file_index: Some(2), sent_size: Some(10) }
}

#[test]
fn one_terminal_at_a_time() {
    assert_eq!(
        control_step(AgentControl::TerminalOpen, true, false, None, fields(None)).unwrap(),
        ControlStep::OpenTerminal { cols: 100, rows: 24 }
    );
    assert_eq!(
        control_step(AgentControl::TerminalOpen, false, true, None, fields(None)).unwrap(),
        ControlStep::RefuseBusy
    );
    assert_eq!(
        control_step(AgentControl::TerminalClose, true, false, None, fields(None)).unwrap(),
        ControlStep::Nothing
    );
}

#[test]
fn transfer_messages_must_name_the_open_transfer() {
    let id = uuid::Uuid::new_v4();
    let text = id.to_string();
    assert_eq!(
        control_step(AgentControl::TransferStart, true, false, None, fields(Some(&text))).unwrap(),
        ControlStep::StartTransfer { transfer_id: id.as_u128() }
    );
    assert_eq!(
        control_step(AgentControl::TransferFileEnd, true, false, Some(id.as_u128()), fields(Some(&text))).unwrap(),
        ControlStep::FinishFile { file_index: 2, sent_size: 10 }
    );
    assert_eq!(
        control_step(AgentControl::TransferComplete, true, false, Some(7), fields(Some(&text))).unwrap(),
        ControlStep::Nothing
    );
    match control_step(AgentControl::TransferAbort, true, false, None, fields(Some("nope"))) {
        Err(AgentError::Protocol(m)) => assert_eq!(m, "transferId is not a UUID"),
        other => panic!("unexpected {other:?}"),
    }
    assert!(uuid_field("x", None).is_err());
}

#[test]
fn the_session_id_is_read_after_the_command_name() {
    assert_eq!(stat_session_id("1234 (bash) S 1 1234 1234 34816 ..."), Some(1234));
    assert_eq!(stat_session_id("77 (a b) c)) R 5 6 -7 8"), Some(-7));
    assert_eq!(stat_session_id("77 (x) S 1 2"), None);
    assert_eq!(stat_session_id("no parenthesis 1 2 3 4"), None);
    assert_eq!(stat_session_id("9 (x) S 1 2 99999999999"), None);
}
