use termy::agent::register::{
    parse_post_target, post_request, register_url, registration_failure, registration_fields,
    response_body, response_status,
};
use termy::agent::AgentError;

#[test]
fn https_targets_default_to_port_443() {
    let t = parse_post_target("https://relay.example.com/v1/devices/register", false).unwrap();
    assert!(!t.insecure);
    assert_eq!(t.authority, "relay.example.com");
    assert_eq!(t.host, "relay.example.com");
    assert_eq!(t.port, 443);
    assert_eq!(t.path, "v1/devices/register");
}

#[test]
fn an_explicit_port_is_read() {
    let t = parse_post_target("https://relay.example.com:8443/x", false).unwrap();
    assert_eq!((t.host.as_str(), t.port, t.authority.as_str()), ("relay.example.com", 8443, "relay.example.com:8443"));
    let bad = parse_post_target("https://h:notaport", false).unwrap();
    assert_eq!((bad.port, bad.path.as_str()), (443, ""));
}

#[test]
fn plaintext_needs_the_development_switch() {
    assert!(matches!(
        parse_post_target("http://localhost:8080/v1", false),
        Err(AgentError::Config(_))
    ));
    let t = parse_post_target("http://localhost:8080/v1", true).unwrap();
    assert!(t.insecure);
    assert_eq!((t.host.as_str(), t.port), ("localhost", 8080));
    let d = parse_post_target("http://localhost/v1", true).unwrap();
    assert_eq!(d.port, 80);
    assert!(parse_post_target("ftp://x", true).is_err());
}

#[test]
fn the_request_counts_payload_bytes() {
    let r = post_request("v1/devices/register", "relay.example.com", "{\"a\":\"é\"}");
    assert_eq!(
        r,
        "POST /v1/devices/register HTTP/1.1\r\nHost: relay.example.com\r\nContent-Type: application/json\r\nContent-Length: 10\r\nConnection: close\r\n\r\n{\"a\":\"é\"}"
    );
}

#[test]
fn the_response_is_split_into_status_and_body() {
    let text = "HTTP/1.1 201 Created\r\nContent-Type: application/json\r\n\r\n {\"deviceId\":\"x\"} \n";
    assert_eq!(response_status(text), 201);
    assert_eq!(response_body(text), "{\"deviceId\":\"x\"}");
    assert_eq!(response_status("garbage"), 0);
    assert_eq!(response_status("HTTP/1.1 99999 Nope"), 0);
    assert_eq!(response_body("no blank line"), "");
}

#[test]
fn a_refused_registration_reports_the_relay_error() {
    assert!(registration_failure(200, None, None).is_ok());
    match registration_failure(404, Some("PAIRING_CODE_INVALID"), Some("unknown code")) {
        Err(AgentError::Protocol(m)) => assert_eq!(m, "PAIRING_CODE_INVALID: unknown code"),
        other => panic!("unexpected {other:?}"),
    }
    match registration_failure(0, None, None) {
        Err(AgentError::Protocol(m)) => assert_eq!(m, "HTTP_ERROR: registration failed"),
        other => panic!("unexpected {other:?}"),
    }
}

#[test]
fn the_endpoint_ignores_trailing_slashes() {
    assert_eq!(register_url("https://relay.example.com//"), "https://relay.example.com/v1/devices/register");
    assert_eq!(register_url("https://relay.example.com"), "https://relay.example.com/v1/devices/register");
}

#[test]
fn a_reply_without_its_fields_is_a_protocol_error() {
    let ok = registration_fields(Some("id"), Some("tok"), Some("wss://r")).unwrap();
    assert_eq!(ok, ("id".to_string(), "tok".to_string(), "wss://r".to_string()));
    match registration_fields(Some("id"), None, None) {
        Err(AgentError::Protocol(m)) => assert_eq!(m, "register response has no deviceToken"),
        other => panic!("unexpected {other:?}"),
    }
}
