use termy::agent::termstream::{
    try_read_varint, write_varint, Frame, FrameDecoder, KIND_DATA, KIND_RESIZE, MAX_FRAME_LEN,
};
use termy::agent::AgentError;

fn json(pairs: Vec<(&str, serde_json::Value)>) -> Vec<u8> {
    let mut map = serde_json::Map::new();
    for (k, v) in pairs {
        map.insert(k.to_string(), v);
    }
    serde_json::to_vec(&serde_json::Value::Object(map)).unwrap()
}

fn text(s: &str) -> serde_json::Value {
    serde_json::Value::String(s.to_string())
}

fn roundtrip(frame: Frame) {
    let encoded = frame.encode().unwrap();
    let mut decoder = FrameDecoder::new();
    decoder.push(&encoded);
    assert_eq!(decoder.next_frame().unwrap(), Some(frame));
    assert_eq!(decoder.next_frame().unwrap(), None, "buffer must be drained");
}

#[test]
fn every_frame_kind_round_trips() {
    roundtrip(Frame::Open(json(vec![("cols", 80.into()), ("rows", 24.into())])));
    roundtrip(Frame::Opened(json(vec![
        ("sessionId", text(&uuid::Uuid::new_v4().to_string())),
        ("shell", text("/bin/bash")),
    ])));
    roundtrip(Frame::Error(json(vec![("message", text("SESSION_LIMIT_REACHED"))])));
    roundtrip(Frame::Data(b"echo hi\n".to_vec()));
    roundtrip(Frame::Data(Vec::new()));
    roundtrip(Frame::Resize(json(vec![("cols", 120.into()), ("rows", 40.into())])));
    roundtrip(Frame::ShellEvent(json(vec![
        ("event", text("command_end")),
        ("source", text("osc133")),
        ("cwd", text("/home/user/project")),
        ("exitCode", 0.into()),
    ])));
    roundtrip(Frame::ShellEvent(json(vec![("event", text("prompt_start"))])));
    roundtrip(Frame::Close(json(vec![("reason", text("peer disconnected"))])));
    roundtrip(Frame::Close(json(vec![
        ("reason", text("shell_exited")),
        ("exitCode", 0.into()),
    ])));
    roundtrip(Frame::Close(json(vec![])));
}

#[test]
fn two_frames_back_to_back_decode_in_order() {
    let first = Frame::Data(b"one".to_vec());
    let second = Frame::Data(b"two".to_vec());

    let mut decoder = FrameDecoder::new();
    decoder.push(&first.encode().unwrap());
    decoder.push(&second.encode().unwrap());

    assert_eq!(decoder.next_frame().unwrap(), Some(first));
    assert_eq!(decoder.next_frame().unwrap(), Some(second));
    assert_eq!(decoder.next_frame().unwrap(), None);
}

#[test]
fn a_frame_split_across_many_small_chunks_still_decodes() {
    let frame = Frame::ShellEvent(json(vec![
        ("event", text("command_end")),
        ("source", text("osc633")),
        ("cwd", text("/tmp/some/fairly/long/path/for/varint/coverage")),
        ("exitCode", 1.into()),
    ]));
    let encoded = frame.encode().unwrap();

    let mut decoder = FrameDecoder::new();
    for byte in &encoded {
        assert_eq!(decoder.next_frame().unwrap(), None, "must not decode early");
        decoder.push(std::slice::from_ref(byte));
    }
    assert_eq!(decoder.next_frame().unwrap(), Some(frame));
}

#[test]
fn an_unknown_kind_byte_is_a_protocol_error() {
    let mut decoder = FrameDecoder::new();
    decoder.push(&[0x7f, 0x00]);
    assert!(matches!(
        decoder.next_frame(),
        Err(AgentError::Protocol(_))
    ));
}

#[test]
fn a_length_prefix_over_the_cap_is_rejected_without_buffering_the_payload() {
    let mut decoder = FrameDecoder::new();
    let mut out = vec![KIND_DATA];
    write_varint(&mut out, MAX_FRAME_LEN + 1);
    decoder.push(&out);
    assert!(matches!(
        decoder.next_frame(),
        Err(AgentError::Protocol(_))
    ));
}

#[test]
fn varint_round_trips_across_the_single_and_multi_byte_boundary() {
    for value in [0u64, 1, 127, 128, 300, 16384, MAX_FRAME_LEN] {
        let mut out = Vec::new();
        write_varint(&mut out, value);
        assert_eq!(try_read_varint(&out).unwrap(), Some((value, out.len())));
    }
}

#[test]
fn varints_are_little_endian_groups_of_seven_bits() {
    let mut out = Vec::new();
    write_varint(&mut out, 300);
    assert_eq!(out, vec![0xac, 0x02]);
    assert_eq!(try_read_varint(&[0x80]).unwrap(), None);
    assert_eq!(try_read_varint(&[0xff; 9]).unwrap(), None);
    assert!(try_read_varint(&[0xff; 10]).is_err());
    assert!(try_read_varint(&[0xff; 11]).is_err());
}

#[test]
fn a_structured_frame_carries_its_payload_bytes() {
    let frame = Frame::Resize(b"{}".to_vec());
    assert_eq!(frame.encode().unwrap(), vec![KIND_RESIZE, 2, b'{', b'}']);
    assert_eq!(frame.kind(), KIND_RESIZE);
}

#[test]
fn a_large_payload_gets_a_multi_byte_length_prefix() {
    let frame = Frame::Data(vec![9u8; 300]);
    let bytes = frame.encode().unwrap();
    assert_eq!(&bytes[0..3], &[KIND_DATA, 0xac, 0x02]);
    assert_eq!(bytes.len(), 303);
}

#[test]
fn a_run_of_ten_continuation_bytes_is_a_protocol_error() {
    let bytes = [0x80u8; 10];
    assert!(matches!(try_read_varint(&bytes), Err(AgentError::Protocol(_))));
    assert_eq!(try_read_varint(&bytes[..9]).unwrap(), None);
    let mut decoder = FrameDecoder::new();
    decoder.push(&[KIND_DATA]);
    decoder.push(&bytes);
    assert!(matches!(decoder.next_frame(), Err(AgentError::Protocol(_))));
}
