use termy::protocol::frame::{
    decode, encode, Frame, OffsetTracker, FILE_PAYLOAD_MAX, HEADER_BYTES, KIND_FILE_CHUNK,
    KIND_TERMINAL_INPUT, KIND_TERMINAL_OUTPUT, MESSAGE_MAX, TERMINAL_FILE_INDEX,
    TERMINAL_PAYLOAD_MAX,
};

const SESSION: [u8; 16] = [1u8; 16];
const TRANSFER: [u8; 16] = [2u8; 16];

fn terminal(offset: u64, len: usize) -> Frame {
    Frame {
        kind: KIND_TERMINAL_OUTPUT,
        stream_id: SESSION,
        file_index: TERMINAL_FILE_INDEX,
        offset,
        payload: vec![0xab; len],
    }
}

fn file(idx: u32, offset: u64, len: usize) -> Frame {
    Frame {
        kind: KIND_FILE_CHUNK,
        stream_id: TRANSFER,
        file_index: idx,
        offset,
        payload: vec![7; len],
    }
}

#[test]
fn round_trip() {
    let frame = terminal(0, 7);
    let encoded = encode(&frame).unwrap();
    assert_eq!(encoded.len(), HEADER_BYTES + 7);
    assert_eq!(decode(&encoded).unwrap(), frame);
}

#[test]
fn max_file_chunk_matches_the_documented_ceiling() {
    let frame = Frame {
        kind: KIND_FILE_CHUNK,
        stream_id: TRANSFER,
        file_index: 0,
        offset: 0,
        payload: vec![0x5a; FILE_PAYLOAD_MAX],
    };
    assert_eq!(encode(&frame).unwrap().len(), 262_182);
}

#[test]
fn rejects_malformed_headers() {
    let good = encode(&terminal(0, 3)).unwrap();

    let mut bad_magic = good.clone();
    bad_magic[0] = 0x58;
    assert!(decode(&bad_magic).unwrap_err().0.contains("bad magic"));

    let mut bad_version = good.clone();
    bad_version[2] = 0x02;
    assert!(decode(&bad_version)
        .unwrap_err()
        .0
        .contains("unsupported frame version"));

    let mut bad_kind = good.clone();
    bad_kind[3] = 0x09;
    assert!(decode(&bad_kind).unwrap_err().0.contains("unknown kind"));

    let mut flags = good.clone();
    flags[4] = 1;
    assert!(decode(&flags).unwrap_err().0.contains("flags must be 0"));

    let mut reserved = good.clone();
    reserved[5] = 1;
    assert!(decode(&reserved)
        .unwrap_err()
        .0
        .contains("reserved byte must be 0"));

    let mut length = good.clone();
    length[6..10].copy_from_slice(&999u32.to_be_bytes());
    assert!(decode(&length).unwrap_err().0.contains("does not match"));

    let mut file_index = good.clone();
    file_index[26..30].copy_from_slice(&3u32.to_be_bytes());
    assert!(decode(&file_index)
        .unwrap_err()
        .0
        .contains("terminal frames must set fileIndex"));

    assert!(decode(&good[..20])
        .unwrap_err()
        .0
        .contains("truncated header"));
}

#[test]
fn offsets_are_tracked_per_domain() {
    let mut tracker = OffsetTracker::new();

    assert!(tracker.accept(&terminal(0, 100)).ok);
    let input = Frame {
        kind: KIND_TERMINAL_INPUT,
        ..terminal(0, 10)
    };
    assert!(tracker.accept(&input).ok);
    assert!(tracker.accept(&terminal(100, 50)).ok);

    assert!(tracker.accept(&file(0, 0, 256)).ok);
    assert!(tracker.accept(&file(1, 0, 128)).ok);
    assert!(tracker.accept(&file(0, 256, 64)).ok);
}

#[test]
fn a_file_gap_is_fatal_but_a_terminal_gap_is_not() {
    let mut tracker = OffsetTracker::new();

    let file_gap = Frame {
        kind: KIND_FILE_CHUNK,
        stream_id: TRANSFER,
        file_index: 0,
        offset: 64,
        payload: vec![1; 8],
    };
    let check = tracker.accept(&file_gap);
    assert!(!check.ok && check.fatal);

    let check = tracker.accept(&terminal(64, 8));
    assert!(!check.ok && !check.fatal);
}

#[test]
fn the_header_is_laid_out_big_endian() {
    let frame = Frame {
        kind: KIND_FILE_CHUNK,
        stream_id: [0x11; 16],
        file_index: 0x0102_0304,
        offset: 0x0a0b_0c0d_0e0f_1011,
        payload: vec![0xee, 0xff],
    };
    let bytes = encode(&frame).unwrap();
    assert_eq!(&bytes[0..6], &[0x54, 0x4d, 0x01, 0x03, 0x00, 0x00]);
    assert_eq!(&bytes[6..10], &[0, 0, 0, 2]);
    assert_eq!(&bytes[10..26], &[0x11; 16]);
    assert_eq!(&bytes[26..30], &[1, 2, 3, 4]);
    assert_eq!(&bytes[30..38], &[0x0a, 0x0b, 0x0c, 0x0d, 0x0e, 0x0f, 0x10, 0x11]);
    assert_eq!(&bytes[38..], &[0xee, 0xff]);
    assert_eq!(MESSAGE_MAX, HEADER_BYTES + FILE_PAYLOAD_MAX);
}

#[test]
fn oversized_payloads_are_refused_by_the_encoder() {
    assert!(encode(&terminal(0, TERMINAL_PAYLOAD_MAX)).is_ok());
    assert!(encode(&terminal(0, TERMINAL_PAYLOAD_MAX + 1)).is_err());
    assert!(encode(&file(0, 0, FILE_PAYLOAD_MAX + 1)).is_err());
}

#[test]
fn a_terminal_gap_reports_both_offsets() {
    let mut tracker = OffsetTracker::new();
    assert!(tracker.accept(&terminal(0, 10)).ok);
    let check = tracker.accept(&terminal(20, 5));
    assert!(!check.ok);
    assert!(!check.fatal);
    assert_eq!(check.expected, 10);
    assert_eq!(check.got, 20);
}
