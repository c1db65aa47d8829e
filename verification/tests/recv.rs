use lestinia_common::net::frame::{frame, MAX_MSG_BYTES};
use lestinia_common::net::recv::{RecvState, Step};

fn stream_of(payloads: &[Vec<u8>]) -> Vec<u8> {
    let mut stream = Vec::new();
    for payload in payloads {
        stream.extend(frame(payload));
    }
    stream
}

#[test]
fn one_frame_in_one_read() {
    let mut state = RecvState::new();
    let got = state.feed(&frame(b"hello"));
    assert_eq!(got.payloads, vec![b"hello".to_vec()]);
    assert!(!got.oversize);
    assert!(matches!(&state, RecvState::ReadHead(head) if head.is_empty()));
}

#[test]
fn several_frames_in_one_read_come_out_in_order() {
    let payloads = vec![b"one".to_vec(), b"two".to_vec(), vec![], b"four".to_vec()];
    let mut state = RecvState::new();
    let got = state.feed(&stream_of(&payloads));
    assert_eq!(got.payloads, payloads);
    assert!(!got.oversize);
}

#[test]
fn byte_by_byte_delivers_the_same() {
    let payloads = vec![b"alpha".to_vec(), vec![0u8; 17], b"omega".to_vec()];
    let stream = stream_of(&payloads);
    let mut state = RecvState::new();
    let mut seen = Vec::new();
    for byte in &stream {
        let got = state.feed(&[*byte]);
        assert!(!got.oversize);
        seen.extend(got.payloads);
    }
    assert_eq!(seen, payloads);
}

#[test]
fn any_cut_delivers_the_same() {
    let payloads = vec![b"ab".to_vec(), b"cdefg".to_vec(), vec![], vec![9u8; 11]];
    let stream = stream_of(&payloads);
    for cut in 0..=stream.len() {
        let mut state = RecvState::new();
        let first = state.feed(&stream[..cut]);
        let second = state.feed(&stream[cut..]);
        assert!(!first.oversize && !second.oversize);
        let mut seen = first.payloads;
        seen.extend(second.payloads);
        assert_eq!(seen, payloads, "cut at {}", cut);
    }
}

#[test]
fn an_incomplete_frame_waits_in_the_state() {
    let mut state = RecvState::new();
    let got = state.feed(&[3, 0, 0]);
    assert!(got.payloads.is_empty() && !got.oversize);
    assert!(matches!(&state, RecvState::ReadHead(head) if head == &vec![3, 0, 0]));
    let got = state.feed(&[0, 0, 0, 0, 0, 0x61]);
    assert!(got.payloads.is_empty() && !got.oversize);
    assert!(matches!(&state, RecvState::ReadBody(3, body) if body == &vec![0x61]));
    let got = state.feed(&[0x62, 0x63, 9]);
    assert_eq!(got.payloads, vec![b"abc".to_vec()]);
    assert!(matches!(&state, RecvState::ReadHead(head) if head == &vec![9]));
}

#[test]
fn an_empty_payload_is_delivered() {
    let mut state = RecvState::new();
    let got = state.feed(&[0, 0, 0, 0, 0, 0, 0, 0]);
    assert_eq!(got.payloads, vec![Vec::<u8>::new()]);
    assert!(!got.oversize);
}

#[test]
fn the_largest_payload_is_accepted() {
    let payload = vec![0xabu8; MAX_MSG_BYTES];
    let mut state = RecvState::new();
    let got = state.feed(&frame(&payload));
    assert!(!got.oversize);
    assert_eq!(got.payloads.len(), 1);
    assert!(got.payloads[0] == payload);
}

#[test]
fn one_byte_more_than_the_largest_is_refused() {
    let mut state = RecvState::new();
    let got = state.feed(&((MAX_MSG_BYTES as u64) + 1).to_le_bytes());
    assert!(got.oversize);
    assert!(got.payloads.is_empty());
}

#[test]
fn oversize_stops_delivery_even_before_good_frames() {
    let mut stream = frame(b"before");
    stream.extend_from_slice(&[0xff; 8]);
    stream.extend(frame(b"after"));
    let mut state = RecvState::new();
    let got = state.feed(&stream);
    assert!(got.oversize);
    assert_eq!(got.payloads, vec![b"before".to_vec()]);
}

#[test]
fn only_incomplete_frames_are_states() {
    assert!(RecvState::new().is_wf());
    assert!(RecvState::ReadHead(vec![0; 7]).is_wf());
    assert!(!RecvState::ReadHead(vec![0; 8]).is_wf());
    assert!(RecvState::ReadBody(3, vec![1, 2]).is_wf());
    assert!(!RecvState::ReadBody(3, vec![1, 2, 3]).is_wf());
    assert!(!RecvState::ReadBody(0, vec![]).is_wf());
    assert!(RecvState::ReadBody(MAX_MSG_BYTES, vec![]).is_wf());
    assert!(!RecvState::ReadBody(MAX_MSG_BYTES + 1, vec![]).is_wf());
    let mut state = RecvState::new();
    let _ = state.feed(&[5, 0, 0, 0, 0, 0, 0, 0, 1, 2]);
    assert!(state.is_wf());
}

#[test]
fn push_reports_each_byte() {
    let mut state = RecvState::new();
    for byte in [2u8, 0, 0, 0, 0, 0, 0, 0, 0x68] {
        assert!(matches!(state.push(byte), Step::Pending));
    }
    match state.push(0x69) {
        Step::Payload(payload) => assert_eq!(payload, b"hi".to_vec()),
        other => panic!("{:?}", other),
    }
    for byte in [0u8, 0, 0, 0, 0, 0, 0] {
        assert!(matches!(state.push(byte), Step::Pending));
    }
    assert!(matches!(state.push(1), Step::Oversize));
    assert!(matches!(&state, RecvState::ReadHead(head) if head.is_empty()));
}

#[test]
fn sixty_four_bytes_of_ones_are_oversize() {
    let mut state = RecvState::new();
    let got = state.feed(&[0xffu8; 64]);
    assert_eq!(got.payloads.into_iter().next(), None);
    assert!(got.oversize);
}
