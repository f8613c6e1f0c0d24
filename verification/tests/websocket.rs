use exosphere::connection::{Client, ClientControllerEvent, ClientFault};
use exosphere::ids::ClientId;
use exosphere::websocket::{
    byte_trim, make_header, ClientControlState, HttpUpgradeChecklist, WebsocketFrameBuilder,
};
use exosphere::handshake::compute_accept_key;

fn drain(c: &mut Client) -> Vec<ClientControllerEvent> {
    let mut events = Vec::new();
    for _ in 0..64 {
        let e = c.poll();
        let stop = matches!(e, ClientControllerEvent::Sleep | ClientControllerEvent::Fault(_));
        events.push(e);
        if stop {
            break;
        }
    }
    events
}

fn upgrade_request() -> Vec<u8> {
    b"GET /game HTTP/1.1\r\nHost: localhost:3000\r\nConnection: keep-alive, Upgrade\r\nUpgrade: websocket\r\nSec-WebSocket-Key: dGhlIHNhbXBsZSBub25jZQ==\r\n\r\n".to_vec()
}

fn upgraded_client() -> Client {
    let mut c = Client::new_from(ClientId(7));
    assert!(!c.receive_chunk(&upgrade_request(), 4096));
    let events = drain(&mut c);
    assert!(events.iter().any(|e| matches!(e, ClientControllerEvent::ClientUpgraded(ClientId(7)))));
    c.outbox.clear();
    c
}

fn masked_frame(first: u8, payload: &[u8], key: [u8; 4]) -> Vec<u8> {
    let mut f = vec![first, 0x80 | payload.len() as u8];
    f.extend_from_slice(&key);
    for (i, b) in payload.iter().enumerate() {
        f.push(b ^ key[i % 4]);
    }
    f
}

#[test]
fn byte_trim_strips_ascii_whitespace_at_both_ends() {
    assert_eq!(byte_trim(b"  websocket\r"), b"websocket");
    assert_eq!(byte_trim(b"x"), b"x");
    assert_eq!(byte_trim(b"\t a b \n"), b"a b");
    assert_eq!(byte_trim(b"\x0bv"), b"\x0bv");
}

#[test]
fn header_for_short_medium_and_long_messages() {
    assert_eq!(make_header(5), vec![0x82, 5]);
    assert_eq!(make_header(125), vec![0x82, 125]);
    assert_eq!(make_header(126), vec![0x82, 126, 0, 126]);
    assert_eq!(make_header(200), vec![0x82, 126, 0x00, 0xC8]);
    assert_eq!(make_header(65535), vec![0x82, 126, 0xFF, 0xFF]);
    assert_eq!(make_header(65536), vec![0x82, 127, 0, 0, 0, 0, 0, 1, 0, 0]);
}

#[test]
fn checklist_needs_all_three_parts() {
    let mut c = HttpUpgradeChecklist::default();
    assert!(!c.will_upgrade());
    c.connection_upgrade = true;
    c.upgrade_websocket = true;
    assert!(!c.will_upgrade());
    c.websocket_accept = Some(String::from("k"));
    assert!(c.will_upgrade());
    c.upgrade_websocket = false;
    assert!(!c.will_upgrade());
}

#[test]
fn frame_length_prefers_the_extended_length() {
    let mut f = WebsocketFrameBuilder::default();
    f.read_first_two(0x82, 0x85);
    assert!(f.fin);
    assert_eq!(f.opcode, 2);
    assert!(f.mask);
    assert_eq!(f.length(), 5);
    f.ext_len = Some(300);
    f.mask_key = Some([1, 2, 3, 4]);
    assert_eq!(f.length(), 300);
    // a new frame drops the extended length and the key of the one before
    f.read_first_two(0x82, 0x05);
    assert_eq!(f.length(), 5);
    assert_eq!(f.mask_key, None);
}

#[test]
fn accept_key_matches_the_rfc_example() {
    assert_eq!(compute_accept_key(b"dGhlIHNhbXBsZSBub25jZQ=="), "s3pPLMBiTxaQ9kYGzzhZRbK+xOo=");
}

#[test]
fn upgrade_handshake_answers_101_with_the_accept_key() {
    let mut c = Client::new_from(ClientId(3));
    c.receive_chunk(&upgrade_request(), 4096);
    let events = drain(&mut c);
    assert!(events.iter().any(|e| matches!(e, ClientControllerEvent::ClientUpgraded(ClientId(3)))));
    assert!(matches!(events.last(), Some(ClientControllerEvent::Sleep)));
    assert_eq!(
        c.outbox,
        b"HTTP/1.1 101 Switching Protocols\r\nConnection: upgrade\r\nUpgrade: websocket\r\nSec-Websocket-Accept: s3pPLMBiTxaQ9kYGzzhZRbK+xOo=\r\n\r\n".to_vec()
    );
    assert_eq!(c.control_state, ClientControlState::WebSocketFirstTwo);
    assert!(!c.closed);
}

#[test]
fn wrong_request_line_is_answered_400() {
    let mut c = Client::new_from(ClientId(1));
    c.receive_chunk(b"GET /other HTTP/1.1\r\n\r\n", 4096);
    let events = drain(&mut c);
    assert!(matches!(events.last(), Some(ClientControllerEvent::Sleep)));
    assert!(c.closed);
    assert_eq!(
        c.outbox,
        b"HTTP/1.1 400 Bad Request\r\n\r\nOnly GET requests to /game (no trailing slash) are permitted.".to_vec()
    );
}

#[test]
fn request_without_upgrade_headers_is_answered_400() {
    let mut c = Client::new_from(ClientId(1));
    c.receive_chunk(b"GET /game HTTP/1.1\r\nHost: a\r\n\r\n", 4096);
    drain(&mut c);
    assert!(c.closed);
    assert_eq!(
        c.outbox,
        b"HTTP/1.1 400 Bad Request\r\n\r\nAll requests must upgrade to websockets.".to_vec()
    );
}

#[test]
fn partial_request_line_waits_for_more() {
    let mut c = Client::new_from(ClientId(1));
    c.receive_chunk(b"GET /ga", 4096);
    assert!(matches!(c.poll(), ClientControllerEvent::Sleep));
    assert_eq!(c.control_state, ClientControlState::HttpFirstLine);
    assert!(c.outbox.is_empty());
}

#[test]
fn binary_frame_is_delivered_unmasked() {
    let mut c = upgraded_client();
    c.receive_chunk(&masked_frame(0x82, b"Hello", [0x37, 0xfa, 0x21, 0x3d]), 4096);
    match c.poll() {
        ClientControllerEvent::MessageReceived(id, payload) => {
            assert_eq!(id, ClientId(7));
            assert_eq!(payload, b"Hello".to_vec());
        }
        _ => panic!("expected a message"),
    }
    assert_eq!(c.control_state, ClientControlState::WebSocketFirstTwo);
}

#[test]
fn ping_is_answered_with_pong() {
    let mut c = upgraded_client();
    c.receive_chunk(&masked_frame(0x89, b"p", [1, 2, 3, 4]), 4096);
    assert!(matches!(c.poll(), ClientControllerEvent::MaybeUnfinished));
    assert_eq!(c.outbox, vec![0x8A, 0]);
    assert!(!c.closed);
}

#[test]
fn close_frame_is_answered_and_closes() {
    let mut c = upgraded_client();
    c.receive_chunk(&masked_frame(0x88, &[3, 232], [9, 9, 9, 9]), 4096);
    assert!(matches!(c.poll(), ClientControllerEvent::Sleep));
    assert_eq!(c.outbox, vec![0x88, 0]);
    assert!(c.closed);
}

#[test]
fn empty_and_unmasked_payloads_are_faults() {
    let mut c = upgraded_client();
    c.receive_chunk(&[0x82, 0x80, 1, 2, 3, 4], 4096);
    assert!(matches!(c.poll(), ClientControllerEvent::Fault(ClientFault::EmptyPayload)));
    let mut d = upgraded_client();
    d.receive_chunk(&[0x82, 0x01, 0x41], 4096);
    assert!(matches!(d.poll(), ClientControllerEvent::Fault(ClientFault::UnmaskedPayload)));
}

#[test]
fn extended_length_frames_are_read() {
    let mut c = upgraded_client();
    let payload = vec![0x55u8; 200];
    let key = [1u8, 2, 3, 4];
    let mut f = vec![0x82, 0x80 | 126, 0, 200];
    f.extend_from_slice(&key);
    for (i, b) in payload.iter().enumerate() {
        f.push(b ^ key[i % 4]);
    }
    c.receive_chunk(&f, 4096);
    match c.poll() {
        ClientControllerEvent::MessageReceived(_, p) => assert_eq!(p, payload),
        _ => panic!("expected a message"),
    }
    // the next, short frame is read by its own length, not the one before
    c.receive_chunk(&masked_frame(0x82, b"hi", key), 4096);
    match c.poll() {
        ClientControllerEvent::MessageReceived(_, p) => assert_eq!(p, b"hi".to_vec()),
        _ => panic!("expected a message"),
    }
    // and a short close frame after a long one is answered
    let mut d = upgraded_client();
    d.receive_chunk(&f, 4096);
    assert!(matches!(d.poll(), ClientControllerEvent::MessageReceived(_, _)));
    d.receive_chunk(&masked_frame(0x88, &[3], [9, 9, 9, 9]), 4096);
    assert!(matches!(d.poll(), ClientControllerEvent::Sleep));
    assert_eq!(d.outbox, vec![0x88, 0]);
    assert!(d.closed);
}

#[test]
fn an_unmasked_frame_after_a_masked_one_has_no_key() {
    let mut c = upgraded_client();
    c.receive_chunk(&masked_frame(0x82, b"abc", [1, 2, 3, 4]), 4096);
    assert!(matches!(c.poll(), ClientControllerEvent::MessageReceived(_, _)));
    c.receive_chunk(&[0x82, 0x01, 0x41], 4096);
    assert!(matches!(c.poll(), ClientControllerEvent::Fault(ClientFault::UnmaskedPayload)));
}

#[test]
fn header_line_starting_with_colon_is_a_fault() {
    let mut c = Client::new_from(ClientId(1));
    c.receive_chunk(b"GET /game HTTP/1.1\r\n: x\r\n", 4096);
    let events = drain(&mut c);
    assert!(matches!(events.last(), Some(ClientControllerEvent::Fault(ClientFault::EmptyHeaderField))));
}

#[test]
fn inbox_overflow_closes_and_empty_read_closes() {
    let mut c = Client::new_from(ClientId(1));
    let big = vec![b'a'; 5000];
    assert!(!c.receive_chunk(&big, 4096));
    assert!(c.closed);
    let mut d = Client::new_from(ClientId(2));
    assert!(!d.receive_chunk(&[], 4096));
    assert!(d.closed);
    let mut e = Client::new_from(ClientId(3));
    assert!(e.receive_chunk(&vec![b'G'; 4096], 4096));
    assert!(!e.closed);
}

#[test]
fn headers_read_back_as_their_length() {
    // the connection's own frame reader reads back every header's length
    for len in [1usize, 5, 125, 126, 200, 65535, 65536, 70000] {
        let h = make_header(len);
        let mut f = WebsocketFrameBuilder::default();
        f.read_first_two(h[0], h[1]);
        assert!(f.fin);
        assert_eq!(f.rsv, 0);
        assert_eq!(f.opcode, 2);
        assert!(!f.mask);
        if len <= 125 {
            assert_eq!(f.length(), len);
        } else if len <= 65535 {
            assert_eq!(f.len, 126);
            assert_eq!(u16::from_be_bytes([h[2], h[3]]) as usize, len);
        } else {
            assert_eq!(f.len, 127);
            let mut b = [0u8; 8];
            b.copy_from_slice(&h[2..10]);
            assert_eq!(u64::from_be_bytes(b) as usize, len);
        }
    }
}
