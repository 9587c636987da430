use coap_lite::{MessageClass, Packet, ResponseType};
use frostlux::message::{check_response, Action, ClientError, Messenger, Method, Response};

fn response_bytes(code: ResponseType, payload: &[u8]) -> Vec<u8> {
    let mut p = Packet::new();
    p.header.code = MessageClass::Response(code);
    p.header.message_id = 9;
    p.payload = payload.to_vec();
    p.to_bytes().unwrap()
}

#[test]
fn message_ids_wrap_to_zero() {
    let mut m = Messenger::new(true);
    assert_eq!(m.next_msg_id(), 1);
    let mut m = Messenger::new(true);
    let mut last = 0u16;
    for _ in 0..65535u32 {
        last = m.next_msg_id();
    }
    assert_eq!(last, 65535);
    assert_eq!(m.next_msg_id(), 0);
    assert_eq!(m.next_msg_id(), 1);
}

#[test]
fn request_frames_method_path_and_id() {
    let mut m = Messenger::new(true);
    let ex = m.begin(Method::Put, "15001/65537", "{\"3311\":[{\"5850\":1}]}").unwrap();
    let packet = Packet::from_bytes(&ex.request).unwrap();
    assert_eq!(packet.header.message_id, 1);
    assert_eq!(packet.header.code, MessageClass::Request(coap_lite::RequestType::Put));
    assert_eq!(packet.payload, b"{\"3311\":[{\"5850\":1}]}".to_vec());
    let segs: Vec<Vec<u8>> = packet
        .get_option(coap_lite::CoapOption::UriPath)
        .unwrap()
        .iter()
        .cloned()
        .collect();
    assert_eq!(segs, vec![b"15001".to_vec(), b"65537".to_vec()]);
    assert_eq!(m.msg_id, 2);
}

#[test]
fn retry_succeeds_on_fresh_session() {
    let mut m = Messenger::new(true);
    let mut ex = m.begin(Method::Get, "15001", "").unwrap();
    assert_eq!(ex.next_action(), Action::Send);
    ex.on_reply(Err("connection reset".to_string()));
    assert!(!ex.is_connected());
    assert_eq!(ex.next_action(), Action::Connect);
    ex.on_connected(Ok(()));
    assert_eq!(ex.next_action(), Action::Send);
    ex.on_reply(Ok(response_bytes(ResponseType::Content, b"[1,2]")));
    assert_eq!(ex.next_action(), Action::Finish);
    let resp = m.finish(ex).unwrap();
    assert_eq!(resp.code, 0x45);
    assert_eq!(resp.payload, b"[1,2]".to_vec());
    assert!(m.connected);
}

#[test]
fn retry_gives_up_after_second_failure() {
    let mut m = Messenger::new(true);
    let mut ex = m.begin(Method::Get, "15001", "").unwrap();
    ex.on_reply(Err("timed out".to_string()));
    assert_eq!(ex.next_action(), Action::Connect);
    ex.on_connected(Ok(()));
    ex.on_reply(Err("timed out again".to_string()));
    assert_eq!(ex.next_action(), Action::Finish);
    match m.finish(ex) {
        Err(ClientError::Transport(msg)) => assert_eq!(msg, "timed out again"),
        other => panic!("unexpected {:?}", other),
    }
    assert!(!m.connected);
}

#[test]
fn malformed_reply_counts_as_failed_attempt() {
    let mut m = Messenger::new(true);
    let mut ex = m.begin(Method::Get, "15001", "").unwrap();
    ex.on_reply(Ok(vec![0xff]));
    assert_eq!(ex.next_action(), Action::Connect);
}

#[test]
fn failed_reconnect_ends_with_connect_error() {
    let mut m = Messenger::new(false);
    let mut ex = m.begin(Method::Get, "15001", "").unwrap();
    assert_eq!(ex.next_action(), Action::Connect);
    ex.on_connected(Err("handshake failed".to_string()));
    assert_eq!(ex.next_action(), Action::Finish);
    match m.finish(ex) {
        Err(ClientError::Connect(msg)) => assert_eq!(msg, "handshake failed"),
        other => panic!("unexpected {:?}", other),
    }
}

#[test]
fn response_codes_are_classified() {
    for code in [0x41u8, 0x42, 0x43, 0x44, 0x45] {
        let r = check_response(Response { code, payload: b"ok".to_vec() });
        assert_eq!(r.unwrap(), b"ok".to_vec());
    }
    match check_response(Response { code: 0x84, payload: b"no such thing".to_vec() }) {
        Err(ClientError::Rejected { code, text }) => {
            assert_eq!(code, 0x84);
            assert_eq!(text, "no such thing");
        }
        other => panic!("unexpected {:?}", other),
    }
    match check_response(Response { code: 0xA0, payload: vec![0x66, 0xff] }) {
        Err(ClientError::Rejected { code, text }) => {
            assert_eq!(code, 0xA0);
            assert_eq!(text, "f\u{fffd}");
        }
        other => panic!("unexpected {:?}", other),
    }
    assert!(check_response(Response { code: 0x5F, payload: vec![] }).is_err());
    assert!(check_response(Response { code: 0x40, payload: vec![] }).is_err());
    assert!(check_response(Response { code: 0x46, payload: vec![] }).is_err());
    match check_response(Response { code: 0x00, payload: b"ack".to_vec() }) {
        Err(ClientError::Rejected { code, text }) => {
            assert_eq!(code, 0x00);
            assert_eq!(text, "ack");
        }
        other => panic!("unexpected {:?}", other),
    }
    assert!(check_response(Response { code: 0x01, payload: vec![] }).is_err());
}
