use colibri_proxy::relay::{Frame, FrameKind, Relay, RelayAction, RelayEvent};

fn data(bytes: &[u8]) -> Frame {
    Frame { kind: FrameKind::Data, payload: bytes.to_vec() }
}

#[test]
fn frames_cross_verbatim_in_order() {
    let mut relay = Relay::new();
    let sent: Vec<&[u8]> = vec![b"alpha", b"", b"\x00\x01\xff", b"last"];
    let mut delivered: Vec<Vec<u8>> = Vec::new();
    for bytes in &sent {
        match relay.on_event(RelayEvent::FromClient(data(bytes))) {
            RelayAction::ToBackend(f) => {
                assert_eq!(f.kind, FrameKind::Data);
                delivered.push(f.payload);
            }
            _ => panic!("a client frame must go to the backend"),
        }
    }
    let expected: Vec<Vec<u8>> = sent.iter().map(|b| b.to_vec()).collect();
    assert_eq!(delivered, expected);
}

#[test]
fn backend_frames_cross_to_client() {
    let mut relay = Relay::new();
    match relay.on_event(RelayEvent::FromBackend(data(b"pong"))) {
        RelayAction::ToClient(f) => assert_eq!(f.payload, b"pong".to_vec()),
        _ => panic!("a backend frame must go to the client"),
    }
    assert!(!relay.done);
}

#[test]
fn control_and_close_frames_forwarded_opaquely() {
    let mut relay = Relay::new();
    let control = Frame { kind: FrameKind::Control, payload: b"ping".to_vec() };
    match relay.on_event(RelayEvent::FromClient(control)) {
        RelayAction::ToBackend(f) => {
            assert_eq!(f.kind, FrameKind::Control);
            assert_eq!(f.payload, b"ping".to_vec());
        }
        _ => panic!("a control frame must cross like any other"),
    }
    let close = Frame { kind: FrameKind::Close, payload: b"bye".to_vec() };
    match relay.on_event(RelayEvent::FromBackend(close)) {
        RelayAction::ToClient(f) => {
            assert_eq!(f.kind, FrameKind::Close);
            assert_eq!(f.payload, b"bye".to_vec());
        }
        _ => panic!("a close frame must cross like any other"),
    }
    assert!(!relay.done);
}

#[test]
fn client_end_closes_both_sides() {
    let mut relay = Relay::new();
    match relay.on_event(RelayEvent::FromClient(data(b"x"))) {
        RelayAction::ToBackend(_) => {}
        _ => panic!("frame must be forwarded first"),
    }
    match relay.on_event(RelayEvent::ClientEnded) {
        RelayAction::CloseBoth => {}
        _ => panic!("an ending side must close both connections"),
    }
    assert!(relay.done);
}

#[test]
fn backend_end_closes_both_sides() {
    let mut relay = Relay::new();
    match relay.on_event(RelayEvent::BackendEnded) {
        RelayAction::CloseBoth => {}
        _ => panic!("an ending side must close both connections"),
    }
    assert!(relay.done);
}
