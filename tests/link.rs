use lact_client::error::ClientError;
use lact_client::link::{Action, Event, Link, Phase, RECONNECT_INTERVAL_MS};

fn expect_write(a: Action) -> Vec<u8> {
    match a {
        Action::Write(b) => b,
        other => panic!("expected a write, got {:?}", other),
    }
}

fn expect_deliver(a: Action) -> Vec<u8> {
    match a {
        Action::Deliver(b) => b,
        other => panic!("expected a delivery, got {:?}", other),
    }
}

#[test]
fn ping_over_healthy_connection() {
    let mut link = Link::new();
    let frame = expect_write(link.begin(b"{\"op\":\"Ping\"}").unwrap());
    assert_eq!(frame, b"{\"op\":\"Ping\"}\n".to_vec());
    assert!(matches!(link.on_event(Event::Written), Action::Read));
    let line = expect_deliver(link.on_event(Event::Received(b"{\"Ok\":{\"pong\":true}}\n".to_vec())));
    assert_eq!(line, b"{\"Ok\":{\"pong\":true}}\n".to_vec());
    assert_eq!(link.phase(), Phase::Idle);
    assert!(!link.has_unread());
}

#[test]
fn drop_before_reply_resends_once() {
    let mut wire: Vec<Vec<u8>> = Vec::new();
    let mut link = Link::new();
    wire.push(expect_write(link.begin(b"{\"op\":\"Ping\"}").unwrap()));
    assert!(matches!(link.on_event(Event::Written), Action::Read));
    // the peer closes the stream before any reply
    assert!(matches!(link.on_event(Event::Received(Vec::new())), Action::Reconnect { delay_ms: 0 }));
    assert!(matches!(
        link.on_event(Event::ReconnectFailed),
        Action::Reconnect { delay_ms: RECONNECT_INTERVAL_MS }
    ));
    wire.push(expect_write(link.on_event(Event::Reconnected)));
    assert!(matches!(link.on_event(Event::Written), Action::Read));
    let line = expect_deliver(link.on_event(Event::Received(b"{\"Ok\":{\"pong\":true}}\n".to_vec())));
    assert_eq!(line, b"{\"Ok\":{\"pong\":true}}\n".to_vec());
    assert_eq!(wire.len(), 2);
    assert_eq!(wire[0], b"{\"op\":\"Ping\"}\n".to_vec());
    assert_eq!(wire[1], wire[0]);
}

#[test]
fn write_failure_resends_same_request() {
    let mut link = Link::new();
    let first = expect_write(link.begin(b"{\"op\":\"ListDevices\"}").unwrap());
    assert!(matches!(link.on_event(Event::Failed), Action::Reconnect { delay_ms: 0 }));
    let second = expect_write(link.on_event(Event::Reconnected));
    assert_eq!(first, second);
}

#[test]
fn partial_reply_from_broken_connection_is_discarded() {
    let mut link = Link::new();
    expect_write(link.begin(b"{\"op\":\"Ping\"}").unwrap());
    link.on_event(Event::Written);
    assert!(matches!(link.on_event(Event::Received(b"{\"Ok\":".to_vec())), Action::Read));
    assert!(matches!(link.on_event(Event::Failed), Action::Reconnect { delay_ms: 0 }));
    expect_write(link.on_event(Event::Reconnected));
    link.on_event(Event::Written);
    let line = expect_deliver(link.on_event(Event::Received(b"{\"Ok\":null}\n".to_vec())));
    assert_eq!(line, b"{\"Ok\":null}\n".to_vec());
}

#[test]
fn reconnect_keeps_trying_at_fixed_interval() {
    let mut link = Link::new();
    expect_write(link.begin(b"x").unwrap());
    assert!(matches!(link.on_event(Event::Failed), Action::Reconnect { delay_ms: 0 }));
    for _ in 0..50 {
        match link.on_event(Event::ReconnectFailed) {
            Action::Reconnect { delay_ms } => assert_eq!(delay_ms, 250),
            other => panic!("gave up with {:?}", other),
        }
        assert_eq!(link.phase(), Phase::Reconnecting);
    }
    assert_eq!(expect_write(link.on_event(Event::Reconnected)), b"x\n".to_vec());
}

#[test]
fn reply_split_over_reads() {
    let mut link = Link::new();
    expect_write(link.begin(b"q").unwrap());
    link.on_event(Event::Written);
    assert!(matches!(link.on_event(Event::Received(b"{\"Ok\"".to_vec())), Action::Read));
    assert!(matches!(link.on_event(Event::Received(b":5".to_vec())), Action::Read));
    let line = expect_deliver(link.on_event(Event::Received(b"}\n".to_vec())));
    assert_eq!(line, b"{\"Ok\":5}\n".to_vec());
    assert!(!link.has_unread());
}

#[test]
fn leftover_bytes_refuse_next_request() {
    let mut link = Link::new();
    expect_write(link.begin(b"q").unwrap());
    link.on_event(Event::Written);
    let line = expect_deliver(link.on_event(Event::Received(b"{\"Ok\":1}\n{\"Ok\":2}\n".to_vec())));
    assert_eq!(line, b"{\"Ok\":1}\n".to_vec());
    assert!(link.has_unread());
    assert!(matches!(link.begin(b"q"), Err(ClientError::Desync)));
    assert_eq!(link.phase(), Phase::Idle);
    assert!(link.has_unread());
}

#[test]
fn engine_expects_events_of_its_phase() {
    let mut link = Link::new();
    assert!(!link.accepts(&Event::Written));
    expect_write(link.begin(b"q").unwrap());
    assert!(link.accepts(&Event::Written));
    assert!(link.accepts(&Event::Failed));
    assert!(!link.accepts(&Event::Received(b"x".to_vec())));
    assert!(!link.accepts(&Event::Reconnected));
    link.on_event(Event::Written);
    assert!(link.accepts(&Event::Received(b"x".to_vec())));
    assert!(!link.accepts(&Event::Written));
    link.on_event(Event::Failed);
    assert!(link.accepts(&Event::Reconnected));
    assert!(link.accepts(&Event::ReconnectFailed));
    assert!(!link.accepts(&Event::Failed));
}
