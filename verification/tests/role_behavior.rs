use pingpong::ConnectionInfo;
use pingpong::DeliveryMode;
use pingpong::InboundEvent;
use pingpong::react;
use pingpong::start_messages;

#[test]
fn initiator_start_sends_one_ping() {
    let peer = String::from("127.0.0.1:12350");
    let msgs = start_messages(&ConnectionInfo::Client, &peer);
    assert_eq!(msgs.len(), 1);
    assert_eq!(msgs[0].payload, b"Ping".to_vec());
    assert_eq!(msgs[0].dest, peer);
    assert!(matches!(msgs[0].mode, DeliveryMode::ReliableUnordered));
}

#[test]
fn responder_start_sends_nothing() {
    let peer = String::from("127.0.0.1:12350");
    assert!(start_messages(&ConnectionInfo::Server { pong: true }, &peer).is_empty());
    assert!(start_messages(&ConnectionInfo::Server { pong: false }, &peer).is_empty());
}

#[test]
fn echo_server_replies_pong_to_source() {
    let ev = InboundEvent::MessageReceived {
        payload: b"Ping".to_vec(),
        source: String::from("127.0.0.1:12355"),
    };
    let reply = react(&ConnectionInfo::Server { pong: true }, &ev).expect("echo server must reply");
    assert_eq!(reply.payload, b"pong".to_vec());
    assert_eq!(reply.dest, String::from("127.0.0.1:12355"));
    assert!(matches!(reply.mode, DeliveryMode::ReliableUnordered));
}

#[test]
fn echo_server_replies_whatever_the_payload() {
    let ev = InboundEvent::MessageReceived {
        payload: vec![0xFFu8, 0x00u8, 0x10u8],
        source: String::from("10.1.2.3:9"),
    };
    let reply = react(&ConnectionInfo::Server { pong: true }, &ev).expect("echo server must reply");
    assert_eq!(reply.payload, b"pong".to_vec());
    assert_eq!(reply.dest, String::from("10.1.2.3:9"));
}

#[test]
fn silent_server_replies_nothing() {
    let ev = InboundEvent::MessageReceived {
        payload: b"Ping".to_vec(),
        source: String::from("127.0.0.1:12355"),
    };
    assert!(react(&ConnectionInfo::Server { pong: false }, &ev).is_none());
}

#[test]
fn client_replies_nothing() {
    let ev = InboundEvent::MessageReceived {
        payload: b"pong".to_vec(),
        source: String::from("127.0.0.1:12350"),
    };
    assert!(react(&ConnectionInfo::Client, &ev).is_none());
}

#[test]
fn timeout_and_connect_provoke_no_reply() {
    let timeout = InboundEvent::PeerTimedOut { address: String::from("127.0.0.1:12355") };
    let connect = InboundEvent::PeerConnected { address: String::from("127.0.0.1:12355") };
    assert!(react(&ConnectionInfo::Server { pong: true }, &timeout).is_none());
    assert!(react(&ConnectionInfo::Server { pong: true }, &connect).is_none());
    assert!(react(&ConnectionInfo::Client, &timeout).is_none());
    assert!(react(&ConnectionInfo::Client, &connect).is_none());
}

#[test]
fn is_server_reports_the_role() {
    assert!(ConnectionInfo::Server { pong: false }.is_server());
    assert!(ConnectionInfo::Server { pong: true }.is_server());
    assert!(!ConnectionInfo::Client.is_server());
}
