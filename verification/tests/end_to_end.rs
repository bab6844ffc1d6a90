//! The whole exchange, with the transport collaborator played by a pair of
//! in-memory channels: what one side submits is delivered to the other
//! side's event channel, as the transport's reliability guarantee promises.
use crossbeam_channel::Receiver;
use crossbeam_channel::Sender;
use crossbeam_channel::unbounded;
use laminar::Packet;
use laminar::SocketEvent;
use pingpong::ConnectionInfo;
use pingpong::InboundEvent;
use pingpong::OutboundMessage;
use pingpong::listen_loop;
use pingpong::run_endpoint;
use pingpong::start_messages;

/// Delivers every packet a side has submitted to the other side's event
/// channel, stamped with the sender's address as its source.
fn deliver(
    submitted: &Receiver<Packet>,
    from: &str,
    into: &Sender<SocketEvent>,
) -> Vec<OutboundMessage> {
    let mut carried: Vec<OutboundMessage> = Vec::new();
    while let Ok(p) = submitted.try_recv() {
        into.send(SocketEvent::Packet(Packet::reliable_unordered(
            from.parse().unwrap(),
            p.payload().to_vec(),
        )))
        .unwrap();
        carried.push(OutboundMessage {
            dest: format!("{}", p.addr()),
            payload: p.payload().to_vec(),
            mode: pingpong::DeliveryMode::ReliableUnordered,
        });
    }
    carried
}

#[test]
fn ping_pong_roundtrip() {
    let server_addr = "127.0.0.1:12350";
    let client_addr = "127.0.0.1:12355";

    let (server_event_tx, server_event_rx) = unbounded::<SocketEvent>();
    let (server_packet_tx, server_packet_rx) = unbounded::<Packet>();
    let (client_event_tx, client_event_rx) = unbounded::<SocketEvent>();
    let (client_packet_tx, client_packet_rx) = unbounded::<Packet>();

    // The client starts: exactly one Ping to the server, before any event.
    let greetings = start_messages(&ConnectionInfo::Client, &String::from(server_addr));
    assert_eq!(greetings.len(), 1);
    assert_eq!(greetings[0].payload, b"Ping".to_vec());
    assert_eq!(greetings[0].dest, server_addr);
    client_packet_tx.send(Packet::reliable_unordered(
        greetings[0].dest.parse().unwrap(),
        greetings[0].payload.clone(),
    )).unwrap();

    // The transport delivers the Ping to the server.
    let to_server = deliver(&client_packet_rx, client_addr, &server_event_tx);
    assert_eq!(to_server.len(), 1);
    assert_eq!(to_server[0].dest, server_addr);
    drop(server_event_tx);

    // The server handles it and echoes one pong to the client's address.
    let server_trace =
        listen_loop(ConnectionInfo::Server { pong: true }, server_packet_tx, server_event_rx, 100);
    assert_eq!(server_trace.handled.len(), 1);
    assert_eq!(
        server_trace.handled[0],
        InboundEvent::MessageReceived {
            payload: b"Ping".to_vec(),
            source: String::from(client_addr),
        }
    );
    assert_eq!(server_trace.replied.len(), 1);
    assert_eq!(server_trace.replied[0].payload, b"pong".to_vec());
    assert_eq!(server_trace.replied[0].dest, client_addr);

    // The transport delivers the pong to the client.
    let to_client = deliver(&server_packet_rx, server_addr, &client_event_tx);
    assert_eq!(to_client.len(), 1);
    assert_eq!(to_client[0].dest, client_addr);
    drop(client_event_tx);

    // The client logs the pong and sends nothing further.
    let client_trace =
        listen_loop(ConnectionInfo::Client, client_packet_tx, client_event_rx, 100);
    assert_eq!(client_trace.handled.len(), 1);
    assert_eq!(
        client_trace.handled[0],
        InboundEvent::MessageReceived {
            payload: b"pong".to_vec(),
            source: String::from(server_addr),
        }
    );
    assert!(client_trace.replied.is_empty());

    // Absent further input, neither side has sent anything more.
    assert!(client_packet_rx.try_recv().is_err());
    assert!(server_packet_rx.try_recv().is_err());
}

#[test]
fn client_session_round_trip_through_run_endpoint() {
    let server_addr = "127.0.0.1:12350";

    let (client_event_tx, client_event_rx) = unbounded::<SocketEvent>();
    let (client_packet_tx, client_packet_rx) = unbounded::<Packet>();

    // The transport has already delivered the server's pong.
    client_event_tx.send(SocketEvent::Packet(Packet::reliable_unordered(
        server_addr.parse().unwrap(),
        b"pong".to_vec(),
    ))).unwrap();
    drop(client_event_tx);

    let trace = run_endpoint(
        ConnectionInfo::Client,
        String::from(server_addr),
        client_packet_tx,
        client_event_rx,
        100,
    );

    assert_eq!(trace.started.len(), 1);
    assert_eq!(trace.started[0].payload, b"Ping".to_vec());
    let first_out = client_packet_rx.try_recv().expect("the greeting is submitted first");
    assert_eq!(first_out.payload(), b"Ping");
    assert_eq!(format!("{}", first_out.addr()), server_addr);
    assert_eq!(trace.handled.len(), 1);
    assert!(trace.replied.is_empty());
    assert!(client_packet_rx.try_recv().is_err());
}
