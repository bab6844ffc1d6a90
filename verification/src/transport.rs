//! The trusted boundary to the transport collaborator: the laminar packet
//! and event types, the crossbeam channel pair the socket hands out, and
//! the console. Everything here either declares an outside type or wraps
//! one outside call; the event loop's logic is verified against these
//! contracts in `endpoint`.
use vstd::prelude::*;

use crossbeam_channel::Receiver;
use crossbeam_channel::Sender;
use laminar::Packet;
use laminar::SocketEvent;
use std::io::Write;

use crate::events::InboundEvent;
use crate::events::OutboundMessage;

verus! {

#[verifier::external_type_specification]
#[verifier::external_body]
pub struct ExPacket(Packet);

#[verifier::external_type_specification]
#[verifier::external_body]
pub struct ExSocketEvent(SocketEvent);

#[verifier::external_type_specification]
#[verifier::external_body]
#[verifier::reject_recursive_types(T)]
pub struct ExSender<T>(Sender<T>);

#[verifier::external_type_specification]
#[verifier::external_body]
#[verifier::reject_recursive_types(T)]
pub struct ExReceiver<T>(Receiver<T>);

/// Relies on `crossbeam_channel::Receiver::recv`: blocks until the
/// transport's background task delivers the next event, handing events
/// out in the order they were put into the channel; returns `None` once
/// the channel is empty and its sending side has been dropped.
#[verifier::external_body]
pub(crate) fn recv_event(r: &Receiver<SocketEvent>) -> (e: Option<SocketEvent>) {
    match r.recv() {
        Ok(ev) => Some(ev),
        Err(_) => None,
    }
}

/// Relies on `laminar::Packet::payload` and `laminar::Packet::addr` to
/// read a received packet's bytes and source address. Each transport
/// event becomes the inbound event of the matching shape; both of
/// laminar's timeout notifications (an idle peer and a lost established
/// connection) report a timed-out peer. Addresses are rendered in their
/// textual `ip:port` form.
#[verifier::external_body]
pub(crate) fn event_to_inbound(e: SocketEvent) -> (ev: InboundEvent) {
    match e {
        SocketEvent::Packet(p) => InboundEvent::MessageReceived {
            payload: p.payload().to_vec(),
            source: format!("{}", p.addr()),
        },
        SocketEvent::Connect(a) => InboundEvent::PeerConnected { address: format!("{}", a) },
        SocketEvent::Timeout(a) => InboundEvent::PeerTimedOut { address: format!("{}", a) },
        SocketEvent::Disconnect(a) => InboundEvent::PeerTimedOut { address: format!("{}", a) },
    }
}

/// Relies on `laminar::Packet::reliable_unordered`: builds a packet to the
/// given destination with the given payload under reliable, unordered
/// delivery — the one delivery mode an `OutboundMessage` can carry.
/// Returns `None` when the destination text does not parse as a socket
/// address.
#[verifier::external_body]
pub(crate) fn packet_for(m: &OutboundMessage) -> (r: Option<Packet>) {
    match m.dest.parse() {
        Ok(addr) => Some(Packet::reliable_unordered(addr, m.payload.clone())),
        Err(_) => None,
    }
}

/// Relies on `crossbeam_channel::Sender::send`: enqueues the packet for
/// the transport's background task; the channel refuses it only when the
/// receiving side has been dropped, and the result says whether it was
/// accepted.
#[verifier::external_body]
pub(crate) fn send_packet(s: &Sender<Packet>, p: Packet) -> (accepted: bool) {
    s.send(p).is_ok()
}

/// Relies on `writeln` to the standard output: prints the received text
/// and its source address.
#[verifier::external_body]
pub(crate) fn log_received(text: &str, source: &str) {
    let _ = writeln!(std::io::stdout(), "Received {:?} from {}", text, source);
}

/// Relies on `writeln` to the standard output: prints the text of a
/// message that was just sent.
#[verifier::external_body]
pub(crate) fn log_sent(text: &str) {
    let _ = writeln!(std::io::stdout(), "\tSent: {}", text);
}

/// Relies on `writeln` to the standard output: prints the address of a
/// peer that timed out.
#[verifier::external_body]
pub(crate) fn log_timeout(address: &str) {
    let _ = writeln!(std::io::stdout(), "\tTimeout from: {}", address);
}

/// Relies on `writeln` to the standard output: prints the address of a
/// peer that connected.
#[verifier::external_body]
pub(crate) fn log_connected(address: &str) {
    let _ = writeln!(std::io::stdout(), "\tConnection from: {}", address);
}

} // verus!
