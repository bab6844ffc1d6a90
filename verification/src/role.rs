//! The two behavioural roles of an endpoint: a client that initiates the
//! exchange and a server that answers, optionally echoing a reply.
use vstd::prelude::*;

use crate::events::DeliveryMode;
use crate::events::EvModel;
use crate::events::InboundEvent;
use crate::events::MsgModel;
use crate::events::OutboundMessage;
use crate::events::msg_models;
use crate::events::opt_model;
use crate::events::ping_bytes;
use crate::events::ping_payload;
use crate::events::pong_bytes;
use crate::events::pong_payload;

verus! {

/// Which role this process plays. Chosen once at startup and immutable for
/// the process lifetime: a `Server` listens (and echoes when `pong` is set),
/// a `Client` sends the greeting and then listens.
#[derive(Clone, Copy, Debug, PartialEq, Eq)]
pub enum ConnectionInfo {
    Server { pong: bool },
    Client,
}

impl ConnectionInfo {
    /// True exactly when this endpoint plays the server role.
    pub fn is_server(&self) -> (r: bool)
        ensures
            r == (self is Server),
    {
        match self {
            ConnectionInfo::Server { .. } => true,
            _ => false,
        }
    }
}

/// The messages a role sends on startup, before any inbound event is
/// handled: a client greets its peer with `Ping`, a server sends nothing.
pub open spec fn start_spec(ci: ConnectionInfo, peer: Seq<char>) -> Seq<MsgModel> {
    match ci {
        ConnectionInfo::Client => seq![
            MsgModel { dest: peer, payload: ping_payload(), mode: DeliveryMode::ReliableUnordered },
        ],
        ConnectionInfo::Server { .. } => Seq::<MsgModel>::empty(),
    }
}

/// The reply a role gives to one inbound event: an echoing server answers
/// a received message with `pong` to its source; every other combination
/// of role and event sends nothing.
pub open spec fn reply_for(ci: ConnectionInfo, ev: EvModel) -> Option<MsgModel> {
    match (ci, ev) {
        (
            ConnectionInfo::Server { pong: true },
            EvModel::MessageReceived { payload: _, source },
        ) => Some(
            MsgModel { dest: source, payload: pong_payload(), mode: DeliveryMode::ReliableUnordered },
        ),
        _ => None,
    }
}

/// The role's startup action: exactly one reliable, unordered `Ping` to the
/// configured peer for a client, nothing for a server.
pub fn start_messages(ci: &ConnectionInfo, peer: &String) -> (r: Vec<OutboundMessage>)
    ensures
        msg_models(r@) == start_spec(*ci, peer@),
{
    match ci {
        ConnectionInfo::Client => {
            let m = OutboundMessage {
                dest: peer.clone(),
                payload: ping_bytes(),
                mode: DeliveryMode::ReliableUnordered,
            };
            let mut r: Vec<OutboundMessage> = Vec::new();
            r.push(m);
            proof {
                assert(msg_models(r@) =~= start_spec(*ci, peer@));
            }
            r
        },
        ConnectionInfo::Server { .. } => {
            let r: Vec<OutboundMessage> = Vec::new();
            proof {
                assert(msg_models(r@) =~= start_spec(*ci, peer@));
            }
            r
        },
    }
}

/// The role's reaction to one inbound event, as `reply_for` describes it.
pub fn react(ci: &ConnectionInfo, ev: &InboundEvent) -> (r: Option<OutboundMessage>)
    ensures
        opt_model(r) == reply_for(*ci, ev@),
{
    match (ci, ev) {
        (
            ConnectionInfo::Server { pong: true },
            InboundEvent::MessageReceived { payload: _, source },
        ) => Some(
            OutboundMessage {
                dest: source.clone(),
                payload: pong_bytes(),
                mode: DeliveryMode::ReliableUnordered,
            },
        ),
        _ => None,
    }
}

/// Initiator startup: for every peer address, a client's startup sends
/// exactly one message, whose payload is `Ping`, whose destination is that
/// peer, and whose delivery mode is reliable unordered; a server's startup
/// sends none.
pub proof fn lemma_initiator_start(peer: Seq<char>, pong: bool)
    ensures
        start_spec(ConnectionInfo::Client, peer).len() == 1,
        start_spec(ConnectionInfo::Client, peer)[0].payload == ping_payload(),
        start_spec(ConnectionInfo::Client, peer)[0].dest == peer,
        start_spec(ConnectionInfo::Client, peer)[0].mode == DeliveryMode::ReliableUnordered,
        start_spec(ConnectionInfo::Server { pong }, peer).len() == 0,
{
}

/// Echo: for every payload and source address, a server with the echo flag
/// set answers a received message with exactly one `pong` to that source;
/// a server without the flag, and a client, answer nothing.
pub proof fn lemma_echo(payload: Seq<u8>, source: Seq<char>, pong: bool)
    ensures
        reply_for(
            ConnectionInfo::Server { pong: true },
            EvModel::MessageReceived { payload, source },
        ) == Some(
            MsgModel {
                dest: source,
                payload: pong_payload(),
                mode: DeliveryMode::ReliableUnordered,
            },
        ),
        reply_for(
            ConnectionInfo::Server { pong: false },
            EvModel::MessageReceived { payload, source },
        ) is None,
        reply_for(ConnectionInfo::Client, EvModel::MessageReceived { payload, source }) is None,
        reply_for(ConnectionInfo::Server { pong }, EvModel::PeerTimedOut { address: source })
            is None,
        reply_for(ConnectionInfo::Server { pong }, EvModel::PeerConnected { address: source })
            is None,
{
}

} // verus!
