//! The values that cross the endpoint's two channels: inbound transport
//! events and outbound messages, together with their mathematical models.
use vstd::prelude::*;

verus! {

/// How an outbound message is to be delivered. The endpoint only ever asks
/// for reliable, unordered delivery: every message eventually arrives, with
/// no ordering constraint between messages.
#[derive(Clone, Copy, Debug, PartialEq, Eq)]
pub enum DeliveryMode {
    ReliableUnordered,
}

/// A message handed to the transport: a destination address in textual
/// `ip:port` form, a byte payload, and the requested delivery mode.
#[derive(Debug, PartialEq, Eq)]
pub struct OutboundMessage {
    pub dest: String,
    pub payload: Vec<u8>,
    pub mode: DeliveryMode,
}

/// What an outbound message says, with strings and byte vectors abstracted
/// to sequences.
pub struct MsgModel {
    pub dest: Seq<char>,
    pub payload: Seq<u8>,
    pub mode: DeliveryMode,
}

impl View for OutboundMessage {
    type V = MsgModel;

    open spec fn view(&self) -> MsgModel {
        MsgModel { dest: self.dest@, payload: self.payload@, mode: self.mode }
    }
}

/// An event reported by the transport: a message arrived from a peer, a
/// peer fell silent past the idle timeout, or a new peer connection was
/// established. Addresses are in textual `ip:port` form.
#[derive(Debug, PartialEq, Eq)]
pub enum InboundEvent {
    MessageReceived { payload: Vec<u8>, source: String },
    PeerTimedOut { address: String },
    PeerConnected { address: String },
}

/// What an inbound event says, with strings and byte vectors abstracted
/// to sequences.
pub enum EvModel {
    MessageReceived { payload: Seq<u8>, source: Seq<char> },
    PeerTimedOut { address: Seq<char> },
    PeerConnected { address: Seq<char> },
}

impl View for InboundEvent {
    type V = EvModel;

    open spec fn view(&self) -> EvModel {
        match self {
            InboundEvent::MessageReceived { payload, source } => EvModel::MessageReceived {
                payload: payload@,
                source: source@,
            },
            InboundEvent::PeerTimedOut { address } => EvModel::PeerTimedOut { address: address@ },
            InboundEvent::PeerConnected { address } => EvModel::PeerConnected { address: address@ },
        }
    }
}

/// The greeting payload: the ASCII bytes of the text `Ping`.
pub open spec fn ping_payload() -> Seq<u8> {
    seq![80u8, 105u8, 110u8, 103u8]
}

/// The echo payload: the ASCII bytes of the text `pong`.
pub open spec fn pong_payload() -> Seq<u8> {
    seq![112u8, 111u8, 110u8, 103u8]
}

/// Builds the greeting payload.
pub fn ping_bytes() -> (r: Vec<u8>)
    ensures
        r@ == ping_payload(),
{
    let r: Vec<u8> = vec![80u8, 105u8, 110u8, 103u8];
    proof {
        assert(r@ =~= ping_payload());
    }
    r
}

/// Builds the echo payload.
pub fn pong_bytes() -> (r: Vec<u8>)
    ensures
        r@ == pong_payload(),
{
    let r: Vec<u8> = vec![112u8, 111u8, 110u8, 103u8];
    proof {
        assert(r@ =~= pong_payload());
    }
    r
}

/// The model of an optional outbound message.
pub open spec fn opt_model(r: Option<OutboundMessage>) -> Option<MsgModel> {
    match r {
        Some(m) => Some(m@),
        None => None,
    }
}

/// The models of a sequence of outbound messages, in order.
pub open spec fn msg_models(msgs: Seq<OutboundMessage>) -> Seq<MsgModel> {
    msgs.map_values(|m: OutboundMessage| m@)
}

/// The models of a sequence of inbound events, in order.
pub open spec fn ev_models(evs: Seq<InboundEvent>) -> Seq<EvModel> {
    evs.map_values(|e: InboundEvent| e@)
}

} // verus!
