//! The endpoint's event loop: a blocking consumer of inbound transport
//! events that dispatches each one, in arrival order, to the role's
//! reaction, and submits whatever reply the role gives.
use vstd::prelude::*;

use crossbeam_channel::Receiver;
use crossbeam_channel::Sender;
use laminar::Packet;
use laminar::SocketEvent;

use crate::codec::decoded_text;
use crate::events::EvModel;
use crate::events::InboundEvent;
use crate::events::MsgModel;
use crate::events::OutboundMessage;
use crate::events::ev_models;
use crate::events::msg_models;
use crate::role::ConnectionInfo;
use crate::role::react;
use crate::role::reply_for;
use crate::role::start_messages;
use crate::role::start_spec;
use crate::transport::event_to_inbound;
use crate::transport::log_connected;
use crate::transport::log_received;
use crate::transport::log_sent;
use crate::transport::log_timeout;
use crate::transport::packet_for;
use crate::transport::recv_event;
use crate::transport::send_packet;

verus! {

/// The reply one event provokes, as a sequence: one message for an echoed
/// reception, none otherwise.
pub open spec fn reply_seq(ci: ConnectionInfo, ev: EvModel) -> Seq<MsgModel> {
    match reply_for(ci, ev) {
        Some(m) => seq![m],
        None => Seq::<MsgModel>::empty(),
    }
}

/// Every reply a role gives over a sequence of events handled first to
/// last, in that order.
pub open spec fn replies_for_all(ci: ConnectionInfo, evs: Seq<EvModel>) -> Seq<MsgModel>
    decreases evs.len(),
{
    if evs.len() == 0 {
        Seq::<MsgModel>::empty()
    } else {
        reply_seq(ci, evs[0]) + replies_for_all(ci, evs.drop_first())
    }
}

/// Event-loop non-reordering: handling a sequence of events part by part
/// neither reorders, skips nor duplicates a reaction — the replies to the
/// whole sequence are the replies to the first part followed by the
/// replies to the rest.
pub proof fn lemma_replies_concat(ci: ConnectionInfo, a: Seq<EvModel>, b: Seq<EvModel>)
    ensures
        replies_for_all(ci, a + b) == replies_for_all(ci, a) + replies_for_all(ci, b),
    decreases a.len(),
{
    if a.len() == 0 {
        assert(a + b =~= b);
        assert(replies_for_all(ci, a) + replies_for_all(ci, b) =~= replies_for_all(ci, b));
    } else {
        assert((a + b).drop_first() =~= a.drop_first() + b);
        assert((a + b)[0] == a[0]);
        lemma_replies_concat(ci, a.drop_first(), b);
        assert(reply_seq(ci, a[0]) + (replies_for_all(ci, a.drop_first()) + replies_for_all(
            ci,
            b,
        )) =~= (reply_seq(ci, a[0]) + replies_for_all(ci, a.drop_first())) + replies_for_all(
            ci,
            b,
        ));
    }
}

/// Handling one more event appends that event's reply, and nothing else.
pub proof fn lemma_replies_snoc(ci: ConnectionInfo, evs: Seq<EvModel>, e: EvModel)
    ensures
        replies_for_all(ci, evs.push(e)) == replies_for_all(ci, evs) + reply_seq(ci, e),
{
    reveal_with_fuel(replies_for_all, 2);
    assert(evs.push(e) =~= evs + seq![e]);
    lemma_replies_concat(ci, evs, seq![e]);
    assert(seq![e].drop_first() =~= Seq::<EvModel>::empty());
    assert(seq![e][0] == e);
    assert(reply_seq(ci, e) + Seq::<MsgModel>::empty() =~= reply_seq(ci, e));
    assert(replies_for_all(ci, seq![e]) =~= reply_seq(ci, e));
}

proof fn lemma_msg_models_push(msgs: Seq<OutboundMessage>, m: OutboundMessage)
    ensures
        msg_models(msgs.push(m)) == msg_models(msgs).push(m@),
{
    assert(msg_models(msgs.push(m)) =~= msg_models(msgs).push(m@));
}

proof fn lemma_ev_models_push(evs: Seq<InboundEvent>, e: InboundEvent)
    ensures
        ev_models(evs.push(e)) == ev_models(evs).push(e@),
{
    assert(ev_models(evs.push(e)) =~= ev_models(evs).push(e@));
}

/// Builds the packet for one outbound message and hands it to the
/// transport's channel. A destination that is not a socket address, or a
/// channel whose transport side is gone, loses the message: submission is
/// fire-and-forget.
fn dispatch(sender: &Sender<Packet>, m: &OutboundMessage) {
    match packet_for(m) {
        Some(p) => {
            let _accepted = send_packet(sender, p);
        },
        None => {},
    }
}

/// The role's reactions to a sequence of events delivered in a given
/// order: exactly the replies the event loop sends when it handles those
/// events first to last, none skipped, none duplicated, none reordered.
pub fn handle_events(ci: ConnectionInfo, events: &Vec<InboundEvent>) -> (out: Vec<OutboundMessage>)
    ensures
        msg_models(out@) == replies_for_all(ci, ev_models(events@)),
{
    let mut out: Vec<OutboundMessage> = Vec::new();
    let mut i: usize = 0;
    while i < events.len()
        invariant
            i <= events@.len(),
            msg_models(out@) == replies_for_all(ci, ev_models(events@.take(i as int))),
        decreases events@.len() - i,
    {
        let reply = react(&ci, &events[i]);
        proof {
            assert(events@.take(i + 1) =~= events@.take(i as int).push(events@[i as int]));
            lemma_ev_models_push(events@.take(i as int), events@[i as int]);
            lemma_replies_snoc(ci, ev_models(events@.take(i as int)), events@[i as int]@);
        }
        match reply {
            Some(m) => {
                proof {
                    lemma_msg_models_push(out@, m);
                    assert(msg_models(out@).push(m@) =~= msg_models(out@) + seq![m@]);
                }
                out.push(m);
            },
            None => {
                proof {
                    assert(msg_models(out@) + Seq::<MsgModel>::empty() =~= msg_models(out@));
                }
            },
        }
        i = i + 1;
    }
    proof {
        assert(events@.take(events@.len() as int) =~= events@);
    }
    out
}

/// What one run of the event loop did: the inbound events it handled, in
/// arrival order, and the replies it submitted, in submission order.
pub struct LoopTrace {
    pub handled: Vec<InboundEvent>,
    pub replied: Vec<OutboundMessage>,
}

/// The event loop: blocks on the inbound channel, logs every event, and
/// dispatches each one, in arrival order, to the role's reaction, sending
/// whatever reply it gives. It returns once the channel closes — the
/// transport side was dropped — or after `budget` events, whichever comes
/// first; a process that should listen indefinitely passes `usize::MAX`.
pub fn listen_loop(
    ci: ConnectionInfo,
    sender: Sender<Packet>,
    receiver: Receiver<SocketEvent>,
    budget: usize,
) -> (t: LoopTrace)
    ensures
        msg_models(t.replied@) == replies_for_all(ci, ev_models(t.handled@)),
        t.handled@.len() <= budget,
{
    let mut handled: Vec<InboundEvent> = Vec::new();
    let mut replied: Vec<OutboundMessage> = Vec::new();
    let mut remaining: usize = budget;
    loop
        invariant
            msg_models(replied@) == replies_for_all(ci, ev_models(handled@)),
            handled@.len() + remaining == budget,
        ensures
            msg_models(replied@) == replies_for_all(ci, ev_models(handled@)),
            handled@.len() <= budget,
        decreases remaining,
    {
        if remaining == 0 {
            break;
        }
        match recv_event(&receiver) {
            None => {
                break;
            },
            Some(ev) => {
                let ie = event_to_inbound(ev);
                match &ie {
                    InboundEvent::MessageReceived { payload, source } => {
                        let text = decoded_text(payload);
                        log_received(text.as_str(), source.as_str());
                    },
                    InboundEvent::PeerTimedOut { address } => {
                        log_timeout(address.as_str());
                    },
                    InboundEvent::PeerConnected { address } => {
                        log_connected(address.as_str());
                    },
                }
                let reply = react(&ci, &ie);
                proof {
                    lemma_replies_snoc(ci, ev_models(handled@), ie@);
                    lemma_ev_models_push(handled@, ie);
                }
                match reply {
                    Some(m) => {
                        dispatch(&sender, &m);
                        let text = decoded_text(&m.payload);
                        log_sent(text.as_str());
                        proof {
                            lemma_msg_models_push(replied@, m);
                            assert(msg_models(replied@).push(m@) =~= msg_models(replied@) + seq![
                                m@,
                            ]);
                        }
                        replied.push(m);
                    },
                    None => {
                        proof {
                            assert(msg_models(replied@) + Seq::<MsgModel>::empty() =~= msg_models(
                                replied@,
                            ));
                        }
                    },
                }
                handled.push(ie);
                remaining = remaining - 1;
            },
        }
    }
    LoopTrace { handled, replied }
}

/// What one whole session did: the startup messages the role sent before
/// any event was handled, then the loop's trace.
pub struct SessionTrace {
    pub started: Vec<OutboundMessage>,
    pub handled: Vec<InboundEvent>,
    pub replied: Vec<OutboundMessage>,
}

/// Runs one endpoint: performs the role's startup action — a client sends
/// its one `Ping` greeting to `peer` before any inbound event is handled,
/// a server sends nothing — then enters the event loop until the channel
/// closes or `budget` events were handled.
pub fn run_endpoint(
    ci: ConnectionInfo,
    peer: String,
    sender: Sender<Packet>,
    receiver: Receiver<SocketEvent>,
    budget: usize,
) -> (t: SessionTrace)
    ensures
        msg_models(t.started@) == start_spec(ci, peer@),
        msg_models(t.replied@) == replies_for_all(ci, ev_models(t.handled@)),
        t.handled@.len() <= budget,
{
    let started = start_messages(&ci, &peer);
    let mut i: usize = 0;
    while i < started.len()
        invariant
            i <= started@.len(),
        decreases started@.len() - i,
    {
        dispatch(&sender, &started[i]);
        let text = decoded_text(&started[i].payload);
        log_sent(text.as_str());
        i = i + 1;
    }
    let lt = listen_loop(ci, sender, receiver, budget);
    SessionTrace { started, handled: lt.handled, replied: lt.replied }
}

} // verus!
