//! A minimal two-role network endpoint: an initiator greets a fixed peer,
//! a responder listens and may echo a reply. Reliability and ordering of
//! the underlying transport are delegated to the laminar socket; this crate
//! owns the role behaviour and the event loop around its channel pair.
mod args;
mod codec;
mod config;
mod endpoint;
mod events;
mod role;
mod transport;

pub use args::ArgumentError;
pub use args::arg_views;
pub use args::parse_args;
pub use args::parsed_role;
pub use args::selects_client;
pub use args::selects_pong;
pub use args::selects_server;
pub use codec::decoded_text;
pub use codec::lemma_lossy_decode_deterministic;
pub use codec::lossy_text_of;
pub use config::TransportConfig;
pub use config::client_address;
pub use config::server_address;
pub use config::transport_config;
pub use endpoint::LoopTrace;
pub use endpoint::SessionTrace;
pub use endpoint::handle_events;
pub use endpoint::lemma_replies_concat;
pub use endpoint::lemma_replies_snoc;
pub use endpoint::listen_loop;
pub use endpoint::replies_for_all;
pub use endpoint::reply_seq;
pub use endpoint::run_endpoint;
pub use events::DeliveryMode;
pub use events::EvModel;
pub use events::InboundEvent;
pub use events::MsgModel;
pub use events::OutboundMessage;
pub use events::ev_models;
pub use events::msg_models;
pub use events::opt_model;
pub use events::ping_payload;
pub use events::pong_payload;
pub use role::ConnectionInfo;
pub use role::lemma_echo;
pub use role::lemma_initiator_start;
pub use role::react;
pub use role::reply_for;
pub use role::start_messages;
pub use role::start_spec;
