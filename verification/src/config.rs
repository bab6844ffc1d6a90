//! The endpoint's fixed configuration: the two transport tunables that are
//! passed through to the transport collaborator, and the two hardcoded
//! local addresses of the demonstration.
use vstd::prelude::*;

use vstd::string::StringExecFns;

verus! {

/// The two transport tunables this endpoint passes through to its
/// transport collaborator, in milliseconds: how long a silent peer may
/// idle before it is reported timed out, and the period of keep-alive
/// probes (none when absent).
#[derive(Clone, Copy, Debug, PartialEq, Eq)]
pub struct TransportConfig {
    pub idle_connection_timeout_ms: u64,
    pub heartbeat_interval_ms: Option<u64>,
}

/// The configuration every endpoint of this demonstration runs with: a
/// five second idle timeout and a two second heartbeat.
pub fn transport_config() -> (c: TransportConfig)
    ensures
        c.idle_connection_timeout_ms == 5000,
        c.heartbeat_interval_ms == Some(2000u64),
{
    TransportConfig { idle_connection_timeout_ms: 5000, heartbeat_interval_ms: Some(2000) }
}

/// The hardcoded local address the server binds to, and the peer address
/// the client greets.
pub fn server_address() -> (r: String)
    ensures
        r@ == "127.0.0.1:12350"@,
{
    String::from_str("127.0.0.1:12350")
}

/// The hardcoded local address the client binds to.
pub fn client_address() -> (r: String)
    ensures
        r@ == "127.0.0.1:12355"@,
{
    String::from_str("127.0.0.1:12355")
}

} // verus!
