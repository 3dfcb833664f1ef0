//! The bootstrap decision: host or joiner.
//!
//! Opening a room means binding the deterministic host key, with no
//! bootstrap peers and no timeout — the host never waits on itself. Joining
//! means generating a fresh random key, recomputing the host's public
//! identity from the shared derivation, and bootstrapping through it bounded
//! by the connection timeout. Every timeout at startup is fatal at the
//! process level; the surrounding program performs the waiting and aborts.

use vstd::prelude::*;
use crate::identity::{PeerId, room_topic, room_topic_spec, host_secret_seed, host_seed_spec,
    host_peer_id, public_key_of};

verus! {

/// Seconds to wait on transport connectivity and on the join handshake
/// before giving up for good.
pub const CONNECTION_TIMEOUT_SECS: u64 = 10;

/// The command the program was launched with.
#[derive(Clone, Copy, PartialEq, Eq, Structural, Debug)]
pub enum Role {
    /// Open a chat room as its host.
    Open,
    /// Join the room of a running host.
    Join,
}

/// Everything the transport needs to establish the room.
pub struct BootstrapPlan {
    /// Whether this node hosts the room.
    pub is_host: bool,
    /// The 32-byte room topic.
    pub topic: [u8; 32],
    /// The deterministic secret-key bytes to bind, or none to generate a
    /// fresh random key.
    pub host_secret: Option<[u8; 32]>,
    /// The single peer to bootstrap through, or none when hosting.
    pub bootstrap_peer: Option<PeerId>,
    /// The bound on the join handshake in seconds, or none when hosting:
    /// the host never waits on itself.
    pub join_timeout_secs: Option<u64>,
}

/// Decide how to establish the room for the given role.
pub fn plan_for(role: Role) -> (r: BootstrapPlan)
    ensures
        r.topic@ == room_topic_spec(),
        match role {
            Role::Open => {
                &&& r.is_host
                &&& r.host_secret matches Some(k) && k@ == host_seed_spec()
                &&& r.bootstrap_peer is None
                &&& r.join_timeout_secs is None
            },
            Role::Join => {
                &&& !r.is_host
                &&& r.host_secret is None
                &&& r.bootstrap_peer matches Some(p) && p@ == public_key_of(host_seed_spec())
                &&& r.join_timeout_secs == Some(CONNECTION_TIMEOUT_SECS)
            },
        },
{
    let topic = room_topic();
    match role {
        Role::Open => BootstrapPlan {
            is_host: true,
            topic,
            host_secret: Some(host_secret_seed()),
            bootstrap_peer: None,
            join_timeout_secs: None,
        },
        Role::Join => BootstrapPlan {
            is_host: false,
            topic,
            host_secret: None,
            bootstrap_peer: Some(host_peer_id()),
            join_timeout_secs: Some(CONNECTION_TIMEOUT_SECS),
        },
    }
}

} // verus!
