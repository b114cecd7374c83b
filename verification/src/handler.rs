//! The vocabulary that the behaviour's actions and events are written in:
//! the handler traits, connection identifiers, address scores and dial options.

use libp2p_core::{Endpoint, Multiaddr};
use libp2p_identity::PeerId;
use vstd::prelude::*;

verus! {

/// A handler for the protocols of a single connection, seen through the events
/// it exchanges with its [`NetworkBehaviour`](crate::NetworkBehaviour).
pub trait ConnectionHandler {
    /// Event that the behaviour sends to the handler.
    type InEvent;
    /// Event that the handler reports to the behaviour.
    type OutEvent;
}

/// A value from which a [`ConnectionHandler`] for a connection is made.
pub trait IntoConnectionHandler {
    /// The handler that it turns into.
    type Handler: ConnectionHandler;
}

/// The identifier of a connection of the swarm.
#[derive(Debug, Copy, Clone, PartialEq, Eq, Structural, Hash, PartialOrd, Ord)]
pub struct ConnectionId(usize);

impl ConnectionId {
    /// The number that identifies the connection.
    pub closed spec fn id(self) -> usize {
        self.0
    }

    /// The connection identified by `id`.
    pub fn new(id: usize) -> (connection_id: Self)
        ensures
            connection_id.id() == id,
    {
        ConnectionId(id)
    }

    /// The number that identifies the connection.
    pub fn get(&self) -> (id: usize)
        ensures
            id == self.id(),
    {
        self.0
    }
}

/// How much an observed address of the local node is trusted.
#[derive(Debug, Copy, Clone, PartialEq, Eq, Structural, Hash, PartialOrd, Ord)]
pub enum AddressScore {
    /// Trusted as much as this number of observations.
    Finite(u32),
    /// Always trusted.
    Infinite,
}

/// An address of the local node together with its score.
#[derive(Debug)]
pub struct AddressRecord {
    /// The address.
    pub addr: Multiaddr,
    /// How much it is trusted.
    pub score: AddressScore,
}

/// When a dial to a known peer goes ahead.
#[derive(Debug, Copy, Clone, PartialEq, Eq, Structural, Hash)]
pub enum PeerCondition {
    /// Only when the peer is not connected.
    Disconnected,
    /// Only when no dial to the peer is under way.
    NotDialing,
    /// Whatever the state of the peer.
    Always,
}

/// What a dial is asked to do: whom to reach, under which condition, at which addresses.
#[derive(Debug)]
pub struct DialOpts {
    /// The peer to reach, when it is known.
    pub peer_id: Option<PeerId>,
    /// The condition under which the dial goes ahead.
    pub condition: PeerCondition,
    /// The addresses to try.
    pub addresses: Vec<Multiaddr>,
    /// Whether the behaviour may add addresses of its own to those to try.
    pub extend_addresses_through_behaviour: bool,
    /// The role that the local node takes on the new connection.
    pub role_override: Endpoint,
}

} // verus!
