//! Swarm behaviour actions and events, and the pure part of setting up a WebRTC
//! connection (fingerprints, ICE credentials, session descriptions), with their
//! contracts proved by Verus.

pub mod behaviour;
pub mod external;
pub mod handler;
pub mod webrtc_connection;

pub use behaviour::{
    AddressChange, CloseConnection, ConnectionClosed, ConnectionEstablished, DialFailure,
    ExpiredExternalAddr, ExpiredListenAddr, FromSwarm, ListenFailure, ListenerClosed,
    ListenerError, NetworkBehaviour, NetworkBehaviourAction, NewExternalAddr, NewListenAddr,
    NewListener, NotifyHandler, PollParameters,
};
pub use handler::{
    AddressRecord, AddressScore, ConnectionHandler, ConnectionId, DialOpts,
    IntoConnectionHandler, PeerCondition,
};
pub use webrtc_connection::Fingerprint;
