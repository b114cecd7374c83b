//! Types of other crates that the swarm's actions and events carry.
//! They are opaque here: the library moves them around and never looks inside.

use vstd::prelude::*;

verus! {

/// `libp2p_identity::PeerId`, the identity of a peer.
#[verifier::external_type_specification]
#[verifier::external_body]
pub struct ExPeerId(libp2p_identity::PeerId);

/// `libp2p_core::Multiaddr`, a network address.
#[verifier::external_type_specification]
#[verifier::external_body]
pub struct ExMultiaddr(libp2p_core::Multiaddr);

/// `libp2p_core::ConnectedPoint`, how a connection was established.
#[verifier::external_type_specification]
#[verifier::external_body]
pub struct ExConnectedPoint(libp2p_core::ConnectedPoint);

/// `libp2p_core::Endpoint`, the role of the local node on a connection.
#[verifier::external_type_specification]
#[verifier::external_body]
pub struct ExEndpoint(libp2p_core::Endpoint);

/// `libp2p_core::transport::ListenerId`, the identifier of a listener.
#[verifier::external_type_specification]
#[verifier::external_body]
pub struct ExListenerId(libp2p_core::transport::ListenerId);

/// `std::io::Error`, the reason a listener closed with an error.
#[verifier::external_type_specification]
#[verifier::external_body]
pub struct ExIoError(std::io::Error);

/// `std::task::Context`, the context of an asynchronous poll.
#[verifier::external_type_specification]
#[verifier::external_body]
pub struct ExContext<'a>(std::task::Context<'a>);

/// `std::task::Poll`, the outcome of an asynchronous poll.
#[verifier::external_type_specification]
#[verifier::external_body]
#[verifier::reject_recursive_types(T)]
pub struct ExPoll<T>(std::task::Poll<T>);

} // verus!
