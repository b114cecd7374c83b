//! The behaviour of the local node on the network: what it asks the swarm to do
//! ([`NetworkBehaviourAction`]) and what the swarm tells it ([`FromSwarm`]).

use crate::handler::{
    AddressRecord, AddressScore, ConnectionHandler, ConnectionId, DialOpts, IntoConnectionHandler,
};
use libp2p_core::transport::ListenerId;
use libp2p_core::{ConnectedPoint, Multiaddr};
use libp2p_identity::PeerId;
use std::task::{Context, Poll};
use vstd::prelude::*;

verus! {

/// Event that the behaviour sends to the handler made from `THandler`.
pub type THandlerInEvent<THandler> =
    <<THandler as IntoConnectionHandler>::Handler as ConnectionHandler>::InEvent;

/// Event that the handler made from `THandler` reports to the behaviour.
pub type THandlerOutEvent<THandler> =
    <<THandler as IntoConnectionHandler>::Handler as ConnectionHandler>::OutEvent;

// ----------------------------------------------------------------------------------------
// What the maps do, as relations between the old and the new contents
// ----------------------------------------------------------------------------------------

/// Equality, as a relation.
pub open spec fn same<A>() -> spec_fn(A, A) -> bool {
    |x: A, y: A| x == y
}

/// The pairs of an argument of `f` and a result that `f` may give for it.
pub open spec fn calls<A, B, F: FnOnce(A) -> B>(f: F) -> spec_fn(A, B) -> bool {
    |x: A, y: B| call_ensures(f, (x,), y)
}

/// `r`, with its results wrapped in `Some`.
pub open spec fn some_of<A, B>(r: spec_fn(A, B) -> bool) -> spec_fn(A, Option<B>) -> bool {
    |x: A, y: Option<B>| y matches Some(z) && r(x, z)
}

/// `r1` followed by `r2`.
pub open spec fn compose<A, B, C>(r1: spec_fn(A, B) -> bool, r2: spec_fn(B, C) -> bool) -> spec_fn(
    A,
    C,
) -> bool {
    |x: A, z: C| exists|y: B| #[trigger] r1(x, y) && r2(y, z)
}

/// `r1` followed by `r2` where `r1` gives a result, and `None` where it gives none.
pub open spec fn compose_option<A, B, C>(
    r1: spec_fn(A, Option<B>) -> bool,
    r2: spec_fn(B, Option<C>) -> bool,
) -> spec_fn(A, Option<C>) -> bool {
    |x: A, z: Option<C>|
        exists|y: Option<B>|
            #[trigger] r1(x, y) && match y {
                None => z is None,
                Some(b) => r2(b, z),
            }
}

/// Each argument is related to one result at most.
pub open spec fn functional<A, B>(r: spec_fn(A, B) -> bool) -> bool {
    forall|x: A, y1: B, y2: B| #[trigger] r(x, y1) && #[trigger] r(x, y2) ==> y1 == y2
}

/// Every pair of `r1` is a pair of `r2`.
pub open spec fn within<A, B>(r1: spec_fn(A, B) -> bool, r2: spec_fn(A, B) -> bool) -> bool {
    forall|x: A, y: B| #[trigger] r1(x, y) ==> r2(x, y)
}

/// `mapped` is `action` of the same kind with the same fields, except that the reported
/// event, the dial's handler and the handler's event are related to the old ones by
/// `on_out`, `on_handler` and `on_event`.
pub open spec fn action_mapped<O1, H1: IntoConnectionHandler, I1, O2, H2: IntoConnectionHandler, I2>(
    action: NetworkBehaviourAction<O1, H1, I1>,
    mapped: NetworkBehaviourAction<O2, H2, I2>,
    on_out: spec_fn(O1, O2) -> bool,
    on_handler: spec_fn(H1, H2) -> bool,
    on_event: spec_fn(I1, I2) -> bool,
) -> bool {
    match action {
        NetworkBehaviourAction::GenerateEvent(e) => {
            &&& mapped matches NetworkBehaviourAction::GenerateEvent(e2)
            &&& on_out(e, e2)
        },
        NetworkBehaviourAction::Dial { opts, handler } => {
            &&& mapped matches NetworkBehaviourAction::Dial { opts: o2, handler: h2 }
            &&& o2 == opts
            &&& on_handler(handler, h2)
        },
        NetworkBehaviourAction::NotifyHandler { peer_id, handler, event } => {
            &&& mapped matches NetworkBehaviourAction::NotifyHandler {
                peer_id: p2,
                handler: n2,
                event: e2,
            }
            &&& p2 == peer_id
            &&& n2 == handler
            &&& on_event(event, e2)
        },
        NetworkBehaviourAction::ReportObservedAddr { address, score } => {
            &&& mapped matches NetworkBehaviourAction::ReportObservedAddr {
                address: a2,
                score: s2,
            }
            &&& a2 == address
            &&& s2 == score
        },
        NetworkBehaviourAction::CloseConnection { peer_id, connection } => {
            &&& mapped matches NetworkBehaviourAction::CloseConnection {
                peer_id: p2,
                connection: c2,
            }
            &&& p2 == peer_id
            &&& c2 == connection
        },
    }
}

/// Law: mapping with relations that relate each value only to itself changes nothing
/// (mapping with the identity is the identity).
pub proof fn lemma_action_map_identity<O, H: IntoConnectionHandler, I>(
    action: NetworkBehaviourAction<O, H, I>,
    mapped: NetworkBehaviourAction<O, H, I>,
    on_out: spec_fn(O, O) -> bool,
    on_handler: spec_fn(H, H) -> bool,
    on_event: spec_fn(I, I) -> bool,
)
    requires
        action_mapped(action, mapped, on_out, on_handler, on_event),
        within(on_out, same()),
        within(on_handler, same()),
        within(on_event, same()),
    ensures
        mapped == action,
{
    match action {
        NetworkBehaviourAction::GenerateEvent(e) => {
            assert(mapped matches NetworkBehaviourAction::GenerateEvent(e2) && on_out(e, e2));
        },
        NetworkBehaviourAction::Dial { opts, handler } => {
            assert(mapped matches NetworkBehaviourAction::Dial { handler: h2, .. } && on_handler(
                handler,
                h2,
            ));
        },
        NetworkBehaviourAction::NotifyHandler { event, .. } => {
            assert(mapped matches NetworkBehaviourAction::NotifyHandler { event: e2, .. }
                && on_event(event, e2));
        },
        _ => {},
    }
}

/// Law: mapping twice is mapping once with the composed relations.
pub proof fn lemma_action_map_compose<
    O1,
    H1: IntoConnectionHandler,
    I1,
    O2,
    H2: IntoConnectionHandler,
    I2,
    O3,
    H3: IntoConnectionHandler,
    I3,
>(
    action: NetworkBehaviourAction<O1, H1, I1>,
    once: NetworkBehaviourAction<O2, H2, I2>,
    twice: NetworkBehaviourAction<O3, H3, I3>,
    out1: spec_fn(O1, O2) -> bool,
    handler1: spec_fn(H1, H2) -> bool,
    event1: spec_fn(I1, I2) -> bool,
    out2: spec_fn(O2, O3) -> bool,
    handler2: spec_fn(H2, H3) -> bool,
    event2: spec_fn(I2, I3) -> bool,
)
    requires
        action_mapped(action, once, out1, handler1, event1),
        action_mapped(once, twice, out2, handler2, event2),
    ensures
        action_mapped(
            action,
            twice,
            compose(out1, out2),
            compose(handler1, handler2),
            compose(event1, event2),
        ),
{
    match action {
        NetworkBehaviourAction::GenerateEvent(e) => {
            let e2 = once->GenerateEvent_0;
            let e3 = twice->GenerateEvent_0;
            assert(out1(e, e2) && out2(e2, e3));
        },
        NetworkBehaviourAction::Dial { handler, .. } => {
            let h2 = once->Dial_handler;
            let h3 = twice->Dial_handler;
            assert(handler1(handler, h2) && handler2(h2, h3));
        },
        NetworkBehaviourAction::NotifyHandler { event, .. } => {
            let e2 = once->NotifyHandler_event;
            let e3 = twice->NotifyHandler_event;
            assert(event1(event, e2) && event2(e2, e3));
        },
        _ => {},
    }
}

/// Law: two maps of the same action whose relations lie within common functional relations
/// give the same action. With [`lemma_action_map_compose`], mapping with `f` then `g` gives
/// what mapping with `g` after `f` gives, and maps of different parts commute, for closures that
/// determine their results.
pub proof fn lemma_action_map_agree<O1, H1: IntoConnectionHandler, I1, O2, H2: IntoConnectionHandler, I2>(
    action: NetworkBehaviourAction<O1, H1, I1>,
    mapped1: NetworkBehaviourAction<O2, H2, I2>,
    mapped2: NetworkBehaviourAction<O2, H2, I2>,
    out1: spec_fn(O1, O2) -> bool,
    handler1: spec_fn(H1, H2) -> bool,
    event1: spec_fn(I1, I2) -> bool,
    out2: spec_fn(O1, O2) -> bool,
    handler2: spec_fn(H1, H2) -> bool,
    event2: spec_fn(I1, I2) -> bool,
    out: spec_fn(O1, O2) -> bool,
    handler: spec_fn(H1, H2) -> bool,
    event: spec_fn(I1, I2) -> bool,
)
    requires
        action_mapped(action, mapped1, out1, handler1, event1),
        action_mapped(action, mapped2, out2, handler2, event2),
        within(out1, out),
        within(out2, out),
        within(handler1, handler),
        within(handler2, handler),
        within(event1, event),
        within(event2, event),
        functional(out),
        functional(handler),
        functional(event),
    ensures
        mapped1 == mapped2,
{
    match action {
        NetworkBehaviourAction::GenerateEvent(e) => {
            let a = mapped1->GenerateEvent_0;
            let b = mapped2->GenerateEvent_0;
            assert(out1(e, a) && out2(e, b));
            assert(out(e, a) && out(e, b));
        },
        NetworkBehaviourAction::Dial { handler: h, .. } => {
            let a = mapped1->Dial_handler;
            let b = mapped2->Dial_handler;
            assert(handler1(h, a) && handler2(h, b));
            assert(handler(h, a) && handler(h, b));
        },
        NetworkBehaviourAction::NotifyHandler { event: ev, .. } => {
            let a = mapped1->NotifyHandler_event;
            let b = mapped2->NotifyHandler_event;
            assert(event1(ev, a) && event2(ev, b));
            assert(event(ev, a) && event(ev, b));
        },
        _ => {},
    }
}

/// Defines what the local node sends on the network and to whom.
///
/// The swarm creates a handler per connection with [`NetworkBehaviour::new_handler`],
/// informs the behaviour of its events with [`NetworkBehaviour::on_swarm_event`] and of
/// the handlers' events with [`NetworkBehaviour::on_connection_handler_event`], and asks
/// it with [`NetworkBehaviour::poll`] for the next [`NetworkBehaviourAction`].
pub trait NetworkBehaviour: 'static + Sized {
    /// Handler for all the protocols the network behaviour supports.
    type ConnectionHandler: IntoConnectionHandler;

    /// Event generated by the behaviour and that the swarm reports back.
    type OutEvent: Send + 'static;

    /// Creates a new handler for a connection with a peer.
    fn new_handler(&mut self) -> Self::ConnectionHandler;

    /// Addresses that this behaviour knows for the peer, most likely reachable first.
    /// By default, none.
    fn addresses_of_peer(&mut self, _peer_id: &PeerId) -> (addresses: Vec<Multiaddr>)
        default_ensures
            addresses@ == Seq::<Multiaddr>::empty(),
            *final(self) == *old(self),
    {
        Vec::new()
    }

    /// Informs the behaviour about an event from the swarm.
    fn on_swarm_event(&mut self, event: FromSwarm<Self::ConnectionHandler>);

    /// Informs the behaviour about an event of the handler of a connection with `_peer_id`.
    /// By default, the event is ignored.
    fn on_connection_handler_event(
        &mut self,
        _peer_id: PeerId,
        _connection_id: ConnectionId,
        _event: THandlerOutEvent<Self::ConnectionHandler>,
    )
        default_ensures
            *final(self) == *old(self),
    {
    }

    /// Polls for things that the swarm should do.
    fn poll(
        &mut self,
        cx: &mut Context<'_>,
        params: &mut impl PollParameters,
    ) -> Poll<NetworkBehaviourAction<Self::OutEvent, Self::ConnectionHandler>>;
}

/// Parameters passed to [`NetworkBehaviour::poll`]. Each iterator is expected to report
/// its exact length through `Iterator::size_hint`.
pub trait PollParameters {
    /// Iterator returned by [`PollParameters::supported_protocols`].
    type SupportedProtocolsIter: Iterator<Item = Vec<u8>>;
    /// Iterator returned by [`PollParameters::listened_addresses`].
    type ListenedAddressesIter: Iterator<Item = Multiaddr>;
    /// Iterator returned by [`PollParameters::external_addresses`].
    type ExternalAddressesIter: Iterator<Item = AddressRecord>;

    /// The ASCII names of the protocols the behaviour supports on inbound substreams,
    /// computed once at initialisation.
    fn supported_protocols(&self) -> Self::SupportedProtocolsIter;

    /// The addresses the node listens on (superseded by the swarm's listen-address events).
    fn listened_addresses(&self) -> Self::ListenedAddressesIter;

    /// The addresses at which other nodes can reach this one (superseded by the swarm's
    /// external-address events).
    fn external_addresses(&self) -> Self::ExternalAddressesIter;

    /// The peer id of the local node (better passed to the behaviour directly).
    fn local_peer_id(&self) -> &PeerId;
}

/// An action that a [`NetworkBehaviour`] asks the swarm to perform.
#[allow(inconsistent_fields)]
#[derive(Debug)]
pub enum NetworkBehaviourAction<
    TOutEvent,
    THandler: IntoConnectionHandler,
    TInEvent = THandlerInEvent<THandler>,
> {
    /// Report an event to the user of the swarm.
    GenerateEvent(TOutEvent),
    /// Start a dial. The handler comes back to the behaviour when the connection fails or closes.
    Dial { opts: DialOpts, handler: THandler },
    /// Send an event to the handler of a connection with a peer; dropped when that
    /// connection no longer exists.
    NotifyHandler {
        /// The peer whose handler is notified.
        peer_id: PeerId,
        /// Which of its handlers.
        handler: NotifyHandler,
        /// The event to send.
        event: TInEvent,
    },
    /// Report an address of the local node observed by a remote.
    ReportObservedAddr {
        /// The observed address.
        address: Multiaddr,
        /// How much it is trusted.
        score: AddressScore,
    },
    /// Close one or all connections with a peer, without telling their handlers.
    CloseConnection {
        /// The peer to disconnect.
        peer_id: PeerId,
        /// Which connections to close.
        connection: CloseConnection,
    },
}

impl<TOutEvent, THandler: IntoConnectionHandler, TInEventOld>
    NetworkBehaviourAction<TOutEvent, THandler, TInEventOld> {
    /// Maps the event sent to a handler; every other action is kept as it is.
    pub fn map_in<TInEventNew>(
        self,
        f: impl FnOnce(TInEventOld) -> TInEventNew,
    ) -> (mapped: NetworkBehaviourAction<TOutEvent, THandler, TInEventNew>)
        requires
            self matches NetworkBehaviourAction::NotifyHandler { event, .. } ==> call_requires(
                f,
                (event,),
            ),
        ensures
            action_mapped(self, mapped, same(), same(), calls(f)),
    {
        match self {
            NetworkBehaviourAction::GenerateEvent(e) => NetworkBehaviourAction::GenerateEvent(e),
            NetworkBehaviourAction::Dial { opts, handler } => {
                NetworkBehaviourAction::Dial { opts, handler }
            },
            NetworkBehaviourAction::NotifyHandler { peer_id, handler, event } => {
                NetworkBehaviourAction::NotifyHandler { peer_id, handler, event: f(event) }
            },
            NetworkBehaviourAction::ReportObservedAddr { address, score } => {
                NetworkBehaviourAction::ReportObservedAddr { address, score }
            },
            NetworkBehaviourAction::CloseConnection { peer_id, connection } => {
                NetworkBehaviourAction::CloseConnection { peer_id, connection }
            },
        }
    }
}

impl<TOutEvent, THandler: IntoConnectionHandler> NetworkBehaviourAction<TOutEvent, THandler> {
    /// Maps the event reported to the user; every other action is kept as it is.
    pub fn map_out<E>(self, f: impl FnOnce(TOutEvent) -> E) -> (mapped: NetworkBehaviourAction<
        E,
        THandler,
    >)
        requires
            self matches NetworkBehaviourAction::GenerateEvent(e) ==> call_requires(f, (e,)),
        ensures
            action_mapped(self, mapped, calls(f), same(), same()),
    {
        match self {
            NetworkBehaviourAction::GenerateEvent(e) => NetworkBehaviourAction::GenerateEvent(f(e)),
            NetworkBehaviourAction::Dial { opts, handler } => {
                NetworkBehaviourAction::Dial { opts, handler }
            },
            NetworkBehaviourAction::NotifyHandler { peer_id, handler, event } => {
                NetworkBehaviourAction::NotifyHandler { peer_id, handler, event }
            },
            NetworkBehaviourAction::ReportObservedAddr { address, score } => {
                NetworkBehaviourAction::ReportObservedAddr { address, score }
            },
            NetworkBehaviourAction::CloseConnection { peer_id, connection } => {
                NetworkBehaviourAction::CloseConnection { peer_id, connection }
            },
        }
    }
}

impl<TInEvent, TOutEvent, THandlerOld> NetworkBehaviourAction<TOutEvent, THandlerOld> where
    THandlerOld: IntoConnectionHandler,
    <THandlerOld as IntoConnectionHandler>::Handler: ConnectionHandler<InEvent = TInEvent>,
 {
    /// Maps the handler of a dial; every other action is kept as it is.
    pub fn map_handler<THandlerNew>(self, f: impl FnOnce(THandlerOld) -> THandlerNew) -> (mapped:
        NetworkBehaviourAction<TOutEvent, THandlerNew>) where
        THandlerNew: IntoConnectionHandler,
        <THandlerNew as IntoConnectionHandler>::Handler: ConnectionHandler<InEvent = TInEvent>,

        requires
            self matches NetworkBehaviourAction::Dial { handler, .. } ==> call_requires(
                f,
                (handler,),
            ),
        ensures
            action_mapped(self, mapped, same(), calls(f), same()),
    {
        match self {
            NetworkBehaviourAction::GenerateEvent(e) => NetworkBehaviourAction::GenerateEvent(e),
            NetworkBehaviourAction::Dial { opts, handler } => {
                NetworkBehaviourAction::Dial { opts, handler: f(handler) }
            },
            NetworkBehaviourAction::NotifyHandler { peer_id, handler, event } => {
                NetworkBehaviourAction::NotifyHandler { peer_id, handler, event }
            },
            NetworkBehaviourAction::ReportObservedAddr { address, score } => {
                NetworkBehaviourAction::ReportObservedAddr { address, score }
            },
            NetworkBehaviourAction::CloseConnection { peer_id, connection } => {
                NetworkBehaviourAction::CloseConnection { peer_id, connection }
            },
        }
    }
}

impl<TInEventOld, TOutEvent, THandlerOld> NetworkBehaviourAction<TOutEvent, THandlerOld> where
    THandlerOld: IntoConnectionHandler,
    <THandlerOld as IntoConnectionHandler>::Handler: ConnectionHandler<InEvent = TInEventOld>,
 {
    /// Maps the handler of a dial and the event sent to a handler; every other action is
    /// kept as it is.
    pub fn map_handler_and_in<THandlerNew, TInEventNew>(
        self,
        f_handler: impl FnOnce(THandlerOld) -> THandlerNew,
        f_in_event: impl FnOnce(TInEventOld) -> TInEventNew,
    ) -> (mapped: NetworkBehaviourAction<TOutEvent, THandlerNew>) where
        THandlerNew: IntoConnectionHandler,
        <THandlerNew as IntoConnectionHandler>::Handler: ConnectionHandler<InEvent = TInEventNew>,

        requires
            self matches NetworkBehaviourAction::Dial { handler, .. } ==> call_requires(
                f_handler,
                (handler,),
            ),
            self matches NetworkBehaviourAction::NotifyHandler { event, .. } ==> call_requires(
                f_in_event,
                (event,),
            ),
        ensures
            action_mapped(self, mapped, same(), calls(f_handler), calls(f_in_event)),
    {
        match self {
            NetworkBehaviourAction::GenerateEvent(e) => NetworkBehaviourAction::GenerateEvent(e),
            NetworkBehaviourAction::Dial { opts, handler } => {
                NetworkBehaviourAction::Dial { opts, handler: f_handler(handler) }
            },
            NetworkBehaviourAction::NotifyHandler { peer_id, handler, event } => {
                NetworkBehaviourAction::NotifyHandler {
                    peer_id,
                    handler,
                    event: f_in_event(event),
                }
            },
            NetworkBehaviourAction::ReportObservedAddr { address, score } => {
                NetworkBehaviourAction::ReportObservedAddr { address, score }
            },
            NetworkBehaviourAction::CloseConnection { peer_id, connection } => {
                NetworkBehaviourAction::CloseConnection { peer_id, connection }
            },
        }
    }
}

/// Which handler of a peer an event goes to.
#[derive(Debug, Clone, PartialEq, Eq, Structural)]
pub enum NotifyHandler {
    /// The handler of this connection.
    One(ConnectionId),
    /// Any handler of the peer.
    Any,
}

/// Which connections with a peer to close.
#[derive(Debug, Clone, PartialEq, Eq, Structural)]
pub enum CloseConnection {
    /// This connection.
    One(ConnectionId),
    /// All of them.
    All,
}

impl Default for CloseConnection {
    /// All connections.
    fn default() -> (close: Self)
        ensures
            close == CloseConnection::All,
    {
        CloseConnection::All
    }
}


/// An event that the swarm reports to [`NetworkBehaviour::on_swarm_event`].
pub enum FromSwarm<'a, Handler: IntoConnectionHandler> {
    /// A connection to a peer was established.
    ConnectionEstablished(ConnectionEstablished<'a>),
    /// A connection to a peer closed; always after a [`FromSwarm::ConnectionEstablished`]
    /// with the same peer, connection and endpoint.
    ConnectionClosed(ConnectionClosed<'a, Handler>),
    /// The endpoint of an existing connection changed.
    AddressChange(AddressChange<'a>),
    /// A dial to a known or unknown peer failed.
    DialFailure(DialFailure<'a, Handler>),
    /// An incoming connection failed during its handshake.
    ListenFailure(ListenFailure<'a, Handler>),
    /// A new listener was created.
    NewListener(NewListener),
    /// The node started to listen on an address.
    NewListenAddr(NewListenAddr<'a>),
    /// The node no longer listens on an address.
    ExpiredListenAddr(ExpiredListenAddr<'a>),
    /// A listener failed.
    ListenerError(ListenerError<'a>),
    /// A listener closed.
    ListenerClosed(ListenerClosed<'a>),
    /// A new external address of the node was found.
    NewExternalAddr(NewExternalAddr<'a>),
    /// An external address of the node was removed.
    ExpiredExternalAddr(ExpiredExternalAddr<'a>),
}

/// A connection to a peer was established.
#[derive(Clone, Copy)]
pub struct ConnectionEstablished<'a> {
    pub peer_id: PeerId,
    pub connection_id: ConnectionId,
    pub endpoint: &'a ConnectedPoint,
    pub failed_addresses: &'a [Multiaddr],
    pub other_established: usize,
}

/// A connection to a peer closed; always after a [`ConnectionEstablished`] with the same
/// peer, connection and endpoint.
pub struct ConnectionClosed<'a, Handler: IntoConnectionHandler> {
    pub peer_id: PeerId,
    pub connection_id: ConnectionId,
    pub endpoint: &'a ConnectedPoint,
    pub handler: <Handler as IntoConnectionHandler>::Handler,
    pub remaining_established: usize,
}

/// The endpoint of an existing connection changed.
#[derive(Clone, Copy)]
pub struct AddressChange<'a> {
    pub peer_id: PeerId,
    pub connection_id: ConnectionId,
    pub old: &'a ConnectedPoint,
    pub new: &'a ConnectedPoint,
}

/// A dial to a known or unknown peer failed; `error` is the text of the dial error.
#[derive(Clone, Copy)]
pub struct DialFailure<'a, Handler> {
    pub peer_id: Option<PeerId>,
    pub handler: Handler,
    pub error: &'a str,
}

/// An incoming connection failed during its handshake.
#[derive(Clone, Copy)]
pub struct ListenFailure<'a, Handler> {
    pub local_addr: &'a Multiaddr,
    pub send_back_addr: &'a Multiaddr,
    pub handler: Handler,
}

/// A new listener was created.
#[derive(Clone, Copy)]
pub struct NewListener {
    pub listener_id: ListenerId,
}

/// The node started to listen on an address.
#[derive(Clone, Copy)]
pub struct NewListenAddr<'a> {
    pub listener_id: ListenerId,
    pub addr: &'a Multiaddr,
}

/// The node no longer listens on an address.
#[derive(Clone, Copy)]
pub struct ExpiredListenAddr<'a> {
    pub listener_id: ListenerId,
    pub addr: &'a Multiaddr,
}

/// A listener failed; `err` is the text of its error.
#[derive(Clone, Copy)]
pub struct ListenerError<'a> {
    pub listener_id: ListenerId,
    pub err: &'a str,
}

/// A listener closed, normally or with an error.
#[derive(Clone, Copy)]
pub struct ListenerClosed<'a> {
    pub listener_id: ListenerId,
    pub reason: Result<(), &'a std::io::Error>,
}

/// A new external address of the node was found.
#[derive(Clone, Copy)]
pub struct NewExternalAddr<'a> {
    pub addr: &'a Multiaddr,
}

/// An external address of the node was removed.
#[derive(Clone, Copy)]
pub struct ExpiredExternalAddr<'a> {
    pub addr: &'a Multiaddr,
}

impl<'a, Handler: IntoConnectionHandler> ConnectionClosed<'a, Handler> {
    /// The same closed connection, with `handler` as its handler.
    pub open spec fn with_handler<NewHandler: IntoConnectionHandler>(
        self,
        handler: <NewHandler as IntoConnectionHandler>::Handler,
    ) -> ConnectionClosed<'a, NewHandler> {
        ConnectionClosed {
            peer_id: self.peer_id,
            connection_id: self.connection_id,
            endpoint: self.endpoint,
            handler,
            remaining_established: self.remaining_established,
        }
    }
}

impl<'a, Handler> DialFailure<'a, Handler> {
    /// The same failed dial, with `handler` as its handler.
    pub open spec fn with_handler<NewHandler>(self, handler: NewHandler) -> DialFailure<
        'a,
        NewHandler,
    > {
        DialFailure { peer_id: self.peer_id, handler, error: self.error }
    }
}

impl<'a, Handler> ListenFailure<'a, Handler> {
    /// The same failed incoming connection, with `handler` as its handler.
    pub open spec fn with_handler<NewHandler>(self, handler: NewHandler) -> ListenFailure<
        'a,
        NewHandler,
    > {
        ListenFailure {
            local_addr: self.local_addr,
            send_back_addr: self.send_back_addr,
            handler,
        }
    }
}

impl<'a, Handler: IntoConnectionHandler> FromSwarm<'a, Handler> {
    /// The event, read as an event for handlers of type `NewHandler`, when it carries no
    /// handler; `None` for the three kinds that carry one.
    pub open spec fn without_handler<NewHandler: IntoConnectionHandler>(self) -> Option<
        FromSwarm<'a, NewHandler>,
    > {
        match self {
            FromSwarm::ConnectionEstablished(e) => Some(FromSwarm::ConnectionEstablished(e)),
            FromSwarm::ConnectionClosed(_) => None,
            FromSwarm::AddressChange(e) => Some(FromSwarm::AddressChange(e)),
            FromSwarm::DialFailure(_) => None,
            FromSwarm::ListenFailure(_) => None,
            FromSwarm::NewListener(e) => Some(FromSwarm::NewListener(e)),
            FromSwarm::NewListenAddr(e) => Some(FromSwarm::NewListenAddr(e)),
            FromSwarm::ExpiredListenAddr(e) => Some(FromSwarm::ExpiredListenAddr(e)),
            FromSwarm::ListenerError(e) => Some(FromSwarm::ListenerError(e)),
            FromSwarm::ListenerClosed(e) => Some(FromSwarm::ListenerClosed(e)),
            FromSwarm::NewExternalAddr(e) => Some(FromSwarm::NewExternalAddr(e)),
            FromSwarm::ExpiredExternalAddr(e) => Some(FromSwarm::ExpiredExternalAddr(e)),
        }
    }

    /// Converts the handlers that the event carries: `map_into_handler` for the handler of
    /// a failed dial or a failed incoming connection, `map_handler` for the handler of a
    /// closed connection. Events that carry no handler come through unchanged.
    pub fn map_handler<NewHandler>(
        self,
        map_into_handler: impl FnOnce(Handler) -> NewHandler,
        map_handler: impl FnOnce(<Handler as IntoConnectionHandler>::Handler) -> <NewHandler as IntoConnectionHandler>::Handler,
    ) -> (mapped: FromSwarm<'a, NewHandler>) where NewHandler: IntoConnectionHandler
        requires
            self matches FromSwarm::ConnectionClosed(c) ==> call_requires(
                map_handler,
                (c.handler,),
            ),
            self matches FromSwarm::DialFailure(d) ==> call_requires(
                map_into_handler,
                (d.handler,),
            ),
            self matches FromSwarm::ListenFailure(l) ==> call_requires(
                map_into_handler,
                (l.handler,),
            ),
        ensures
            event_mapped(
                self,
                Some(mapped),
                some_of(calls(map_into_handler)),
                some_of(calls(map_handler)),
            ),
    {
        let into = |h: Handler| -> (r: Option<NewHandler>)
            requires
                call_requires(map_into_handler, (h,)),
            ensures
                r matches Some(n) && call_ensures(map_into_handler, (h,), n),
            { Some(map_into_handler(h)) };
        let conn = |h: <Handler as IntoConnectionHandler>::Handler| -> (r: Option<
            <NewHandler as IntoConnectionHandler>::Handler,
        >)
            requires
                call_requires(map_handler, (h,)),
            ensures
                r matches Some(n) && call_ensures(map_handler, (h,), n),
            { Some(map_handler(h)) };
        match self.maybe_map_handler(into, conn) {
            Some(mapped) => mapped,
            None => {
                proof {
                    assert(false);
                }
                unreached()
            },
        }
    }

    /// Converts the handlers that the event carries: `map_into_handler` for the handler of
    /// a failed dial or a failed incoming connection, `map_handler` for the handler of a
    /// closed connection. The event is `None` when the conversion gives `None`; events that
    /// carry no handler come through unchanged.
    pub fn maybe_map_handler<NewHandler>(
        self,
        map_into_handler: impl FnOnce(Handler) -> Option<NewHandler>,
        map_handler: impl FnOnce(<Handler as IntoConnectionHandler>::Handler) -> Option<
            <NewHandler as IntoConnectionHandler>::Handler,
        >,
    ) -> (mapped: Option<FromSwarm<'a, NewHandler>>) where NewHandler: IntoConnectionHandler
        requires
            self matches FromSwarm::ConnectionClosed(c) ==> call_requires(
                map_handler,
                (c.handler,),
            ),
            self matches FromSwarm::DialFailure(d) ==> call_requires(
                map_into_handler,
                (d.handler,),
            ),
            self matches FromSwarm::ListenFailure(l) ==> call_requires(
                map_into_handler,
                (l.handler,),
            ),
        ensures
            event_mapped(self, mapped, calls(map_into_handler), calls(map_handler)),
    {
        match self {
            FromSwarm::ConnectionClosed(
                ConnectionClosed {
                    peer_id,
                    connection_id,
                    endpoint,
                    handler,
                    remaining_established,
                },
            ) => Some(
                FromSwarm::ConnectionClosed(
                    ConnectionClosed {
                        peer_id,
                        connection_id,
                        endpoint,
                        handler: map_handler(handler)?,
                        remaining_established,
                    },
                ),
            ),
            FromSwarm::ConnectionEstablished(
                ConnectionEstablished {
                    peer_id,
                    connection_id,
                    endpoint,
                    failed_addresses,
                    other_established,
                },
            ) => Some(
                FromSwarm::ConnectionEstablished(
                    ConnectionEstablished {
                        peer_id,
                        connection_id,
                        endpoint,
                        failed_addresses,
                        other_established,
                    },
                ),
            ),
            FromSwarm::AddressChange(AddressChange { peer_id, connection_id, old, new }) => Some(
                FromSwarm::AddressChange(AddressChange { peer_id, connection_id, old, new }),
            ),
            FromSwarm::DialFailure(DialFailure { peer_id, handler, error }) => Some(
                FromSwarm::DialFailure(
                    DialFailure { peer_id, handler: map_into_handler(handler)?, error },
                ),
            ),
            FromSwarm::ListenFailure(ListenFailure { local_addr, send_back_addr, handler }) => Some(
                FromSwarm::ListenFailure(
                    ListenFailure {
                        local_addr,
                        send_back_addr,
                        handler: map_into_handler(handler)?,
                    },
                ),
            ),
            FromSwarm::NewListener(NewListener { listener_id }) => {
                Some(FromSwarm::NewListener(NewListener { listener_id }))
            },
            FromSwarm::NewListenAddr(NewListenAddr { listener_id, addr }) => {
                Some(FromSwarm::NewListenAddr(NewListenAddr { listener_id, addr }))
            },
            FromSwarm::ExpiredListenAddr(ExpiredListenAddr { listener_id, addr }) => {
                Some(FromSwarm::ExpiredListenAddr(ExpiredListenAddr { listener_id, addr }))
            },
            FromSwarm::ListenerError(ListenerError { listener_id, err }) => {
                Some(FromSwarm::ListenerError(ListenerError { listener_id, err }))
            },
            FromSwarm::ListenerClosed(ListenerClosed { listener_id, reason }) => {
                Some(FromSwarm::ListenerClosed(ListenerClosed { listener_id, reason }))
            },
            FromSwarm::NewExternalAddr(NewExternalAddr { addr }) => {
                Some(FromSwarm::NewExternalAddr(NewExternalAddr { addr }))
            },
            FromSwarm::ExpiredExternalAddr(ExpiredExternalAddr { addr }) => {
                Some(FromSwarm::ExpiredExternalAddr(ExpiredExternalAddr { addr }))
            },
        }
    }
}

/// The kind of an event, numbered in the order of the variants of [`FromSwarm`].
pub open spec fn event_kind<'a, H: IntoConnectionHandler>(event: FromSwarm<'a, H>) -> int {
    match event {
        FromSwarm::ConnectionEstablished(_) => 0,
        FromSwarm::ConnectionClosed(_) => 1,
        FromSwarm::AddressChange(_) => 2,
        FromSwarm::DialFailure(_) => 3,
        FromSwarm::ListenFailure(_) => 4,
        FromSwarm::NewListener(_) => 5,
        FromSwarm::NewListenAddr(_) => 6,
        FromSwarm::ExpiredListenAddr(_) => 7,
        FromSwarm::ListenerError(_) => 8,
        FromSwarm::ListenerClosed(_) => 9,
        FromSwarm::NewExternalAddr(_) => 10,
        FromSwarm::ExpiredExternalAddr(_) => 11,
    }
}

/// `mapped` is `event` with the handlers it carries related to the old ones by `on_into`
/// (the handler of a failed dial or incoming connection) and `on_conn` (the handler of a
/// closed connection); `None` when the related handler is `None`.
pub open spec fn event_mapped<'a, H1: IntoConnectionHandler, H2: IntoConnectionHandler>(
    event: FromSwarm<'a, H1>,
    mapped: Option<FromSwarm<'a, H2>>,
    on_into: spec_fn(H1, Option<H2>) -> bool,
    on_conn: spec_fn(
        <H1 as IntoConnectionHandler>::Handler,
        Option<<H2 as IntoConnectionHandler>::Handler>,
    ) -> bool,
) -> bool {
    match event {
        FromSwarm::ConnectionClosed(c) => match mapped {
            None => on_conn(c.handler, None),
            Some(e2) => {
                &&& e2 matches FromSwarm::ConnectionClosed(c2)
                &&& on_conn(c.handler, Some(c2.handler))
                &&& c2 == c.with_handler::<H2>(c2.handler)
            },
        },
        FromSwarm::DialFailure(d) => match mapped {
            None => on_into(d.handler, None),
            Some(e2) => {
                &&& e2 matches FromSwarm::DialFailure(d2)
                &&& on_into(d.handler, Some(d2.handler))
                &&& d2 == d.with_handler(d2.handler)
            },
        },
        FromSwarm::ListenFailure(l) => match mapped {
            None => on_into(l.handler, None),
            Some(e2) => {
                &&& e2 matches FromSwarm::ListenFailure(l2)
                &&& on_into(l.handler, Some(l2.handler))
                &&& l2 == l.with_handler(l2.handler)
            },
        },
        _ => mapped == event.without_handler::<H2>(),
    }
}

/// Whether the handler that `event` carries is related to `None`.
pub open spec fn handler_dropped<'a, H1: IntoConnectionHandler, H2: IntoConnectionHandler>(
    event: FromSwarm<'a, H1>,
    on_into: spec_fn(H1, Option<H2>) -> bool,
    on_conn: spec_fn(
        <H1 as IntoConnectionHandler>::Handler,
        Option<<H2 as IntoConnectionHandler>::Handler>,
    ) -> bool,
) -> bool {
    match event {
        FromSwarm::ConnectionClosed(c) => on_conn(c.handler, None),
        FromSwarm::DialFailure(d) => on_into(d.handler, None),
        FromSwarm::ListenFailure(l) => on_into(l.handler, None),
        _ => false,
    }
}

/// Law: for conversions that determine their results, an event is dropped exactly when the
/// handler it carries converts to `None`; otherwise it keeps its kind.
pub proof fn lemma_event_map_none_exactly<'a, H1: IntoConnectionHandler, H2: IntoConnectionHandler>(
    event: FromSwarm<'a, H1>,
    mapped: Option<FromSwarm<'a, H2>>,
    on_into: spec_fn(H1, Option<H2>) -> bool,
    on_conn: spec_fn(
        <H1 as IntoConnectionHandler>::Handler,
        Option<<H2 as IntoConnectionHandler>::Handler>,
    ) -> bool,
)
    requires
        event_mapped(event, mapped, on_into, on_conn),
        functional(on_into),
        functional(on_conn),
    ensures
        mapped is None <==> handler_dropped(event, on_into, on_conn),
        mapped matches Some(e2) ==> event_kind(e2) == event_kind(event),
{
    match event {
        FromSwarm::ConnectionClosed(c) => {
            if let Some(e2) = mapped {
                let h2 = e2->ConnectionClosed_0.handler;
                if on_conn(c.handler, None) {
                    assert(on_conn(c.handler, Some(h2)));
                }
            }
        },
        FromSwarm::DialFailure(d) => {
            if let Some(e2) = mapped {
                let h2 = e2->DialFailure_0.handler;
                if on_into(d.handler, None) {
                    assert(on_into(d.handler, Some(h2)));
                }
            }
        },
        FromSwarm::ListenFailure(l) => {
            if let Some(e2) = mapped {
                let h2 = e2->ListenFailure_0.handler;
                if on_into(l.handler, None) {
                    assert(on_into(l.handler, Some(h2)));
                }
            }
        },
        _ => {},
    }
}

/// Law: converting the handlers with relations that relate each handler only to itself
/// gives the event back.
pub proof fn lemma_event_map_identity<'a, H: IntoConnectionHandler>(
    event: FromSwarm<'a, H>,
    mapped: Option<FromSwarm<'a, H>>,
    on_into: spec_fn(H, Option<H>) -> bool,
    on_conn: spec_fn(
        <H as IntoConnectionHandler>::Handler,
        Option<<H as IntoConnectionHandler>::Handler>,
    ) -> bool,
)
    requires
        event_mapped(event, mapped, on_into, on_conn),
        forall|x: H, y: Option<H>| #[trigger] on_into(x, y) ==> y == Some(x),
        forall|x: <H as IntoConnectionHandler>::Handler, y: Option<<H as IntoConnectionHandler>::Handler>|
            #[trigger] on_conn(x, y) ==> y == Some(x),
    ensures
        mapped == Some(event),
{
    match event {
        FromSwarm::ConnectionClosed(c) => {
            if mapped is None {
                assert(on_conn(c.handler, None));
            } else {
                assert(on_conn(c.handler, Some(mapped->0->ConnectionClosed_0.handler)));
            }
        },
        FromSwarm::DialFailure(d) => {
            if mapped is None {
                assert(on_into(d.handler, None));
            } else {
                assert(on_into(d.handler, Some(mapped->0->DialFailure_0.handler)));
            }
        },
        FromSwarm::ListenFailure(l) => {
            if mapped is None {
                assert(on_into(l.handler, None));
            } else {
                assert(on_into(l.handler, Some(mapped->0->ListenFailure_0.handler)));
            }
        },
        _ => {},
    }
}

/// Law: converting the handlers twice, the second time only when the first gave an event,
/// is converting them once with the composed relations.
pub proof fn lemma_event_map_compose<
    'a,
    H1: IntoConnectionHandler,
    H2: IntoConnectionHandler,
    H3: IntoConnectionHandler,
>(
    event: FromSwarm<'a, H1>,
    once: Option<FromSwarm<'a, H2>>,
    twice: Option<FromSwarm<'a, H3>>,
    into1: spec_fn(H1, Option<H2>) -> bool,
    conn1: spec_fn(
        <H1 as IntoConnectionHandler>::Handler,
        Option<<H2 as IntoConnectionHandler>::Handler>,
    ) -> bool,
    into2: spec_fn(H2, Option<H3>) -> bool,
    conn2: spec_fn(
        <H2 as IntoConnectionHandler>::Handler,
        Option<<H3 as IntoConnectionHandler>::Handler>,
    ) -> bool,
)
    requires
        event_mapped(event, once, into1, conn1),
        match once {
            Some(e1) => event_mapped(e1, twice, into2, conn2),
            None => twice is None,
        },
    ensures
        event_mapped(event, twice, compose_option(into1, into2), compose_option(conn1, conn2)),
{
    match event {
        FromSwarm::ConnectionClosed(c) => {
            match once {
                None => {
                    assert(conn1(c.handler, None));
                },
                Some(e1) => {
                    let h2 = e1->ConnectionClosed_0.handler;
                    assert(conn1(c.handler, Some(h2)));
                    match twice {
                        None => {
                            assert(conn2(h2, None));
                        },
                        Some(e2) => {
                            assert(conn2(h2, Some(e2->ConnectionClosed_0.handler)));
                        },
                    }
                },
            }
        },
        FromSwarm::DialFailure(d) => {
            match once {
                None => {
                    assert(into1(d.handler, None));
                },
                Some(e1) => {
                    let h2 = e1->DialFailure_0.handler;
                    assert(into1(d.handler, Some(h2)));
                    match twice {
                        None => {
                            assert(into2(h2, None));
                        },
                        Some(e2) => {
                            assert(into2(h2, Some(e2->DialFailure_0.handler)));
                        },
                    }
                },
            }
        },
        FromSwarm::ListenFailure(l) => {
            match once {
                None => {
                    assert(into1(l.handler, None));
                },
                Some(e1) => {
                    let h2 = e1->ListenFailure_0.handler;
                    assert(into1(l.handler, Some(h2)));
                    match twice {
                        None => {
                            assert(into2(h2, None));
                        },
                        Some(e2) => {
                            assert(into2(h2, Some(e2->ListenFailure_0.handler)));
                        },
                    }
                },
            }
        },
        _ => {},
    }
}

/// Law: two conversions of the same event whose relations lie within common functional
/// relations give the same result. With [`lemma_event_map_compose`], converting twice gives
/// what converting once with the composed conversions gives, for closures that determine
/// their results.
pub proof fn lemma_event_map_agree<'a, H1: IntoConnectionHandler, H2: IntoConnectionHandler>(
    event: FromSwarm<'a, H1>,
    mapped1: Option<FromSwarm<'a, H2>>,
    mapped2: Option<FromSwarm<'a, H2>>,
    into1: spec_fn(H1, Option<H2>) -> bool,
    conn1: spec_fn(
        <H1 as IntoConnectionHandler>::Handler,
        Option<<H2 as IntoConnectionHandler>::Handler>,
    ) -> bool,
    into2: spec_fn(H1, Option<H2>) -> bool,
    conn2: spec_fn(
        <H1 as IntoConnectionHandler>::Handler,
        Option<<H2 as IntoConnectionHandler>::Handler>,
    ) -> bool,
    into: spec_fn(H1, Option<H2>) -> bool,
    conn: spec_fn(
        <H1 as IntoConnectionHandler>::Handler,
        Option<<H2 as IntoConnectionHandler>::Handler>,
    ) -> bool,
)
    requires
        event_mapped(event, mapped1, into1, conn1),
        event_mapped(event, mapped2, into2, conn2),
        within(into1, into),
        within(into2, into),
        within(conn1, conn),
        within(conn2, conn),
        functional(into),
        functional(conn),
    ensures
        mapped1 == mapped2,
{
    match event {
        FromSwarm::ConnectionClosed(c) => {
            let a = match mapped1 {
                None => None,
                Some(e) => Some(e->ConnectionClosed_0.handler),
            };
            let b = match mapped2 {
                None => None,
                Some(e) => Some(e->ConnectionClosed_0.handler),
            };
            assert(conn1(c.handler, a) && conn2(c.handler, b));
            assert(conn(c.handler, a) && conn(c.handler, b));
        },
        FromSwarm::DialFailure(d) => {
            let a = match mapped1 {
                None => None,
                Some(e) => Some(e->DialFailure_0.handler),
            };
            let b = match mapped2 {
                None => None,
                Some(e) => Some(e->DialFailure_0.handler),
            };
            assert(into1(d.handler, a) && into2(d.handler, b));
            assert(into(d.handler, a) && into(d.handler, b));
        },
        FromSwarm::ListenFailure(l) => {
            let a = match mapped1 {
                None => None,
                Some(e) => Some(e->ListenFailure_0.handler),
            };
            let b = match mapped2 {
                None => None,
                Some(e) => Some(e->ListenFailure_0.handler),
            };
            assert(into1(l.handler, a) && into2(l.handler, b));
            assert(into(l.handler, a) && into(l.handler, b));
        },
        _ => {},
    }
}

} // verus!
