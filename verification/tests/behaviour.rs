use libp2p_core::transport::ListenerId;
use libp2p_core::{ConnectedPoint, Endpoint, Multiaddr};
use libp2p_identity::PeerId;
use swarm_webrtc::{
    AddressScore, CloseConnection, ConnectionClosed, ConnectionEstablished, ConnectionHandler,
    ConnectionId, DialFailure, DialOpts, FromSwarm, IntoConnectionHandler, ListenFailure,
    NetworkBehaviour, NetworkBehaviourAction, NewListener, NotifyHandler, PeerCondition,
};

#[derive(Debug, PartialEq)]
struct Handler(u32);

impl ConnectionHandler for Handler {
    type InEvent = u32;
    type OutEvent = ();
}

#[derive(Debug, PartialEq)]
struct Prototype(u32);

impl IntoConnectionHandler for Prototype {
    type Handler = Handler;
}

#[derive(Debug, PartialEq)]
struct OtherPrototype(u64);

impl IntoConnectionHandler for OtherPrototype {
    type Handler = Handler;
}

#[derive(Debug, PartialEq)]
struct TextHandler(String);

impl ConnectionHandler for TextHandler {
    type InEvent = String;
    type OutEvent = ();
}

#[derive(Debug, PartialEq)]
struct TextPrototype(String);

impl IntoConnectionHandler for TextPrototype {
    type Handler = TextHandler;
}

fn peer(n: u8) -> PeerId {
    PeerId::from_bytes(&[0x00, 0x02, n, n]).unwrap()
}

fn addr(s: &str) -> Multiaddr {
    s.parse().unwrap()
}

fn dial_opts(p: PeerId) -> DialOpts {
    DialOpts {
        peer_id: Some(p),
        condition: PeerCondition::Always,
        addresses: vec![addr("/ip4/10.0.0.1/udp/4001")],
        extend_addresses_through_behaviour: false,
        role_override: Endpoint::Dialer,
    }
}

type Action = NetworkBehaviourAction<&'static str, Prototype>;

#[test]
fn map_in_maps_only_the_event_of_notify_handler() {
    let p = peer(1);
    let action: Action = NetworkBehaviourAction::NotifyHandler {
        peer_id: p,
        handler: NotifyHandler::One(ConnectionId::new(7)),
        event: 20,
    };
    match action.map_in(|e: u32| format!("event {}", e)) {
        NetworkBehaviourAction::NotifyHandler { peer_id, handler, event } => {
            assert_eq!(peer_id, p);
            assert_eq!(handler, NotifyHandler::One(ConnectionId::new(7)));
            assert_eq!(event, "event 20");
        }
        _ => panic!("the kind of action changed"),
    }
    let action: Action = NetworkBehaviourAction::GenerateEvent("hello");
    let mapped = action.map_in(|_: u32| -> String { panic!("no event to map") });
    assert!(matches!(mapped, NetworkBehaviourAction::GenerateEvent("hello")));
    let action: Action = NetworkBehaviourAction::Dial { opts: dial_opts(p), handler: Prototype(3) };
    match action.map_in(|_: u32| -> String { panic!("no event to map") }) {
        NetworkBehaviourAction::Dial { opts, handler } => {
            assert_eq!(opts.peer_id, Some(p));
            assert_eq!(handler, Prototype(3));
        }
        _ => panic!("the kind of action changed"),
    }
}

#[test]
fn map_out_maps_only_the_generated_event() {
    let action: Action = NetworkBehaviourAction::GenerateEvent("hello");
    let mapped = action.map_out(|e| e.len());
    assert!(matches!(mapped, NetworkBehaviourAction::GenerateEvent(5)));
    let p = peer(2);
    let action: Action = NetworkBehaviourAction::CloseConnection {
        peer_id: p,
        connection: CloseConnection::All,
    };
    match action.map_out(|_| -> usize { panic!("no event to map") }) {
        NetworkBehaviourAction::CloseConnection { peer_id, connection } => {
            assert_eq!(peer_id, p);
            assert_eq!(connection, CloseConnection::All);
        }
        _ => panic!("the kind of action changed"),
    }
    let a = addr("/ip4/1.2.3.4/udp/9");
    let action: Action = NetworkBehaviourAction::ReportObservedAddr {
        address: a.clone(),
        score: AddressScore::Finite(3),
    };
    match action.map_out(|_| -> usize { panic!("no event to map") }) {
        NetworkBehaviourAction::ReportObservedAddr { address, score } => {
            assert_eq!(address, a);
            assert_eq!(score, AddressScore::Finite(3));
        }
        _ => panic!("the kind of action changed"),
    }
}

#[test]
fn map_handler_maps_only_the_handler_of_a_dial() {
    let p = peer(3);
    let action: Action = NetworkBehaviourAction::Dial { opts: dial_opts(p), handler: Prototype(3) };
    match action.map_handler(|h: Prototype| OtherPrototype(u64::from(h.0) * 10)) {
        NetworkBehaviourAction::Dial { opts, handler } => {
            assert_eq!(opts.peer_id, Some(p));
            assert_eq!(opts.condition, PeerCondition::Always);
            assert_eq!(handler, OtherPrototype(30));
        }
        _ => panic!("the kind of action changed"),
    }
    let action: Action = NetworkBehaviourAction::NotifyHandler {
        peer_id: p,
        handler: NotifyHandler::Any,
        event: 4,
    };
    match action.map_handler(|_: Prototype| -> OtherPrototype { panic!("no handler to map") }) {
        NetworkBehaviourAction::NotifyHandler { peer_id, handler, event } => {
            assert_eq!(peer_id, p);
            assert_eq!(handler, NotifyHandler::Any);
            assert_eq!(event, 4);
        }
        _ => panic!("the kind of action changed"),
    }
}

#[test]
fn map_handler_and_in_maps_handler_and_event() {
    let p = peer(4);
    let action: Action = NetworkBehaviourAction::Dial { opts: dial_opts(p), handler: Prototype(9) };
    match action.map_handler_and_in(
        |h: Prototype| TextPrototype(h.0.to_string()),
        |_: u32| -> String { panic!("no event to map") },
    ) {
        NetworkBehaviourAction::Dial { handler, .. } => {
            assert_eq!(handler, TextPrototype("9".to_string()))
        }
        _ => panic!("the kind of action changed"),
    }
    let action: Action = NetworkBehaviourAction::NotifyHandler {
        peer_id: p,
        handler: NotifyHandler::One(ConnectionId::new(1)),
        event: 11,
    };
    match action.map_handler_and_in(
        |_: Prototype| -> TextPrototype { panic!("no handler to map") },
        |e: u32| format!("#{}", e),
    ) {
        NetworkBehaviourAction::NotifyHandler { peer_id, handler, event } => {
            assert_eq!(peer_id, p);
            assert_eq!(handler, NotifyHandler::One(ConnectionId::new(1)));
            assert_eq!(event, "#11");
        }
        _ => panic!("the kind of action changed"),
    }
}

#[test]
fn close_connection_defaults_to_all() {
    assert_eq!(CloseConnection::default(), CloseConnection::All);
}

#[test]
fn connection_id_keeps_its_number() {
    assert_eq!(ConnectionId::new(42).get(), 42);
    assert_ne!(ConnectionId::new(1), ConnectionId::new(2));
}

#[test]
fn from_swarm_map_handler_converts_handlers() {
    let p = peer(5);
    let endpoint = ConnectedPoint::Dialer {
        address: addr("/ip4/10.0.0.2/udp/1"),
        role_override: Endpoint::Dialer,
    };
    let event: FromSwarm<Prototype> = FromSwarm::ConnectionClosed(ConnectionClosed {
        peer_id: p,
        connection_id: ConnectionId::new(5),
        endpoint: &endpoint,
        handler: Handler(8),
        remaining_established: 2,
    });
    match event.map_handler(
        |h: Prototype| TextPrototype(h.0.to_string()),
        |h: Handler| TextHandler(format!("h{}", h.0)),
    ) {
        FromSwarm::ConnectionClosed(c) => {
            assert_eq!(c.peer_id, p);
            assert_eq!(c.connection_id, ConnectionId::new(5));
            assert_eq!(c.endpoint, &endpoint);
            assert_eq!(c.handler, TextHandler("h8".to_string()));
            assert_eq!(c.remaining_established, 2);
        }
        _ => panic!("the kind of event changed"),
    }
    let event: FromSwarm<Prototype> = FromSwarm::DialFailure(DialFailure {
        peer_id: Some(p),
        handler: Prototype(6),
        error: "no addresses",
    });
    match event.map_handler(
        |h: Prototype| TextPrototype(h.0.to_string()),
        |h: Handler| TextHandler(format!("h{}", h.0)),
    ) {
        FromSwarm::DialFailure(d) => {
            assert_eq!(d.peer_id, Some(p));
            assert_eq!(d.handler, TextPrototype("6".to_string()));
            assert_eq!(d.error, "no addresses");
        }
        _ => panic!("the kind of event changed"),
    }
}

fn listen_failure<'a>(local: &'a Multiaddr, remote: &'a Multiaddr, n: u32) -> FromSwarm<'a, Prototype> {
    FromSwarm::ListenFailure(ListenFailure { local_addr: local, send_back_addr: remote, handler: Prototype(n) })
}

#[test]
fn from_swarm_maybe_map_handler_drops_events_whose_handler_does_not_map() {
    let local = addr("/ip4/10.0.0.3/udp/1");
    let remote = addr("/ip4/10.0.0.4/udp/2");
    let to_even = |h: Prototype| if h.0 % 2 == 0 { Some(TextPrototype(h.0.to_string())) } else { None };
    let never = |_: Handler| -> Option<TextHandler> { panic!("no connection handler to map") };
    assert!(listen_failure(&local, &remote, 3).maybe_map_handler(to_even, never).is_none());
    match listen_failure(&local, &remote, 4).maybe_map_handler(to_even, never) {
        Some(FromSwarm::ListenFailure(l)) => {
            assert_eq!(l.local_addr, &local);
            assert_eq!(l.send_back_addr, &remote);
            assert_eq!(l.handler, TextPrototype("4".to_string()));
        }
        _ => panic!("the event was dropped or changed kind"),
    }
}

#[test]
fn from_swarm_events_without_handler_come_through() {
    let p = peer(6);
    let endpoint = ConnectedPoint::Listener {
        local_addr: addr("/ip4/10.0.0.5/udp/1"),
        send_back_addr: addr("/ip4/10.0.0.6/udp/2"),
    };
    let failed = vec![addr("/ip4/10.0.0.7/udp/3")];
    let event: FromSwarm<Prototype> = FromSwarm::ConnectionEstablished(ConnectionEstablished {
        peer_id: p,
        connection_id: ConnectionId::new(9),
        endpoint: &endpoint,
        failed_addresses: &failed,
        other_established: 1,
    });
    let never_into = |_: Prototype| -> Option<TextPrototype> { panic!("no handler to map") };
    let never = |_: Handler| -> Option<TextHandler> { panic!("no handler to map") };
    match event.maybe_map_handler(never_into, never) {
        Some(FromSwarm::ConnectionEstablished(e)) => {
            assert_eq!(e.peer_id, p);
            assert_eq!(e.connection_id, ConnectionId::new(9));
            assert_eq!(e.endpoint, &endpoint);
            assert_eq!(e.failed_addresses, &failed[..]);
            assert_eq!(e.other_established, 1);
        }
        _ => panic!("the event was dropped or changed kind"),
    }
    let id = ListenerId::next();
    let event: FromSwarm<Prototype> = FromSwarm::NewListener(NewListener { listener_id: id });
    match event.map_handler(
        |_: Prototype| -> TextPrototype { panic!("no handler to map") },
        |_: Handler| -> TextHandler { panic!("no handler to map") },
    ) {
        FromSwarm::NewListener(l) => assert_eq!(l.listener_id, id),
        _ => panic!("the kind of event changed"),
    }
}

fn notify(p: PeerId, event: u32) -> Action {
    NetworkBehaviourAction::NotifyHandler { peer_id: p, handler: NotifyHandler::Any, event }
}

fn same_action(a: &Action, b: &Action) -> bool {
    match (a, b) {
        (NetworkBehaviourAction::GenerateEvent(x), NetworkBehaviourAction::GenerateEvent(y)) => x == y,
        (
            NetworkBehaviourAction::NotifyHandler { peer_id: p1, handler: h1, event: e1 },
            NetworkBehaviourAction::NotifyHandler { peer_id: p2, handler: h2, event: e2 },
        ) => p1 == p2 && h1 == h2 && e1 == e2,
        (
            NetworkBehaviourAction::Dial { opts: o1, handler: h1 },
            NetworkBehaviourAction::Dial { opts: o2, handler: h2 },
        ) => o1.peer_id == o2.peer_id && o1.addresses == o2.addresses && h1 == h2,
        _ => false,
    }
}

#[test]
fn map_in_with_identity_is_identity() {
    let p = peer(7);
    assert!(same_action(&notify(p, 5).map_in(|e: u32| e), &notify(p, 5)));
    let dial: Action = NetworkBehaviourAction::Dial { opts: dial_opts(p), handler: Prototype(1) };
    let expected: Action = NetworkBehaviourAction::Dial { opts: dial_opts(p), handler: Prototype(1) };
    assert!(same_action(&dial.map_in(|e: u32| e).map_out(|e| e).map_handler(|h: Prototype| h), &expected));
}

#[test]
fn map_in_twice_is_map_in_of_the_composition() {
    let p = peer(8);
    let twice = notify(p, 5).map_in(|e: u32| e + 1).map_in(|e: u32| e * 3);
    let once = notify(p, 5).map_in(|e: u32| (e + 1) * 3);
    assert!(same_action(&twice, &once));
    assert!(same_action(&once, &notify(p, 18)));
}

#[test]
fn map_in_and_map_out_commute() {
    let p = peer(9);
    let a: Action = NetworkBehaviourAction::GenerateEvent("ab");
    let b: Action = NetworkBehaviourAction::GenerateEvent("ab");
    let x = a.map_in(|e: u32| e + 1).map_out(|e| if e.len() == 2 { "two" } else { "other" });
    let y = b.map_out(|e| if e.len() == 2 { "two" } else { "other" }).map_in(|e: u32| e + 1);
    assert!(same_action(&x, &y));
    let x = notify(p, 1).map_in(|e: u32| e + 1).map_out(|e| e);
    let y = notify(p, 1).map_out(|e| e).map_in(|e: u32| e + 1);
    assert!(same_action(&x, &y));
}

#[test]
fn map_handler_and_in_with_identity_event_is_map_handler() {
    let p = peer(10);
    let a: Action = NetworkBehaviourAction::Dial { opts: dial_opts(p), handler: Prototype(4) };
    let b: Action = NetworkBehaviourAction::Dial { opts: dial_opts(p), handler: Prototype(4) };
    let x = a.map_handler_and_in(|h: Prototype| OtherPrototype(u64::from(h.0)), |e: u32| e);
    let y = b.map_handler(|h: Prototype| OtherPrototype(u64::from(h.0)));
    match (x, y) {
        (
            NetworkBehaviourAction::Dial { handler: h1, .. },
            NetworkBehaviourAction::Dial { handler: h2, .. },
        ) => assert_eq!(h1, h2),
        _ => panic!("the kind of action changed"),
    }
}

#[test]
fn maybe_map_handler_with_identity_gives_the_event_back() {
    let local = addr("/ip4/10.0.0.8/udp/1");
    let remote = addr("/ip4/10.0.0.9/udp/2");
    match listen_failure(&local, &remote, 12).maybe_map_handler(|h: Prototype| Some(h), |h: Handler| Some(h)) {
        Some(FromSwarm::ListenFailure(l)) => {
            assert_eq!(l.local_addr, &local);
            assert_eq!(l.send_back_addr, &remote);
            assert_eq!(l.handler, Prototype(12));
        }
        _ => panic!("the event was dropped or changed kind"),
    }
}

#[test]
fn maybe_map_handler_twice_is_once_with_the_composition() {
    let local = addr("/ip4/10.0.0.10/udp/1");
    let remote = addr("/ip4/10.0.0.11/udp/2");
    let f1 = |h: Prototype| if h.0 > 2 { Some(TextPrototype(h.0.to_string())) } else { None };
    let f2 = |h: TextPrototype| Some(TextPrototype(format!("<{}>", h.0)));
    let never1 = |_: Handler| -> Option<TextHandler> { None };
    let never2 = |_: TextHandler| -> Option<TextHandler> { None };
    for n in [1u32, 5] {
        let twice = listen_failure(&local, &remote, n)
            .maybe_map_handler(f1, never1)
            .and_then(|e| e.maybe_map_handler(f2, never2));
        let once = listen_failure(&local, &remote, n)
            .maybe_map_handler(|h| f1(h).and_then(f2), |h| never1(h).and_then(never2));
        match (twice, once) {
            (None, None) => assert_eq!(n, 1),
            (Some(FromSwarm::ListenFailure(a)), Some(FromSwarm::ListenFailure(b))) => {
                assert_eq!(a.handler, b.handler);
                assert_eq!(a.handler, TextPrototype("<5>".to_string()));
            }
            _ => panic!("the two ways disagree"),
        }
    }
}

struct Quiet {
    calls: u32,
}

impl NetworkBehaviour for Quiet {
    type ConnectionHandler = Prototype;
    type OutEvent = ();

    fn new_handler(&mut self) -> Prototype {
        self.calls += 1;
        Prototype(self.calls)
    }

    fn on_swarm_event(&mut self, _event: FromSwarm<Prototype>) {}

    fn poll(
        &mut self,
        _cx: &mut std::task::Context<'_>,
        _params: &mut impl swarm_webrtc::PollParameters,
    ) -> std::task::Poll<NetworkBehaviourAction<(), Prototype>> {
        std::task::Poll::Pending
    }
}

#[test]
fn default_behaviour_methods_change_nothing() {
    let mut b = Quiet { calls: 3 };
    assert!(b.addresses_of_peer(&peer(11)).is_empty());
    b.on_connection_handler_event(peer(11), ConnectionId::new(2), ());
    assert_eq!(b.calls, 3);
    assert_eq!(b.new_handler(), Prototype(4));
}
