# swarm_webrtc

A Verus library for two pieces of a libp2p node:

- `src/behaviour.rs`: the actions a network behaviour asks the swarm to perform
  (`NetworkBehaviourAction`) and the events the swarm reports (`FromSwarm`), with
  verified maps over their events and handlers and laws on them (identity,
  composition, when an event is dropped);
- `src/webrtc_connection.rs`: certificate fingerprints, the ICE credentials derived from
  them, the WebRTC engine settings of the dialing and listening sides, and the two session
  description templates rendered in place of the remote side's, with laws relating the two
  sides.

`src/handler.rs` holds the identifiers and options the actions carry, `src/external.rs`
declares the types of other crates that pass through. `app/` drives the WebRTC stack
asynchronously with what the library computes.
