//! The waits a node performs while draining its event stream: for its
//! listener to come up, and for a number of distinct peers to connect or to
//! answer a liveness check.

use vstd::prelude::*;
use libp2p::swarm::derive_prelude::ListenerId;
use crate::address::same_listener;
use crate::peers::PeerSet;

verus! {

/// An event of the node, reduced to what the waits look at. Peers are named by
/// the bytes of their identity.
#[derive(Debug)]
pub enum NodeEvent {
    /// The listener with this identifier is accepting connections on this
    /// address.
    ListenerReady { listener: ListenerId, address: String },
    /// A connection to this peer is open.
    ConnectionEstablished { peer: Vec<u8> },
    /// This peer answered a liveness check.
    LivenessSuccess { peer: Vec<u8> },
    /// A liveness check of this peer failed or timed out.
    LivenessFailure { peer: Vec<u8> },
    /// Anything else.
    Other,
}

/// Whether `event` confirms the listener `listener`.
pub open spec fn confirms_listener(event: NodeEvent, listener: ListenerId) -> bool {
    match event {
        NodeEvent::ListenerReady { listener: l, .. } => l == listener,
        _ => false,
    }
}

/// What a wait counts: connected peers or peers that answered a liveness check.
#[derive(Debug, Clone, Copy, PartialEq, Eq, Structural)]
pub enum Tally {
    Connections,
    Pings,
}

/// The peer that `event` adds to a wait of kind `tally`, if any.
pub open spec fn counted_peer(tally: Tally, event: NodeEvent) -> Option<Seq<u8>> {
    match (tally, event) {
        (Tally::Connections, NodeEvent::ConnectionEstablished { peer }) => Some(peer@),
        (Tally::Pings, NodeEvent::LivenessSuccess { peer }) => Some(peer@),
        _ => None,
    }
}

/// The distinct peers that `events` add to a wait of kind `tally`.
pub open spec fn counted_peers(tally: Tally, events: Seq<NodeEvent>) -> Set<Seq<u8>>
    decreases events.len(),
{
    if events.len() == 0 {
        Set::empty()
    } else {
        let earlier = counted_peers(tally, events.drop_last());
        match counted_peer(tally, events.last()) {
            Some(p) => earlier.insert(p),
            None => earlier,
        }
    }
}

/// Waits for the listener a `listen` request was answered with.
pub struct ListenWait {
    listener: ListenerId,
}

impl ListenWait {
    /// The listener waited for.
    pub closed spec fn listener(&self) -> ListenerId {
        self.listener
    }

    /// Starts waiting for `listener`.
    pub fn new(listener: ListenerId) -> (r: ListenWait)
        ensures
            r.listener() == listener,
    {
        ListenWait { listener }
    }

    /// Whether `event` ends the wait.
    pub fn observe(&self, event: &NodeEvent) -> (ready: bool)
        ensures
            ready == confirms_listener(*event, self.listener()),
    {
        match event {
            NodeEvent::ListenerReady { listener, .. } => same_listener(listener, &self.listener),
            _ => false,
        }
    }
}

/// Waits until a number of distinct peers have connected, or have answered a
/// liveness check. A peer is counted once however many events name it.
pub struct PeerWait {
    tally: Tally,
    target: usize,
    peers: PeerSet,
    consumed: Ghost<Seq<NodeEvent>>,
}

impl PeerWait {
    pub closed spec fn tally(&self) -> Tally {
        self.tally
    }

    pub closed spec fn target(&self) -> nat {
        self.target as nat
    }

    /// The events observed so far, in order.
    pub closed spec fn consumed(&self) -> Seq<NodeEvent> {
        self.consumed@
    }

    /// The distinct peers counted so far.
    pub open spec fn counted(&self) -> Set<Seq<u8>> {
        counted_peers(self.tally(), self.consumed())
    }

    /// Whether the wait is over.
    pub open spec fn complete(&self) -> bool {
        self.counted().len() >= self.target()
    }

    pub closed spec fn wf(&self) -> bool {
        &&& self.peers.wf()
        &&& self.peers@ == counted_peers(self.tally, self.consumed@)
    }

    /// Starts a wait for `target` distinct peers of kind `tally`.
    pub fn new(tally: Tally, target: usize) -> (r: PeerWait)
        ensures
            r.wf(),
            r.tally() == tally,
            r.target() == target,
            r.consumed() == Seq::<NodeEvent>::empty(),
    {
        PeerWait { tally, target, peers: PeerSet::new(), consumed: Ghost(Seq::empty()) }
    }

    /// Takes in the next event of the node; returns whether the wait is over.
    /// Events that do not name a peer of the awaited kind are discarded.
    pub fn observe(&mut self, event: &NodeEvent) -> (done: bool)
        requires
            old(self).wf(),
        ensures
            final(self).wf(),
            final(self).tally() == old(self).tally(),
            final(self).target() == old(self).target(),
            final(self).consumed() == old(self).consumed().push(*event),
            done == final(self).complete(),
    {
        let ghost before = self.consumed@;
        self.consumed = Ghost(before.push(*event));
        assert(self.consumed@.drop_last() =~= before);
        match (self.tally, event) {
            (Tally::Connections, NodeEvent::ConnectionEstablished { peer }) => {
                self.peers.insert(peer);
            },
            (Tally::Pings, NodeEvent::LivenessSuccess { peer }) => {
                self.peers.insert(peer);
            },
            _ => {},
        }
        self.is_complete()
    }

    /// Whether the wait is over.
    pub fn is_complete(&self) -> (r: bool)
        requires
            self.wf(),
        ensures
            r == self.complete(),
    {
        self.peers.len() >= self.target
    }

    /// The number of distinct peers counted so far.
    pub fn count(&self) -> (r: usize)
        requires
            self.wf(),
        ensures
            r == self.counted().len(),
    {
        self.peers.len()
    }
}

} // verus!
