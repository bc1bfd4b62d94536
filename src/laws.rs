//! Laws of the peer waits, stated over the events a wait takes in.

use vstd::prelude::*;
use crate::node::{counted_peer, counted_peers, NodeEvent, Tally};

verus! {

/// The peers counted over two stretches of events, one after the other, are
/// those counted over each.
pub proof fn lemma_counted_over_concatenation(tally: Tally, first: Seq<NodeEvent>, second: Seq<NodeEvent>)
    ensures
        counted_peers(tally, first + second) == counted_peers(tally, first).union(
            counted_peers(tally, second),
        ),
    decreases second.len(),
{
    if second.len() == 0 {
        assert(first + second =~= first);
        assert(counted_peers(tally, first).union(Set::empty()) =~= counted_peers(tally, first));
    } else {
        let shorter = second.drop_last();
        lemma_counted_over_concatenation(tally, first, shorter);
        assert((first + second).drop_last() =~= first + shorter);
        assert((first + second).last() == second.last());
        match counted_peer(tally, second.last()) {
            Some(p) => {
                assert(counted_peers(tally, first + shorter).insert(p) =~= counted_peers(
                    tally,
                    first,
                ).union(counted_peers(tally, shorter).insert(p)));
            },
            None => {},
        }
    }
}

/// Finitely many peers are ever counted, at most one per event.
pub proof fn lemma_counted_finite(tally: Tally, events: Seq<NodeEvent>)
    ensures
        counted_peers(tally, events).finite(),
        counted_peers(tally, events).len() <= events.len(),
    decreases events.len(),
{
    if events.len() > 0 {
        lemma_counted_finite(tally, events.drop_last());
    }
}

/// One more event adds at most one peer: a wait ends with exactly as many
/// peers as it awaited.
pub proof fn lemma_wait_ends_at_target(tally: Tally, events: Seq<NodeEvent>, event: NodeEvent, target: nat)
    requires
        counted_peers(tally, events).len() < target,
        counted_peers(tally, events.push(event)).len() >= target,
    ensures
        counted_peers(tally, events.push(event)).len() == target,
{
    lemma_counted_finite(tally, events);
    assert(events.push(event).drop_last() =~= events);
}

/// `count` connection events, all from `peer`.
pub open spec fn repeated_connections(peer: Vec<u8>, count: nat) -> Seq<NodeEvent> {
    Seq::new(count, |i: int| NodeEvent::ConnectionEstablished { peer })
}

/// A wait for connections that has counted fewer peers than it awaits is not
/// ended by any number of further connections of a peer it already counted.
pub proof fn lemma_repeats_never_complete(
    events: Seq<NodeEvent>,
    peer: Vec<u8>,
    count: nat,
    target: nat,
)
    requires
        counted_peers(Tally::Connections, events).len() < target,
        counted_peers(Tally::Connections, events).contains(peer@),
    ensures
        forall|j: nat|
            j <= count ==> #[trigger] counted_peers(
                Tally::Connections,
                events + repeated_connections(peer, j),
            ) == counted_peers(Tally::Connections, events),
        forall|j: nat|
            j <= count ==> #[trigger] counted_peers(
                Tally::Connections,
                events + repeated_connections(peer, j),
            ).len() < target,
{
    assert forall|j: nat| j <= count implies #[trigger] counted_peers(
        Tally::Connections,
        events + repeated_connections(peer, j),
    ) == counted_peers(Tally::Connections, events) by {
        lemma_counted_over_concatenation(Tally::Connections, events, repeated_connections(peer, j));
        lemma_only_peer_counted(peer, repeated_connections(peer, j));
        assert(counted_peers(Tally::Connections, events).union(
            counted_peers(Tally::Connections, repeated_connections(peer, j)),
        ) =~= counted_peers(Tally::Connections, events));
    }
}

proof fn lemma_only_peer_counted(peer: Vec<u8>, events: Seq<NodeEvent>)
    requires
        forall|i: int|
            0 <= i < events.len() ==> #[trigger] counted_peer(Tally::Connections, events[i]) is None
                || counted_peer(Tally::Connections, events[i]) == Some(peer@),
    ensures
        counted_peers(Tally::Connections, events).subset_of(set![peer@]),
    decreases events.len(),
{
    if events.len() > 0 {
        let shorter = events.drop_last();
        assert forall|i: int| 0 <= i < shorter.len() implies #[trigger] counted_peer(
            Tally::Connections,
            shorter[i],
        ) is None || counted_peer(Tally::Connections, shorter[i]) == Some(peer@) by {
            assert(shorter[i] == events[i]);
        }
        lemma_only_peer_counted(peer, shorter);
        assert(counted_peer(Tally::Connections, events[events.len() - 1]) is None
            || counted_peer(Tally::Connections, events[events.len() - 1]) == Some(peer@));
    }
}

/// However many times one peer connects before any other does, and whatever
/// other events come between, the wait for connections counts that peer once.
pub proof fn lemma_same_peer_counted_once(peer: Vec<u8>, events: Seq<NodeEvent>)
    requires
        forall|i: int|
            0 <= i < events.len() && (#[trigger] events[i]) is ConnectionEstablished ==> events[i]
                == (NodeEvent::ConnectionEstablished { peer }),
        exists|i: int| 0 <= i < events.len() && (#[trigger] events[i]) is ConnectionEstablished,
    ensures
        counted_peers(Tally::Connections, events) == set![peer@],
        counted_peers(Tally::Connections, events).len() == 1,
{
    assert forall|i: int| 0 <= i < events.len() implies #[trigger] counted_peer(
        Tally::Connections,
        events[i],
    ) is None || counted_peer(Tally::Connections, events[i]) == Some(peer@) by {
        if events[i] is ConnectionEstablished {
            assert(events[i] == (NodeEvent::ConnectionEstablished { peer }));
        }
    }
    lemma_only_peer_counted(peer, events);
    let i = choose|i: int| 0 <= i < events.len() && (#[trigger] events[i]) is ConnectionEstablished;
    assert(events[i] == (NodeEvent::ConnectionEstablished { peer }));
    let head = events.take(i + 1);
    assert(head.drop_last() =~= events.take(i));
    assert(head.last() == events[i]);
    assert(counted_peers(Tally::Connections, head).contains(peer@));
    lemma_counted_over_concatenation(Tally::Connections, head, events.skip(i + 1));
    assert(head + events.skip(i + 1) =~= events);
    assert(counted_peers(Tally::Connections, events) =~= set![peer@]);
    assert(set![peer@].len() == 1) by {
        assert(set![peer@] =~= Set::<Seq<u8>>::empty().insert(peer@));
    }
}

/// Successful liveness checks of `peers`, in order.
pub open spec fn successes_from(peers: Seq<Vec<u8>>) -> Seq<NodeEvent> {
    Seq::new(peers.len(), |i: int| NodeEvent::LivenessSuccess { peer: peers[i] })
}

proof fn lemma_nothing_counted(tally: Tally, events: Seq<NodeEvent>)
    requires
        forall|i: int| 0 <= i < events.len() ==> #[trigger] counted_peer(tally, events[i]) is None,
    ensures
        counted_peers(tally, events) == Set::<Seq<u8>>::empty(),
    decreases events.len(),
{
    if events.len() > 0 {
        let shorter = events.drop_last();
        assert forall|i: int| 0 <= i < shorter.len() implies #[trigger] counted_peer(
            tally,
            shorter[i],
        ) is None by {
            assert(shorter[i] == events[i]);
        }
        lemma_nothing_counted(tally, shorter);
        assert(counted_peer(tally, events[events.len() - 1]) is None);
    }
}

proof fn lemma_distinct_successes_counted(peers: Seq<Vec<u8>>)
    requires
        forall|i: int, j: int| 0 <= i < j < peers.len() ==> peers[i]@ != peers[j]@,
    ensures
        counted_peers(Tally::Pings, successes_from(peers)).len() == peers.len(),
        forall|x: Seq<u8>|
            #[trigger] counted_peers(Tally::Pings, successes_from(peers)).contains(x) ==> exists|j: int|
                0 <= j < peers.len() && peers[j]@ == x,
    decreases peers.len(),
{
    if peers.len() > 0 {
        let shorter = peers.drop_last();
        lemma_distinct_successes_counted(shorter);
        lemma_counted_finite(Tally::Pings, successes_from(shorter));
        assert(successes_from(peers).drop_last() =~= successes_from(shorter));
        let last = peers[peers.len() - 1];
        assert(successes_from(peers).last() == (NodeEvent::LivenessSuccess { peer: last }));
        assert(!counted_peers(Tally::Pings, successes_from(shorter)).contains(last@)) by {
            if counted_peers(Tally::Pings, successes_from(shorter)).contains(last@) {
                let j = choose|j: int| 0 <= j < shorter.len() && shorter[j]@ == last@;
                assert(peers[j]@ != peers[peers.len() - 1]@);
            }
        }
        assert forall|x: Seq<u8>|
            #[trigger] counted_peers(Tally::Pings, successes_from(peers)).contains(x) implies exists|j: int|
                0 <= j < peers.len() && peers[j]@ == x by {
            if x != last@ {
                let j = choose|j: int| 0 <= j < shorter.len() && shorter[j]@ == x;
                assert(peers[j]@ == x);
            }
        }
    }
}

/// Failed liveness checks are never counted: after any number of failures,
/// successful checks of as many distinct peers as a wait for pings awaits end
/// that wait at the last of them, and not before.
pub proof fn lemma_failures_never_counted(failures: Seq<NodeEvent>, peers: Seq<Vec<u8>>)
    requires
        forall|i: int| 0 <= i < failures.len() ==> (#[trigger] failures[i]) is LivenessFailure,
        forall|i: int, j: int| 0 <= i < j < peers.len() ==> peers[i]@ != peers[j]@,
        peers.len() >= 1,
    ensures
        counted_peers(Tally::Pings, failures + successes_from(peers)).len() == peers.len(),
        forall|k: int|
            0 <= k < failures.len() + peers.len() ==> #[trigger] counted_peers(
                Tally::Pings,
                (failures + successes_from(peers)).take(k),
            ).len() < peers.len(),
{
    let events = failures + successes_from(peers);
    assert forall|i: int| 0 <= i < failures.len() implies #[trigger] counted_peer(
        Tally::Pings,
        failures[i],
    ) is None by {
        assert(failures[i] is LivenessFailure);
    }
    lemma_nothing_counted(Tally::Pings, failures);
    lemma_counted_over_concatenation(Tally::Pings, failures, successes_from(peers));
    lemma_distinct_successes_counted(peers);
    assert(Set::<Seq<u8>>::empty().union(counted_peers(Tally::Pings, successes_from(peers)))
        =~= counted_peers(Tally::Pings, successes_from(peers)));
    assert forall|k: int| 0 <= k < failures.len() + peers.len() implies #[trigger] counted_peers(
        Tally::Pings,
        events.take(k),
    ).len() < peers.len() by {
        if k <= failures.len() {
            let head = failures.take(k);
            assert(events.take(k) =~= head);
            assert forall|i: int| 0 <= i < head.len() implies #[trigger] counted_peer(
                Tally::Pings,
                head[i],
            ) is None by {
                assert(head[i] == failures[i]);
                assert(failures[i] is LivenessFailure);
            }
            lemma_nothing_counted(Tally::Pings, head);
        } else {
            let some = peers.take(k - failures.len());
            assert(events.take(k) =~= failures + successes_from(some));
            assert forall|i: int, j: int| 0 <= i < j < some.len() implies some[i]@ != some[j]@ by {
                assert(some[i] == peers[i] && some[j] == peers[j]);
            }
            lemma_counted_over_concatenation(Tally::Pings, failures, successes_from(some));
            lemma_distinct_successes_counted(some);
            assert(Set::<Seq<u8>>::empty().union(counted_peers(Tally::Pings, successes_from(some)))
                =~= counted_peers(Tally::Pings, successes_from(some)));
        }
    }
}

} // verus!
