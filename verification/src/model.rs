//! The multiplexer as mathematics.
//!
//! A [`Mux`] is the state that the routing rules speak of: which peer
//! addresses are reserved, and how many connections are alive for each peer.
//! Its transitions are pure functions; the executable multiplexer in
//! [`crate::udp_single_sock`] is specified as computing exactly them. What
//! holds of every state that these transitions can reach is proved here.

use vstd::prelude::*;
use vstd::multiset::Multiset;
use crate::endpoint::Endpoint;

verus! {

/// What one non-destructive look at the head of the socket's queue showed.
#[derive(Clone, Copy, Debug, PartialEq, Eq, Structural)]
pub enum Peek {
    /// The peek itself failed. Nothing is known of the queue.
    Failed,
    /// A datagram from this source address is at the head of the queue. It
    /// stays there.
    From(Endpoint),
}

/// What a connection does after a peek.
#[derive(Clone, Copy, Debug, PartialEq, Eq, Structural)]
pub enum ReadStep {
    /// Look again: the head of the queue is not for this connection, or the
    /// peek failed.
    Retry,
    /// Take the datagram at the head of the queue: it is from this
    /// connection's peer.
    Receive,
}

/// The state of a multiplexer.
#[verifier::ext_equal]
pub struct Mux {
    /// The registry: the peer addresses that are reserved.
    pub occupied: Set<Endpoint>,
    /// The peers of the connections that are alive, each as often as a
    /// connection for it is alive.
    pub live: Multiset<Endpoint>,
}

/// One request to a multiplexer.
pub enum Op {
    /// A caller connects to this peer.
    Connect(Endpoint),
    /// A listener acts on this peek.
    Accept(Peek),
    /// The connection for this peer is destroyed.
    Release(Endpoint),
}

impl Mux {
    /// The state after bind: no peer is known yet.
    pub open spec fn empty() -> Mux {
        Mux { occupied: Set::empty(), live: Multiset::empty() }
    }

    /// The state in which `peer` has been reserved for one more connection.
    pub open spec fn claim(self, peer: Endpoint) -> Mux {
        Mux { occupied: self.occupied.insert(peer), live: self.live.insert(peer) }
    }

    /// Connecting to `addr`: the state afterwards, and the peer of the new
    /// connection if one is made. None is made when `addr` is reserved.
    pub open spec fn connect(self, addr: Endpoint) -> (Mux, Option<Endpoint>) {
        if self.occupied.contains(addr) {
            (self, None)
        } else {
            (self.claim(addr), Some(addr))
        }
    }

    /// One turn of the accept loop on `peeked`: the state afterwards, and the
    /// peer of the new connection if one is made. None is made when the peek
    /// failed or its source is reserved.
    pub open spec fn accept(self, peeked: Peek) -> (Mux, Option<Endpoint>) {
        match peeked {
            Peek::Failed => (self, None),
            Peek::From(source) => self.connect(source),
        }
    }

    /// Destroying a connection for `peer`.
    pub open spec fn release(self, peer: Endpoint) -> Mux {
        Mux { occupied: self.occupied.remove(peer), live: self.live.remove(peer) }
    }

    /// The state after `op`.
    pub open spec fn step(self, op: Op) -> Mux {
        match op {
            Op::Connect(addr) => self.connect(addr).0,
            Op::Accept(peeked) => self.accept(peeked).0,
            Op::Release(peer) => self.release(peer),
        }
    }

    /// The state after all of `ops`, first to last.
    pub open spec fn run(self, ops: Seq<Op>) -> Mux
        decreases ops.len(),
    {
        if ops.len() == 0 {
            self
        } else {
            self.run(ops.drop_last()).step(ops.last())
        }
    }

    /// An address is reserved if and only if one connection for it is alive,
    /// and no peer has more than one.
    pub open spec fn consistent(self) -> bool {
        forall|p: Endpoint|
            #[trigger] self.live.count(p) == if self.occupied.contains(p) {
                1nat
            } else {
                0nat
            }
    }
}

/// What a connection to `peer` does after `peeked`: it receives exactly when
/// the datagram at the head of the queue is from `peer`.
pub open spec fn read_decision(peer: Endpoint, peeked: Peek) -> ReadStep {
    if peeked == Peek::From(peer) {
        ReadStep::Receive
    } else {
        ReadStep::Retry
    }
}

/// A datagram in the socket's queue.
pub struct Datagram {
    /// The address that sent it.
    pub source: Endpoint,
    /// What it carries.
    pub payload: Seq<u8>,
}

/// What a peek shows of a queue that holds a datagram: the source of the
/// oldest one.
pub open spec fn head(queue: Seq<Datagram>) -> Peek
    recommends
        queue.len() > 0,
{
    Peek::From(queue.first().source)
}

/// One turn of the read loop of the connection to `peer`: the queue
/// afterwards, and the datagram that the read returns if it returns. On an
/// empty queue the reader waits.
pub open spec fn read_turn(peer: Endpoint, queue: Seq<Datagram>) -> (
    Seq<Datagram>,
    Option<Datagram>,
) {
    if queue.len() > 0 && read_decision(peer, head(queue)) is Receive {
        (queue.drop_first(), Some(queue.first()))
    } else {
        (queue, None)
    }
}

/// The datagrams that the reads return, each with the peer of the connection
/// that it went to, when the connections to `readers` take one turn each in
/// that order.
pub open spec fn deliveries(readers: Seq<Endpoint>, queue: Seq<Datagram>) -> Seq<
    (Endpoint, Datagram),
>
    decreases readers.len(),
{
    if readers.len() == 0 {
        Seq::empty()
    } else {
        let (rest, got) = read_turn(readers.first(), queue);
        let later = deliveries(readers.drop_first(), rest);
        match got {
            Some(datagram) => seq![(readers.first(), datagram)] + later,
            None => later,
        }
    }
}

/// In a consistent state no peer has more than one live connection, and the
/// registry holds exactly the peers that have one.
pub proof fn lemma_at_most_one_live(m: Mux, p: Endpoint)
    requires
        m.consistent(),
    ensures
        m.live.count(p) <= 1,
        m.occupied.contains(p) <==> m.live.count(p) == 1,
{
    assert(m.live.count(p) == if m.occupied.contains(p) {
        1nat
    } else {
        0nat
    });
}

/// Every transition keeps the registry and the live connections consistent.
pub proof fn lemma_step_consistent(m: Mux, op: Op)
    requires
        m.consistent(),
    ensures
        m.step(op).consistent(),
{
    let n = m.step(op);
    assert forall|p: Endpoint|
        #[trigger] n.live.count(p) == if n.occupied.contains(p) {
            1nat
        } else {
            0nat
        } by {
        lemma_at_most_one_live(m, p);
    }
}

/// Mutual exclusion: whatever was asked of a multiplexer since bind, no peer
/// has more than one live connection, and the registry holds exactly the
/// peers that have one.
pub proof fn lemma_mutual_exclusion(ops: Seq<Op>, p: Endpoint)
    ensures
        Mux::empty().run(ops).consistent(),
        Mux::empty().run(ops).live.count(p) <= 1,
        Mux::empty().run(ops).occupied.contains(p) <==> Mux::empty().run(ops).live.count(p) == 1,
    decreases ops.len(),
{
    if ops.len() > 0 {
        lemma_mutual_exclusion(ops.drop_last(), p);
        lemma_step_consistent(Mux::empty().run(ops.drop_last()), ops.last());
    }
    lemma_at_most_one_live(Mux::empty().run(ops), p);
}

/// Connecting to `p` is refused if and only if a live connection holds `p`.
pub proof fn lemma_connect_refused_iff_held(m: Mux, p: Endpoint)
    requires
        m.consistent(),
    ensures
        m.connect(p).1 is None <==> m.live.count(p) >= 1,
        m.connect(p).1 is Some ==> m.connect(p).1 == Some(p),
{
    lemma_at_most_one_live(m, p);
}

/// An address is reclaimable: once the connection for `p` is destroyed, a
/// connect to `p` succeeds, and so does an accept on a datagram from `p`.
pub proof fn lemma_released_peer_is_free(m: Mux, p: Endpoint)
    ensures
        m.release(p).connect(p).1 == Some(p),
        m.release(p).accept(Peek::From(p)).1 == Some(p),
        m.consistent() ==> m.release(p).live.count(p) == 0,
{
    if m.consistent() {
        lemma_at_most_one_live(m, p);
    }
}

/// A read takes a datagram only from the connection's own peer, and of two
/// connections with different peers at most one takes the datagram at the
/// head of the queue.
pub proof fn lemma_read_only_from_peer(a: Endpoint, b: Endpoint, peeked: Peek)
    ensures
        read_decision(a, peeked) is Receive <==> peeked == Peek::From(a),
        peeked is Failed ==> read_decision(a, peeked) is Retry,
        a != b ==> !(read_decision(a, peeked) is Receive && read_decision(b, peeked) is Receive),
{
}

/// A read returns the oldest datagram, and only if its source is the
/// connection's peer. A read that returns nothing takes nothing from the
/// queue, so a datagram for another peer stays where it is.
pub proof fn lemma_read_returns_own_datagram(peer: Endpoint, queue: Seq<Datagram>)
    ensures
        match read_turn(peer, queue).1 {
            Some(datagram) => queue.len() > 0 && datagram == queue.first()
                && datagram.source == peer && read_turn(peer, queue).0 == queue.drop_first(),
            None => read_turn(peer, queue).0 == queue,
        },
        read_turn(peer, queue).1 is Some <==> queue.len() > 0 && queue.first().source == peer,
{
}

/// However the turns of any number of connections interleave on one queue,
/// no read returns a datagram whose source differs from the peer of the
/// connection that read it.
pub proof fn lemma_deliveries_match_readers(readers: Seq<Endpoint>, queue: Seq<Datagram>, i: int)
    requires
        0 <= i < deliveries(readers, queue).len(),
    ensures
        deliveries(readers, queue)[i].1.source == deliveries(readers, queue)[i].0,
    decreases readers.len(),
{
    let (rest, got) = read_turn(readers.first(), queue);
    let later = deliveries(readers.drop_first(), rest);
    match got {
        Some(datagram) => {
            if i > 0 {
                lemma_deliveries_match_readers(readers.drop_first(), rest, i - 1);
            }
        },
        None => {
            lemma_deliveries_match_readers(readers.drop_first(), rest, i);
        },
    }
}

/// The datagram that made accept claim a peer is still at the head of the
/// queue, and the read of the new connection returns it.
pub proof fn lemma_accepted_peer_reads_its_datagram(m: Mux, queue: Seq<Datagram>, p: Endpoint)
    requires
        queue.len() > 0,
        m.accept(head(queue)).1 == Some(p),
    ensures
        read_turn(p, queue).1 == Some(queue.first()),
        queue.first().source == p,
{
}

/// Accept makes a connection only for the source of the peeked datagram, and
/// only when no live connection holds that source. A datagram that accept
/// claims is therefore one that no existing connection would receive.
pub proof fn lemma_accept_only_new_peer(m: Mux, peeked: Peek, p: Endpoint)
    requires
        m.consistent(),
        m.accept(peeked).1 == Some(p),
    ensures
        peeked == Peek::From(p),
        !m.occupied.contains(p),
        m.live.count(p) == 0,
        m.accept(peeked).0.live.count(p) == 1,
{
    lemma_at_most_one_live(m, p);
}

/// A datagram from a peer that a live connection holds is left to that
/// connection: accept does not claim it, and the state does not change.
pub proof fn lemma_accept_leaves_known_peer(m: Mux, p: Endpoint)
    requires
        m.occupied.contains(p),
    ensures
        m.accept(Peek::From(p)).1 is None,
        m.accept(Peek::From(p)).0 == m,
        read_decision(p, Peek::From(p)) is Receive,
{
}

/// Two accepts on datagrams from two distinct new peers each make a
/// connection, for distinct peers, and in either order the same state
/// results.
pub proof fn lemma_accept_two_new_peers(m: Mux, a: Endpoint, b: Endpoint)
    requires
        m.consistent(),
        a != b,
        !m.occupied.contains(a),
        !m.occupied.contains(b),
    ensures
        ({
            let first = m.accept(Peek::From(a));
            let second = first.0.accept(Peek::From(b));
            let swapped = m.accept(Peek::From(b)).0.accept(Peek::From(a));
            &&& first.1 == Some(a)
            &&& second.1 == Some(b)
            &&& second.0 == swapped.0
            &&& second.0.consistent()
            &&& second.0.live.count(a) == 1
            &&& second.0.live.count(b) == 1
        }),
{
    let first = m.accept(Peek::From(a));
    let second = first.0.accept(Peek::From(b));
    let swapped = m.accept(Peek::From(b)).0.accept(Peek::From(a));
    assert(second.0 =~= swapped.0);
    lemma_step_consistent(m, Op::Accept(Peek::From(a)));
    lemma_step_consistent(first.0, Op::Accept(Peek::From(b)));
    lemma_at_most_one_live(m, a);
    lemma_at_most_one_live(m, b);
}

} // verus!
