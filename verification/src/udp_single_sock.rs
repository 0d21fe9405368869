//! Connections over a single datagram socket.
//!
//! Plain datagrams know no connections. A [`Udp`] makes them up: each
//! [`Connection`] stands for one peer address, and the registry inside the
//! `Udp` sees to it that no peer has two. The socket's queue is shared by the
//! listener and all connections, so nobody takes a datagram before a peek has
//! shown whose it is: [`Udp::accept`] claims the source of a peeked
//! datagram only when no connection holds it, and [`Connection::read`]
//! receives only when the source is the connection's own peer.
//!
//! The socket is not in this module. Its owner peeks, hands the outcome to
//! the step functions as a [`Peek`], and does what they answer.

use vstd::prelude::*;
use vstd::multiset::Multiset;
use crate::endpoint::Endpoint;
use crate::error::Error;
use crate::model::{
    Mux, Op, Peek, ReadStep, lemma_connect_refused_iff_held, lemma_step_consistent, read_decision,
};
use crate::registry::Registry;

verus! {

/// The multiplexer of one datagram socket: the local address that the socket
/// is bound to, and the registry of the peers that have a connection.
pub struct Udp {
    local: Endpoint,
    occupied: Registry,
    live: Ghost<Multiset<Endpoint>>,
}

/// A logical connection to one peer.
///
/// A connection is made by [`Udp::connect`] or [`Udp::accept`] and by
/// nothing else, and it cannot be copied. It is alive until it is handed to
/// [`Udp::release`] or closed by [`Connection::close`], which take it for
/// good.
#[derive(Debug)]
pub struct Connection {
    peer: Endpoint,
}

/// What the listener does after a peek.
#[derive(Debug)]
pub enum AcceptStep {
    /// Look again: the peek failed, or the datagram is for a connection that
    /// exists. The datagram stays queued for its owner.
    Retry,
    /// A new peer: the connection made for it, and its address.
    Accepted(Connection, Endpoint),
}

impl View for Connection {
    type V = Endpoint;

    /// The peer that the connection is bound to.
    closed spec fn view(&self) -> Endpoint {
        self.peer
    }
}

impl Connection {
    /// The address of the peer. This is where a write goes.
    pub fn peer(&self) -> (p: Endpoint)
        ensures
            p == self@,
    {
        self.peer
    }

    /// Closes the connection. Nothing goes over the network; the call always
    /// succeeds, and the connection is destroyed as by [`Udp::release`] on
    /// `back`, the multiplexer that made it.
    pub fn close(self, back: &mut Udp) -> (r: Result<(), Error>)
        ensures
            r is Ok,
            final(back).local() == old(back).local(),
            final(back)@ == old(back)@.release(self@),
            old(back)@.consistent() ==> final(back)@.consistent(),
    {
        back.release(self);
        Ok(())
    }

    /// One turn of the read loop.
    ///
    /// Answers [`ReadStep::Receive`] if and only if `peeked` shows a datagram
    /// from this connection's peer, and [`ReadStep::Retry`] otherwise: on a
    /// datagram for someone else, and on a failed peek.
    pub fn read(&self, peeked: Peek) -> (step: ReadStep)
        ensures
            step == read_decision(self@, peeked),
    {
        match peeked {
            Peek::From(source) => {
                if source == self.peer {
                    ReadStep::Receive
                } else {
                    ReadStep::Retry
                }
            },
            Peek::Failed => ReadStep::Retry,
        }
    }
}

impl View for Udp {
    type V = Mux;

    /// The registry, and the peers of the connections that were made here and
    /// not yet released.
    closed spec fn view(&self) -> Mux {
        Mux { occupied: self.occupied@, live: self.live@ }
    }
}

impl Udp {
    /// The local address that the socket is bound to.
    pub closed spec fn local(&self) -> Endpoint {
        self.local
    }

    /// The multiplexer for a socket bound to `addr`. No peer is known yet.
    pub fn bind(addr: Endpoint) -> (udp: Udp)
        ensures
            udp.local() == addr,
            udp@ == Mux::empty(),
            udp@.consistent(),
    {
        Udp { local: addr, occupied: Registry::new(), live: Ghost(Multiset::empty()) }
    }

    /// Computes [`Udp::local`].
    pub fn local_addr(&self) -> (addr: Endpoint)
        ensures
            addr == self.local(),
    {
        self.local
    }

    /// The listener of this socket, which is the multiplexer itself: one
    /// socket serves both the active and the passive role. What the listener
    /// accepts is accepted here.
    pub fn listen(&mut self) -> (listener: &mut Udp)
        ensures
            *listener == *old(self),
            *final(self) == *final(listener),
    {
        self
    }

    /// Reserves `addr` and makes the connection for it. No datagram is sent
    /// or awaited.
    ///
    /// Fails with [`Error::AddressInUse`] if and only if `addr` is reserved
    /// already, and then changes nothing.
    pub fn connect(&mut self, addr: Endpoint) -> (r: Result<Connection, Error>)
        ensures
            final(self).local() == old(self).local(),
            final(self)@ == old(self)@.connect(addr).0,
            match r {
                Ok(conn) => old(self)@.connect(addr).1 == Some(conn@),
                Err(e) => old(self)@.connect(addr).1 is None && e == Error::AddressInUse,
            },
            old(self)@.consistent() ==> final(self)@.consistent(),
            old(self)@.consistent() ==> (r is Err <==> old(self)@.live.count(addr) >= 1),
    {
        proof {
            if self@.consistent() {
                lemma_connect_refused_iff_held(self@, addr);
                lemma_step_consistent(self@, Op::Connect(addr));
            }
        }
        match self.occupied.reserve(addr) {
            Ok(()) => {
                self.live = Ghost(self.live@.insert(addr));
                Ok(Connection { peer: addr })
            },
            Err(e) => Err(e),
        }
    }

    /// One turn of the accept loop.
    ///
    /// On a datagram from a source that no connection holds, reserves the
    /// source and answers [`AcceptStep::Accepted`] with the new connection and
    /// its peer address. Otherwise answers [`AcceptStep::Retry`] and changes
    /// nothing: on a failed peek, and on a datagram from a reserved source.
    pub fn accept(&mut self, peeked: Peek) -> (step: AcceptStep)
        ensures
            final(self).local() == old(self).local(),
            final(self)@ == old(self)@.accept(peeked).0,
            match step {
                AcceptStep::Accepted(conn, peer) => old(self)@.accept(peeked).1 == Some(peer)
                    && conn@ == peer,
                AcceptStep::Retry => old(self)@.accept(peeked).1 is None,
            },
            old(self)@.consistent() ==> final(self)@.consistent(),
    {
        match peeked {
            Peek::Failed => AcceptStep::Retry,
            Peek::From(source) => {
                match self.connect(source) {
                    Ok(conn) => AcceptStep::Accepted(conn, source),
                    Err(_) => AcceptStep::Retry,
                }
            },
        }
    }

    /// Destroys `conn`: its peer address leaves the registry and can be
    /// claimed again.
    pub fn release(&mut self, conn: Connection)
        ensures
            final(self).local() == old(self).local(),
            final(self)@ == old(self)@.release(conn@),
            old(self)@.consistent() ==> final(self)@.consistent(),
    {
        proof {
            if self@.consistent() {
                lemma_step_consistent(self@, Op::Release(conn@));
            }
        }
        let _ = self.occupied.release(conn.peer);
        self.live = Ghost(self.live@.remove(conn.peer));
    }
}

} // verus!
