//! Sockets with custom implementations.
//!
//! The crate has two parts. The traits [`AsyncBackend`], [`AsyncListener`] and
//! [`AsyncConnection`] are the call surface that every transport offers:
//! bind, listen, connect, accept, read, write and close. The module
//! [`udp_single_sock`] is the core of one such transport: it gives
//! connectionless datagrams the shape of connections, one per peer address,
//! over a single shared socket.
//!
//! Nothing here touches a socket. The multiplexer is driven by what a peek at
//! the socket's queue showed, and answers with the next thing to do; whoever
//! owns the socket performs it.

use vstd::prelude::*;

pub mod endpoint;
pub mod error;
pub mod message;
pub mod model;
pub mod registry;
pub mod udp_single_sock;

pub use crate::endpoint::Endpoint;
pub use crate::error::Error;
pub use crate::udp_single_sock::Udp as UdpSingle;

verus! {

/// A socket backend: the owner of a local address from which listeners and
/// connections are made.
pub trait AsyncBackend {
    /// The error type that is returned by the backend.
    type Error;

    /// The listener type that is used to accept incoming connections.
    type Listener<'a>: AsyncListener<Connection<'a> = Self::Connection<'a>, Error = Self::Error>
    where
        Self: 'a;

    /// The connection type that is used to send and receive data.
    type Connection<'a>: AsyncConnection<Error = Self::Error>
    where
        Self: 'a;

    /// Binds the socket to the specified address and returns the socket.
    fn bind(addr: Endpoint) -> Result<Self, Self::Error>
    where
        Self: Sized;

    /// Returns the view of this backend that accepts incoming connections.
    fn listen(&self) -> Result<Self::Listener<'_>, Self::Error>;

    /// Connects to a remote address and returns the connection.
    fn connect(&self, addr: Endpoint) -> Result<Self::Connection<'_>, Self::Error>;
}

/// A listener that accepts incoming connections.
pub trait AsyncListener {
    /// The error type that is returned by the listener.
    type Error;

    /// The connection type that is accepted by the listener.
    type Connection<'a>: AsyncConnection<Error = Self::Error>
    where
        Self: 'a;

    /// Waits for a new peer. On success, returns the connection and the
    /// remote address.
    fn accept(&self) -> Result<(Self::Connection<'_>, Endpoint), Self::Error>;

    /// Closes the listener.
    fn close(self) -> Result<(), Self::Error>;
}

/// A connection: the basic API for sending and receiving data.
pub trait AsyncConnection {
    /// The error type that is returned by the connection.
    type Error;

    /// Receives a single message into `buf`. On success, returns the number of
    /// bytes read, which is never more than `buf` can hold.
    fn read(&mut self, buf: &mut [u8]) -> (r: Result<usize, Self::Error>)
        ensures
            final(buf)@.len() == old(buf)@.len(),
            r matches Ok(n) ==> n <= old(buf)@.len(),
    ;

    /// Sends `buf`. On success, returns the number of bytes written, which is
    /// never more than `buf` holds.
    fn write(&mut self, buf: &[u8]) -> (r: Result<usize, Self::Error>)
        ensures
            r matches Ok(n) ==> n <= buf@.len(),
    ;

    /// Closes the connection.
    fn close(self) -> Result<(), Self::Error>;
}

} // verus!
