//! Errors of the datagram multiplexer.

use vstd::prelude::*;

verus! {

/// Why an operation on the multiplexer was refused.
#[derive(Clone, Copy, Debug, PartialEq, Eq, Structural)]
pub enum Error {
    /// The peer address is already owned by a live connection.
    AddressInUse,
}

} // verus!
