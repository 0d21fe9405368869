//! Messages and buffers.
//!
//! A transport that carries whole messages hands each one to its reader in a
//! single read. The reader's buffer may be shorter than the message; what
//! does not fit is dropped.

use vstd::prelude::*;

verus! {

/// The number of bytes of a message of `message_len` bytes that go into a
/// buffer of `buf_len` bytes.
pub open spec fn copied_len(buf_len: nat, message_len: nat) -> nat {
    if message_len <= buf_len {
        message_len
    } else {
        buf_len
    }
}

/// Copies `message` to the front of `buf`, as far as it fits, and returns the
/// number of bytes copied. The rest of `buf` keeps what it held.
pub fn copy_message(buf: &mut [u8], message: &[u8]) -> (n: usize)
    ensures
        n == copied_len(old(buf)@.len(), message@.len()),
        final(buf)@ == message@.take(n as int) + old(buf)@.skip(n as int),
{
    let n: usize = if message.len() <= buf.len() {
        message.len()
    } else {
        buf.len()
    };
    let mut i: usize = 0;
    while i < n
        invariant
            i <= n,
            n <= message@.len(),
            n <= old(buf)@.len(),
            buf@.len() == old(buf)@.len(),
            buf@ == message@.take(i as int) + old(buf)@.skip(i as int),
        decreases n - i,
    {
        buf[i] = message[i];
        i += 1;
    }
    n
}

} // verus!
