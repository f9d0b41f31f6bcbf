//! Gather and scatter I/O on a datagram socket.

use vstd::prelude::*;

verus! {

/// A socket that sends one datagram out of two buffers, and receives one
/// into two.
///
/// With it the header of a relayed datagram and its payload need not be
/// copied into one buffer. What the calls return is up to the socket:
/// nothing is promised of it here.
pub trait WritevExt {
    /// What the socket reports when a call fails.
    type Error;

    /// Sends the bytes of `bufs[0]` followed by those of `bufs[1]` as one
    /// datagram, and returns the number of bytes sent.
    fn writev(&self, bufs: [&[u8]; 2]) -> Result<usize, Self::Error>;

    /// Receives one datagram into `bufs[0]` and, once that is full, into
    /// `bufs[1]`, and returns the number of bytes received.
    fn readv(&self, bufs: [&mut [u8]; 2]) -> Result<usize, Self::Error>;
}

} // verus!
