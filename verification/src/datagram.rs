//! The SOCKS5 datagram relay: the header that every relayed datagram
//! carries, and the session that keeps the relay alive.

use crate::addr::{SocketAddress, TargetAddr, TargetAddrView};
use crate::codec::{decoded_addr, encodable, encoded_addr, read_addr, write_addr, MAX_ADDR_LEN};
use crate::error::Error;
use crate::stream::Socks5Stream;
use crate::v5::{Command, Handshake};
use crate::wire::{get_u16, put_bytes, put_u16};
use vstd::prelude::*;
use vstd::slice::slice_subrange;

verus! {

/// The length of what stands before the address field: two reserved bytes
/// and the fragment byte.
pub const HEADER_LEN: usize = 3;

/// The datagram that carries `payload` to `target` through the relay: two
/// reserved zero bytes, a zero fragment byte, the address field and the
/// payload.
pub open spec fn datagram_bytes(payload: Seq<u8>, target: TargetAddrView) -> Seq<u8> {
    seq![0u8, 0u8, 0u8] + encoded_addr(target) + payload
}

/// The address and the payload that a relayed datagram carries, or the
/// first thing that is wrong with it. Fragments are not supported: a
/// fragment byte other than zero is a failure.
pub open spec fn datagram_parts(bytes: Seq<u8>) -> Result<(TargetAddrView, Seq<u8>), Error> {
    if bytes.len() < 2 {
        Err(Error::UnexpectedEof)
    } else if bytes[0] != 0 || bytes[1] != 0 {
        Err(Error::InvalidReservedBytes)
    } else if bytes.len() < 3 {
        Err(Error::UnexpectedEof)
    } else if bytes[2] != 0 {
        Err(Error::InvalidFragmentId)
    } else {
        match decoded_addr(bytes.subrange(3, bytes.len() as int)) {
            Ok((source, used)) => Ok((source, bytes.subrange(3 + used, bytes.len() as int))),
            Err(e) => Err(e),
        }
    }
}

/// What receiving a relayed datagram into a buffer of `capacity` bytes
/// gives: its address and payload, or `BufferTooSmall` where the payload
/// does not fit.
pub open spec fn received(bytes: Seq<u8>, capacity: int) -> Result<
    (TargetAddrView, Seq<u8>),
    Error,
> {
    match datagram_parts(bytes) {
        Ok((source, payload)) => if payload.len() <= capacity {
            Ok((source, payload))
        } else {
            Err(Error::BufferTooSmall)
        },
        Err(e) => Err(e),
    }
}

/// Taking a datagram apart gives back the payload and the target that it
/// was built from: the header and the address field are stripped, and
/// nothing else.
pub proof fn lemma_datagram_round_trip(payload: Seq<u8>, target: TargetAddrView)
    requires
        encodable(target),
    ensures
        datagram_parts(datagram_bytes(payload, target)) == Ok::<
            (TargetAddrView, Seq<u8>),
            Error,
        >((target, payload)),
{
    let bytes = datagram_bytes(payload, target);
    let field = encoded_addr(target);
    crate::codec::lemma_addr_round_trip(target, payload);
    assert(bytes.subrange(3, bytes.len() as int) =~= field + payload);
    assert(bytes.subrange(3 + field.len() as int, bytes.len() as int) =~= payload);
}

/// The header and the address field take at most 262 bytes of a datagram.
pub proof fn lemma_datagram_overhead(payload: Seq<u8>, target: TargetAddrView)
    requires
        encodable(target),
    ensures
        datagram_bytes(payload, target).len() == HEADER_LEN + encoded_addr(target).len()
            + payload.len(),
        datagram_bytes(payload, target).len() <= payload.len() + HEADER_LEN + MAX_ADDR_LEN,
{
    crate::codec::lemma_encoded_addr_len(target);
}

/// Builds the datagram that carries `payload` to `target`. Fails with
/// `DomainTooLong` where the target is a domain name of more than 255
/// bytes.
pub fn wrap_datagram(payload: &[u8], target: &TargetAddr) -> (r: Result<Vec<u8>, Error>)
    ensures
        match r {
            Ok(packet) => encodable(target@) && packet@ == datagram_bytes(payload@, target@),
            Err(e) => !encodable(target@) && e == Error::DomainTooLong,
        },
{
    let mut packet: Vec<u8> = Vec::new();
    put_u16(&mut packet, 0);
    packet.push(0);
    assert(packet@ =~= seq![0u8, 0u8, 0u8]);
    match write_addr(&mut packet, target) {
        Ok(()) => {},
        Err(e) => {
            return Err(e);
        },
    }
    put_bytes(&mut packet, payload);
    Ok(packet)
}

/// Takes a relayed datagram apart: checks the header, reads the address,
/// and copies the payload to the start of `buf`. Returns the length of the
/// payload and the address. On a failure `buf` is left as it was.
pub fn unwrap_datagram(datagram: &[u8], buf: &mut [u8]) -> (r: Result<(usize, TargetAddr), Error>)
    ensures
        final(buf)@.len() == old(buf)@.len(),
        match r {
            Ok((n, source)) => {
                &&& received(datagram@, old(buf)@.len() as int) is Ok
                &&& received(datagram@, old(buf)@.len() as int)->Ok_0.0 == source@
                &&& received(datagram@, old(buf)@.len() as int)->Ok_0.1.len() == n
                &&& final(buf)@ == received(datagram@, old(buf)@.len() as int)->Ok_0.1 + old(
                    buf,
                )@.subrange(n as int, old(buf)@.len() as int)
            },
            Err(e) => {
                &&& received(datagram@, old(buf)@.len() as int) == Err::<
                    (TargetAddrView, Seq<u8>),
                    Error,
                >(e)
                &&& final(buf)@ == old(buf)@
            },
        },
{
    let len = datagram.len();
    if len < 2 {
        return Err(Error::UnexpectedEof);
    }
    let reserved = get_u16(slice_subrange(datagram, 0, 2));
    if reserved != 0 {
        return Err(Error::InvalidReservedBytes);
    }
    if len < 3 {
        return Err(Error::UnexpectedEof);
    }
    if datagram[2] != 0 {
        return Err(Error::InvalidFragmentId);
    }
    let (source, used) = match read_addr(slice_subrange(datagram, HEADER_LEN, len)) {
        Ok(found) => found,
        Err(e) => {
            return Err(e);
        },
    };
    let start = HEADER_LEN + used;
    let n = len - start;
    if n > buf.len() {
        return Err(Error::BufferTooSmall);
    }
    let ghost payload = datagram@.subrange(start as int, len as int);
    let ghost before = buf@;
    let mut i: usize = 0;
    while i < n
        invariant
            i <= n,
            n <= before.len(),
            start + n == len,
            len == datagram@.len(),
            buf@.len() == before.len(),
            payload == datagram@.subrange(start as int, len as int),
            buf@ == payload.subrange(0, i as int) + before.subrange(i as int, before.len() as int),
        decreases n - i,
    {
        buf[i] = datagram[start + i];
        assert(buf@ =~= payload.subrange(0, i + 1) + before.subrange(
            i + 1,
            before.len() as int,
        ));
        i += 1;
    }
    assert(payload.subrange(0, n as int) =~= payload);
    Ok((n, source))
}

/// A SOCKS5 UDP client: a datagram socket whose traffic goes through the
/// proxy's relay, and the session over which the relay was asked for.
///
/// The proxy may end the relay as soon as that session's connection
/// closes. The session is therefore kept for as long as the datagram
/// client lives, and is dropped with it; nothing is read from it or written
/// to it again.
#[derive(Debug)]
pub struct Socks5Datagram<U, S> {
    socket: U,
    // keeps the session alive
    stream: Socks5Stream<S>,
}

impl<U, S> Socks5Datagram<U, S> {
    /// The datagram socket.
    pub closed spec fn spec_inner(&self) -> U {
        self.socket
    }

    /// The connection over which the relay was asked for.
    pub closed spec fn spec_control(&self) -> S {
        self.stream.spec_inner()
    }

    /// The address of the proxy's relay.
    pub closed spec fn spec_proxy_addr(&self) -> SocketAddress {
        self.stream.spec_proxy_addr()
    }

    /// Makes the datagram client of a UDP ASSOCIATE handshake that is done:
    /// `control` is the connection on which it was made, `socket` the
    /// datagram socket that will talk to the relay. Any other handshake
    /// gives both back.
    pub fn bind(control: S, handshake: &Handshake, socket: U) -> (r: Result<
        Socks5Datagram<U, S>,
        (S, U),
    >)
        ensures
            match r {
                Ok(datagram) => handshake@ is Done && handshake@.command() == Command::Associate
                    && datagram.spec_inner() == socket && datagram.spec_control() == control
                    && datagram.spec_proxy_addr()@ == handshake@->Done_proxy_addr,
                Err(given_back) => given_back == (control, socket) && !(handshake@ is Done
                    && handshake@.command() == Command::Associate),
            },
    {
        match (handshake.command(), handshake.proxy_addr()) {
            (Command::Associate, Some(proxy_addr)) => Ok(
                Socks5Datagram { socket, stream: Socks5Stream::new(control, proxy_addr) },
            ),
            _ => Err((control, socket)),
        }
    }

    /// Builds the datagram that carries `buf` to `addr`, and names the
    /// address to send it to: the proxy's relay, not `addr`.
    ///
    /// The header that stands before `buf` is 10 bytes long for an IPv4
    /// address, 22 bytes for an IPv6 address, and 7 bytes plus the length of
    /// the name for a domain.
    pub fn send_to(&self, buf: &[u8], addr: &TargetAddr) -> (r: Result<
        (Vec<u8>, SocketAddress),
        Error,
    >)
        ensures
            match r {
                Ok((packet, relay)) => encodable(addr@) && packet@ == datagram_bytes(buf@, addr@)
                    && relay == self.spec_proxy_addr(),
                Err(e) => !encodable(addr@) && e == Error::DomainTooLong,
            },
    {
        match wrap_datagram(buf, addr) {
            Ok(packet) => Ok((packet, self.stream.proxy_addr())),
            Err(e) => Err(e),
        }
    }

    /// Takes apart a datagram that came from the relay: copies its payload
    /// to the start of `buf` and returns the length of the payload and the
    /// address that the datagram names as its source. Fails with
    /// `BufferTooSmall` where `buf` cannot hold the payload.
    pub fn recv_from(&self, datagram: &[u8], buf: &mut [u8]) -> (r: Result<
        (usize, TargetAddr),
        Error,
    >)
        ensures
            final(buf)@.len() == old(buf)@.len(),
            match r {
                Ok((n, source)) => {
                    &&& received(datagram@, old(buf)@.len() as int) is Ok
                    &&& received(datagram@, old(buf)@.len() as int)->Ok_0.0 == source@
                    &&& received(datagram@, old(buf)@.len() as int)->Ok_0.1.len() == n
                    &&& final(buf)@ == received(datagram@, old(buf)@.len() as int)->Ok_0.1 + old(
                        buf,
                    )@.subrange(n as int, old(buf)@.len() as int)
                },
                Err(e) => {
                    &&& received(datagram@, old(buf)@.len() as int) == Err::<
                        (TargetAddrView, Seq<u8>),
                        Error,
                    >(e)
                    &&& final(buf)@ == old(buf)@
                },
            },
    {
        unwrap_datagram(datagram, buf)
    }

    /// The size of the buffer into which a datagram from the relay is to be
    /// read so that a payload of up to `capacity` bytes arrives whole: the
    /// payload, the header and the longest address field. `None` where that
    /// size does not fit in `usize`.
    pub fn scratch_len(capacity: usize) -> (len: Option<usize>)
        ensures
            match len {
                Some(n) => n == capacity + HEADER_LEN + MAX_ADDR_LEN,
                None => capacity + HEADER_LEN + MAX_ADDR_LEN > usize::MAX,
            },
    {
        capacity.checked_add(HEADER_LEN + MAX_ADDR_LEN)
    }

    /// Returns the address of the proxy-side UDP socket through which all
    /// messages will be routed.
    pub fn proxy_addr(&self) -> (addr: SocketAddress)
        ensures
            addr == self.spec_proxy_addr(),
    {
        self.stream.proxy_addr()
    }

    /// Returns a shared reference to the inner socket.
    pub fn get_ref(&self) -> (socket: &U)
        ensures
            *socket == self.spec_inner(),
    {
        &self.socket
    }

    /// Returns a mutable reference to the inner socket. The session and the
    /// address of the relay stay as they are.
    pub fn get_mut(&mut self) -> (socket: &mut U)
        ensures
            *socket == old(self).spec_inner(),
            final(self).spec_inner() == *final(socket),
            final(self).spec_control() == old(self).spec_control(),
            final(self).spec_proxy_addr() == old(self).spec_proxy_addr(),
    {
        &mut self.socket
    }
}

} // verus!
