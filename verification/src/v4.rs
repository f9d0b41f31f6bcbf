//! SOCKS4 and SOCKS4A: the CONNECT request, the reply, the handshake and
//! the session that it gives.

use crate::addr::{IpAddress, IpAddressView, SocketAddress, SocketAddressView, TargetAddr, TargetAddrView};
use crate::error::Error;
use crate::wire::{be16, from_be16, get_u16, put_bytes, put_u16};
use vstd::prelude::*;
use vstd::slice::slice_subrange;
use vstd::utf8::encode_utf8;

verus! {

/// The protocol version byte of a request.
pub const VERSION: u8 = 4;

/// The command byte of CONNECT.
pub const CONNECT: u8 = 1;

/// The length of every reply.
pub const REPLY_LEN: usize = 8;

/// The status byte by which the proxy grants a request.
pub const GRANTED: u8 = 90;

/// Whether SOCKS4 can carry a target: it has no form for an IPv6 address.
pub open spec fn representable(target: TargetAddrView) -> bool {
    match target {
        TargetAddrView::Ip(addr) => addr.ip is V4 && addr.ip.wf(),
        TargetAddrView::Domain(_, _) => true,
    }
}

/// The CONNECT request for a target on behalf of a user.
///
/// An IPv4 target is sent as version, command, port, the four octets, the
/// user id and a zero byte. A domain name is sent the SOCKS4A way: the
/// address is `0.0.0.1`, and the name and a second zero byte follow the
/// user id. Neither the user id nor the name has a length limit.
pub open spec fn request_bytes(target: TargetAddrView, userid: Seq<u8>) -> Seq<u8> {
    match target {
        TargetAddrView::Ip(SocketAddressView { ip: IpAddressView::V4(octets), port }) => {
            seq![VERSION, CONNECT] + be16(port) + octets + userid + seq![0u8]
        },
        TargetAddrView::Domain(name, port) => {
            seq![VERSION, CONNECT] + be16(port) + seq![0u8, 0u8, 0u8, 1u8] + userid + seq![0u8]
                + encode_utf8(name) + seq![0u8]
        },
        _ => Seq::empty(),
    }
}

/// What the status byte of a reply means: 90 is success, 91 to 93 are the
/// failures that the protocol names, and every other value is an invalid
/// code that keeps the byte.
pub open spec fn reply_status(code: u8) -> Result<(), Error> {
    if code == GRANTED {
        Ok(())
    } else if code == 91 {
        Err(Error::RequestRejected)
    } else if code == 92 {
        Err(Error::IdentUnreachable)
    } else if code == 93 {
        Err(Error::IdentMismatch)
    } else {
        Err(Error::InvalidResponseCode(code))
    }
}

/// The address that an eight-byte reply reports, or the first thing that is
/// wrong with it: byte 0 must be zero, byte 1 is the status, bytes 2 and 3
/// are the port and bytes 4 to 7 the IPv4 address, all most significant
/// byte first.
pub open spec fn response(bytes: Seq<u8>) -> Result<SocketAddressView, Error> {
    if bytes.len() < REPLY_LEN {
        Err(Error::UnexpectedEof)
    } else if bytes[0] != 0 {
        Err(Error::InvalidResponseVersion)
    } else if reply_status(bytes[1]) is Err {
        Err(reply_status(bytes[1])->Err_0)
    } else {
        Ok(
            SocketAddressView {
                ip: IpAddressView::V4(bytes.subrange(4, 8)),
                port: from_be16(bytes[2], bytes[3]),
            },
        )
    }
}

/// A status byte outside 90 to 93 gives the failure `InvalidResponseCode`
/// with that byte, which is none of the failures that the known bytes give;
/// and two different bytes never give the same failure.
pub proof fn lemma_unknown_status_is_distinct(code: u8, other: u8)
    ensures
        code < 90 || code > 93 ==> reply_status(code) == Err::<(), Error>(
            Error::InvalidResponseCode(code),
        ),
        (code < 90 || code > 93) && 90 <= other <= 93 ==> reply_status(code) != reply_status(
            other,
        ),
        code != other ==> reply_status(code) != reply_status(other),
{
}

/// A granted reply reports the port that its bytes 2 and 3 write and the
/// address that its bytes 4 to 7 write, most significant byte first.
pub proof fn lemma_granted_reply(bytes: Seq<u8>)
    requires
        bytes.len() >= REPLY_LEN,
        bytes[0] == 0,
        bytes[1] == GRANTED,
    ensures
        response(bytes) is Ok,
        response(bytes)->Ok_0.port == bytes[2] * 256 + bytes[3],
        response(bytes)->Ok_0.ip == IpAddressView::V4(
            seq![bytes[4], bytes[5], bytes[6], bytes[7]],
        ),
{
    assert(bytes.subrange(4, 8) =~= seq![bytes[4], bytes[5], bytes[6], bytes[7]]);
}

/// Reads the status byte of a reply.
pub fn read_status(code: u8) -> (r: Result<(), Error>)
    ensures
        r == reply_status(code),
{
    match code {
        90 => Ok(()),
        91 => Err(Error::RequestRejected),
        92 => Err(Error::IdentUnreachable),
        93 => Err(Error::IdentMismatch),
        _ => Err(Error::InvalidResponseCode(code)),
    }
}

/// Builds the CONNECT request for `target` on behalf of `userid`. Fails
/// with `Ipv6NotSupported` where the target is an IPv6 address.
pub fn write_request(target: &TargetAddr, userid: &str) -> (r: Result<Vec<u8>, Error>)
    ensures
        match r {
            Ok(packet) => representable(target@) && packet@ == request_bytes(
                target@,
                encode_utf8(userid@),
            ),
            Err(e) => !representable(target@) && e == Error::Ipv6NotSupported,
        },
{
    broadcast use vstd::array::group_array_axioms;

    let mut packet: Vec<u8> = Vec::new();
    packet.push(VERSION);
    packet.push(CONNECT);
    match target {
        TargetAddr::Ip(addr) => {
            match addr.ip {
                IpAddress::V4(octets) => {
                    put_u16(&mut packet, addr.port);
                    packet.push(octets[0]);
                    packet.push(octets[1]);
                    packet.push(octets[2]);
                    packet.push(octets[3]);
                    assert(packet@ =~= seq![VERSION, CONNECT] + be16(addr.port) + octets@);
                    put_bytes(&mut packet, userid.as_bytes());
                    packet.push(0);
                },
                IpAddress::V6(_) => {
                    return Err(Error::Ipv6NotSupported);
                },
            }
        },
        TargetAddr::Domain(name, port) => {
            put_u16(&mut packet, *port);
            packet.push(0);
            packet.push(0);
            packet.push(0);
            packet.push(1);
            assert(packet@ =~= seq![VERSION, CONNECT] + be16(*port) + seq![0u8, 0u8, 0u8, 1u8]);
            put_bytes(&mut packet, userid.as_bytes());
            packet.push(0);
            put_bytes(&mut packet, name.as_str().as_bytes());
            packet.push(0);
        },
    }
    assert(packet@ =~= request_bytes(target@, encode_utf8(userid@)));
    Ok(packet)
}

/// Reads an eight-byte reply: the address that the proxy reports.
pub fn read_response(reply: &[u8]) -> (r: Result<SocketAddress, Error>)
    ensures
        match r {
            Ok(addr) => response(reply@) == Ok::<SocketAddressView, Error>(addr@),
            Err(e) => response(reply@) == Err::<SocketAddressView, Error>(e),
        },
{
    broadcast use vstd::array::group_array_axioms;

    if reply.len() < REPLY_LEN {
        return Err(Error::UnexpectedEof);
    }
    if reply[0] != 0 {
        return Err(Error::InvalidResponseVersion);
    }
    match read_status(reply[1]) {
        Ok(()) => {},
        Err(e) => {
            return Err(e);
        },
    }
    let port = get_u16(slice_subrange(reply, 2, 4));
    let octets: [u8; 4] = [reply[4], reply[5], reply[6], reply[7]];
    assert(octets@ =~= reply@.subrange(4, 8));
    Ok(SocketAddress { ip: IpAddress::V4(octets), port })
}

/// Where a handshake stands.
enum State {
    /// The request is to be sent; the reply is awaited.
    Reply { request: Vec<u8> },
    /// The proxy has granted the request.
    Done { proxy_addr: SocketAddress },
}

/// What a [`Socks4Handshake`] stands for.
pub ghost enum Socks4HandshakeView {
    /// The request is to be sent; the reply is awaited.
    Reply { request: Seq<u8> },
    /// The proxy has granted the request and reported an address.
    Done { proxy_addr: SocketAddressView },
}

impl Socks4HandshakeView {
    /// The bytes to write to the proxy before anything is read.
    pub open spec fn outgoing(self) -> Seq<u8> {
        match self {
            Socks4HandshakeView::Reply { request } => request,
            Socks4HandshakeView::Done { .. } => Seq::empty(),
        }
    }

    /// The number of bytes to read from the proxy next; 0 once the handshake
    /// is done.
    pub open spec fn wanted(self) -> int {
        match self {
            Socks4HandshakeView::Reply { .. } => REPLY_LEN as int,
            Socks4HandshakeView::Done { .. } => 0,
        }
    }

    /// The state after the bytes `input` have come from the proxy, or the
    /// failure that ends the handshake.
    pub open spec fn step(self, input: Seq<u8>) -> Result<Socks4HandshakeView, Error> {
        match self {
            Socks4HandshakeView::Reply { .. } => match response(input) {
                Ok(proxy_addr) => Ok(Socks4HandshakeView::Done { proxy_addr }),
                Err(e) => Err(e),
            },
            Socks4HandshakeView::Done { .. } => Ok(self),
        }
    }
}

/// A SOCKS4 handshake: one request, one reply.
///
/// The handshake does no I/O. It says what to write and how much to read;
/// whoever owns the connection does so and hands the bytes read to
/// [`Socks4Handshake::advance`].
pub struct Socks4Handshake {
    state: State,
}

impl View for Socks4Handshake {
    type V = Socks4HandshakeView;

    closed spec fn view(&self) -> Socks4HandshakeView {
        match self.state {
            State::Reply { request } => Socks4HandshakeView::Reply { request: request@ },
            State::Done { proxy_addr } => Socks4HandshakeView::Done { proxy_addr: proxy_addr@ },
        }
    }
}

impl Socks4Handshake {
    /// Starts a CONNECT handshake for `target` on behalf of `userid`. Fails
    /// with `Ipv6NotSupported`, before anything is to be written, where the
    /// target is an IPv6 address.
    pub fn connect(target: &TargetAddr, userid: &str) -> (r: Result<Socks4Handshake, Error>)
        ensures
            match r {
                Ok(h) => representable(target@) && h@ == (Socks4HandshakeView::Reply {
                    request: request_bytes(target@, encode_utf8(userid@)),
                }),
                Err(e) => !representable(target@) && e == Error::Ipv6NotSupported,
            },
    {
        match write_request(target, userid) {
            Ok(request) => Ok(Socks4Handshake { state: State::Reply { request } }),
            Err(e) => Err(e),
        }
    }

    /// The bytes to write to the proxy now: the request at the start, and
    /// nothing after that.
    pub fn outgoing(&self) -> (bytes: Vec<u8>)
        ensures
            bytes@ == self@.outgoing(),
    {
        match &self.state {
            State::Reply { request } => vstd::slice::slice_to_vec(request.as_slice()),
            State::Done { .. } => Vec::new(),
        }
    }

    /// The number of bytes to read from the proxy and to hand to `advance`;
    /// 0 once the handshake is done.
    pub fn wanted(&self) -> (n: usize)
        ensures
            n == self@.wanted(),
    {
        match &self.state {
            State::Reply { .. } => REPLY_LEN,
            State::Done { .. } => 0,
        }
    }

    /// Whether the proxy has granted the request.
    pub fn is_done(&self) -> (done: bool)
        ensures
            done == (self@ is Done),
    {
        match &self.state {
            State::Done { .. } => true,
            _ => false,
        }
    }

    /// The address that the proxy reported, once the handshake is done.
    pub fn proxy_addr(&self) -> (addr: Option<SocketAddress>)
        ensures
            match addr {
                Some(a) => self@ is Done && self@->Done_proxy_addr == a@,
                None => !(self@ is Done),
            },
    {
        match &self.state {
            State::Done { proxy_addr } => Some(*proxy_addr),
            _ => None,
        }
    }

    /// Takes the reply that was read from the proxy. A granted request ends
    /// the handshake with the address of the reply; anything else is a
    /// failure. A finished handshake stays as it is.
    pub fn advance(self, input: &[u8]) -> (r: Result<Socks4Handshake, Error>)
        ensures
            match r {
                Ok(next) => self@.step(input@) == Ok::<Socks4HandshakeView, Error>(next@),
                Err(e) => self@.step(input@) == Err::<Socks4HandshakeView, Error>(e),
            },
    {
        match self.state {
            State::Reply { .. } => match read_response(input) {
                Ok(proxy_addr) => Ok(Socks4Handshake { state: State::Done { proxy_addr } }),
                Err(e) => Err(e),
            },
            State::Done { proxy_addr } => Ok(Socks4Handshake { state: State::Done { proxy_addr } }),
        }
    }
}

/// A SOCKS4 client: the connection to the proxy, which now carries the
/// traffic of the target, and the address that the proxy reported.
#[derive(Debug)]
pub struct Socks4Stream<S> {
    socket: S,
    proxy_addr: SocketAddress,
}

impl<S> Socks4Stream<S> {
    /// The connection that the session owns.
    pub closed spec fn spec_inner(&self) -> S {
        self.socket
    }

    /// The address that the proxy reported.
    pub closed spec fn spec_proxy_addr(&self) -> SocketAddress {
        self.proxy_addr
    }

    /// Makes the session of a handshake that is done, over the connection
    /// on which it was made. A handshake that is not done gives the
    /// connection back.
    pub fn connect(socket: S, handshake: &Socks4Handshake) -> (r: Result<Socks4Stream<S>, S>)
        ensures
            match r {
                Ok(stream) => handshake@ is Done && stream.spec_inner() == socket
                    && stream.spec_proxy_addr()@ == handshake@->Done_proxy_addr,
                Err(given_back) => given_back == socket && !(handshake@ is Done),
            },
    {
        match handshake.proxy_addr() {
            Some(proxy_addr) => Ok(Socks4Stream { socket, proxy_addr }),
            None => Err(socket),
        }
    }

    /// Returns the proxy-side address of the connection between the proxy
    /// and the target server.
    pub fn proxy_addr(&self) -> (addr: SocketAddress)
        ensures
            addr == self.spec_proxy_addr(),
    {
        self.proxy_addr
    }

    /// Returns a shared reference to the inner connection.
    pub fn get_ref(&self) -> (socket: &S)
        ensures
            *socket == self.spec_inner(),
    {
        &self.socket
    }

    /// Returns a mutable reference to the inner connection. The address that
    /// the proxy reported stays as it is.
    pub fn get_mut(&mut self) -> (socket: &mut S)
        ensures
            *socket == old(self).spec_inner(),
            final(self).spec_inner() == *final(socket),
            final(self).spec_proxy_addr() == old(self).spec_proxy_addr(),
    {
        &mut self.socket
    }

    /// Consumes the session, returning the inner connection.
    pub fn into_inner(self) -> (socket: S)
        ensures
            socket == self.spec_inner(),
    {
        self.socket
    }
}

} // verus!
