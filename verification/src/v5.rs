//! SOCKS5: method negotiation, requests, replies and the handshake that
//! strings them together.

use crate::addr::{IpAddressView, SocketAddress, SocketAddressView, TargetAddr, TargetAddrView};
use crate::codec::{decoded_addr, encodable, encoded_addr, read_addr, write_addr, ATYP_IPV4, ATYP_IPV6};
use crate::error::Error;
use crate::wire::put_bytes;
use vstd::prelude::*;

verus! {

/// The protocol version byte.
pub const VERSION: u8 = 5;

/// The method byte for "no authentication".
pub const METHOD_NONE: u8 = 0;

/// The method byte by which the proxy refuses every offered method.
pub const METHOD_REFUSED: u8 = 255;

/// What the client asks the proxy to do.
#[derive(Debug, Clone, Copy, PartialEq, Eq, Structural)]
pub enum Command {
    /// Open a connection to the target.
    Connect,
    /// Listen for one connection from the target.
    Bind,
    /// Relay datagrams.
    Associate,
}

impl Command {
    /// The command byte: 1 for CONNECT, 2 for BIND, 3 for UDP ASSOCIATE.
    pub open spec fn spec_code(self) -> u8 {
        match self {
            Command::Connect => 1,
            Command::Bind => 2,
            Command::Associate => 3,
        }
    }

    /// The command byte: 1 for CONNECT, 2 for BIND, 3 for UDP ASSOCIATE.
    #[verifier::when_used_as_spec(spec_code)]
    pub fn code(self) -> (c: u8)
        ensures
            c == self.spec_code(),
    {
        match self {
            Command::Connect => 1,
            Command::Bind => 2,
            Command::Associate => 3,
        }
    }
}

/// The message that opens every session: version 5, one method offered,
/// and that method is "no authentication".
pub open spec fn greeting_bytes() -> Seq<u8> {
    seq![VERSION, 1u8, METHOD_NONE]
}

/// What the proxy's two-byte answer to the greeting means.
pub open spec fn method_reply(bytes: Seq<u8>) -> Result<(), Error> {
    if bytes.len() < 1 {
        Err(Error::UnexpectedEof)
    } else if bytes[0] != VERSION {
        Err(Error::InvalidResponseVersion)
    } else if bytes.len() < 2 {
        Err(Error::UnexpectedEof)
    } else if bytes[1] == METHOD_NONE {
        Ok(())
    } else if bytes[1] == METHOD_REFUSED {
        Err(Error::NoAcceptableAuthMethods)
    } else {
        Err(Error::UnknownAuthMethod)
    }
}

/// What the status byte of a reply means: 0 is success, 1 to 8 are the
/// failures that the protocol names, and every other value is an unknown
/// error that keeps the byte.
pub open spec fn reply_status(code: u8) -> Result<(), Error> {
    if code == 0 {
        Ok(())
    } else if code == 1 {
        Err(Error::GeneralFailure)
    } else if code == 2 {
        Err(Error::NotAllowedByRuleset)
    } else if code == 3 {
        Err(Error::NetworkUnreachable)
    } else if code == 4 {
        Err(Error::HostUnreachable)
    } else if code == 5 {
        Err(Error::ConnectionRefused)
    } else if code == 6 {
        Err(Error::TtlExpired)
    } else if code == 7 {
        Err(Error::CommandNotSupported)
    } else if code == 8 {
        Err(Error::AddressTypeNotSupported)
    } else {
        Err(Error::UnknownError(code))
    }
}

/// The request for `command` on `target`: version, command, a reserved zero
/// and the address field.
pub open spec fn request_bytes(command: Command, target: TargetAddrView) -> Seq<u8> {
    seq![VERSION, command.spec_code(), 0u8] + encoded_addr(target)
}

/// The address that a reply reports and the length of the reply, or the
/// first thing that is wrong with it. The bytes are looked at in order:
/// version, status, reserved byte, address type, address and port.
pub open spec fn response(bytes: Seq<u8>) -> Result<(SocketAddressView, int), Error> {
    if bytes.len() < 1 {
        Err(Error::UnexpectedEof)
    } else if bytes[0] != VERSION {
        Err(Error::InvalidResponseVersion)
    } else if bytes.len() < 2 {
        Err(Error::UnexpectedEof)
    } else if reply_status(bytes[1]) is Err {
        Err(reply_status(bytes[1])->Err_0)
    } else if bytes.len() < 3 {
        Err(Error::UnexpectedEof)
    } else if bytes[2] != 0 {
        Err(Error::InvalidReservedByte)
    } else if bytes.len() < 4 {
        Err(Error::UnexpectedEof)
    } else if bytes[3] != ATYP_IPV4 && bytes[3] != ATYP_IPV6 {
        Err(Error::UnsupportedAddressType)
    } else {
        match decoded_addr(bytes.subrange(3, bytes.len() as int)) {
            Ok((TargetAddrView::Ip(addr), used)) => Ok((addr, 3 + used)),
            Ok((TargetAddrView::Domain(_, _), _)) => Err(Error::UnsupportedAddressType),
            Err(e) => Err(e),
        }
    }
}

/// The length of the reply that starts with the four bytes `head`, or the
/// failure that these four bytes already show.
pub open spec fn response_length(head: Seq<u8>) -> Result<int, Error> {
    if head.len() < 1 {
        Err(Error::UnexpectedEof)
    } else if head[0] != VERSION {
        Err(Error::InvalidResponseVersion)
    } else if head.len() < 2 {
        Err(Error::UnexpectedEof)
    } else if reply_status(head[1]) is Err {
        Err(reply_status(head[1])->Err_0)
    } else if head.len() < 3 {
        Err(Error::UnexpectedEof)
    } else if head[2] != 0 {
        Err(Error::InvalidReservedByte)
    } else if head.len() < 4 {
        Err(Error::UnexpectedEof)
    } else if head[3] == ATYP_IPV4 {
        Ok(10)
    } else if head[3] == ATYP_IPV6 {
        Ok(22)
    } else {
        Err(Error::UnsupportedAddressType)
    }
}

/// A status byte outside 0 to 8 gives the failure `UnknownError` with that
/// byte, which is none of the failures that the known bytes give; and two
/// different bytes never give the same failure.
pub proof fn lemma_unknown_status_is_distinct(code: u8, other: u8)
    ensures
        code > 8 ==> reply_status(code) == Err::<(), Error>(Error::UnknownError(code)),
        code > 8 && other <= 8 ==> reply_status(code) != reply_status(other),
        code != other ==> reply_status(code) != reply_status(other),
{
}

/// The four leading bytes of a reply tell how long it is: where they show a
/// failure, the whole reply shows the same one; where they give a length,
/// a reply of at least that length is well formed and exactly that long.
pub proof fn lemma_response_length(bytes: Seq<u8>)
    requires
        bytes.len() >= 4,
    ensures
        match response_length(bytes.subrange(0, 4)) {
            Ok(n) => n >= 4 && (bytes.len() >= n ==> response(bytes) is Ok && response(
                bytes,
            )->Ok_0.1 == n) && (bytes.len() < n ==> response(bytes) == Err::<
                (SocketAddressView, int),
                Error,
            >(Error::UnexpectedEof)),
            Err(e) => response(bytes) == Err::<(SocketAddressView, int), Error>(e),
        },
{
    let head = bytes.subrange(0, 4);
    assert(head[0] == bytes[0] && head[1] == bytes[1] && head[2] == bytes[2] && head[3]
        == bytes[3]);
    let rest = bytes.subrange(3, bytes.len() as int);
    assert(rest[0] == bytes[3]);
}

/// The greeting: `[5, 1, 0]`.
pub fn greeting() -> (packet: Vec<u8>)
    ensures
        packet@ == greeting_bytes(),
{
    let mut packet: Vec<u8> = Vec::new();
    packet.push(VERSION);
    packet.push(1);
    packet.push(METHOD_NONE);
    assert(packet@ =~= greeting_bytes());
    packet
}

/// Reads the proxy's answer to the greeting. Only "no authentication" was
/// offered, so that is the only answer that lets the session go on.
pub fn read_method(reply: &[u8]) -> (r: Result<(), Error>)
    ensures
        r == method_reply(reply@),
{
    if reply.len() < 1 {
        return Err(Error::UnexpectedEof);
    }
    if reply[0] != VERSION {
        return Err(Error::InvalidResponseVersion);
    }
    if reply.len() < 2 {
        return Err(Error::UnexpectedEof);
    }
    let method = reply[1];
    if method == METHOD_NONE {
        Ok(())
    } else if method == METHOD_REFUSED {
        Err(Error::NoAcceptableAuthMethods)
    } else {
        Err(Error::UnknownAuthMethod)
    }
}

/// Reads the status byte of a reply.
pub fn read_status(code: u8) -> (r: Result<(), Error>)
    ensures
        r == reply_status(code),
{
    match code {
        0 => Ok(()),
        1 => Err(Error::GeneralFailure),
        2 => Err(Error::NotAllowedByRuleset),
        3 => Err(Error::NetworkUnreachable),
        4 => Err(Error::HostUnreachable),
        5 => Err(Error::ConnectionRefused),
        6 => Err(Error::TtlExpired),
        7 => Err(Error::CommandNotSupported),
        8 => Err(Error::AddressTypeNotSupported),
        _ => Err(Error::UnknownError(code)),
    }
}

/// Builds the request for `command` on `target`. Fails with `DomainTooLong`
/// where the target is a domain name of more than 255 bytes.
pub fn write_request(command: Command, target: &TargetAddr) -> (r: Result<Vec<u8>, Error>)
    ensures
        match r {
            Ok(packet) => encodable(target@) && packet@ == request_bytes(command, target@),
            Err(e) => !encodable(target@) && e == Error::DomainTooLong,
        },
{
    let mut packet: Vec<u8> = Vec::new();
    packet.push(VERSION);
    packet.push(command.code());
    packet.push(0);
    assert(packet@ =~= seq![VERSION, command.spec_code(), 0u8]);
    match write_addr(&mut packet, target) {
        Ok(()) => Ok(packet),
        Err(e) => Err(e),
    }
}

/// Reads a reply: the address that the proxy reports, and the length of the
/// reply. A reply that reports a domain name is refused.
pub fn read_response(buf: &[u8]) -> (r: Result<(SocketAddress, usize), Error>)
    ensures
        match r {
            Ok((addr, used)) => response(buf@) == Ok::<(SocketAddressView, int), Error>(
                (addr@, used as int),
            ) && used <= buf@.len(),
            Err(e) => response(buf@) == Err::<(SocketAddressView, int), Error>(e),
        },
{
    let len = buf.len();
    if len < 1 {
        return Err(Error::UnexpectedEof);
    }
    if buf[0] != VERSION {
        return Err(Error::InvalidResponseVersion);
    }
    if len < 2 {
        return Err(Error::UnexpectedEof);
    }
    match read_status(buf[1]) {
        Ok(()) => {},
        Err(e) => {
            return Err(e);
        },
    }
    if len < 3 {
        return Err(Error::UnexpectedEof);
    }
    if buf[2] != 0 {
        return Err(Error::InvalidReservedByte);
    }
    if len < 4 {
        return Err(Error::UnexpectedEof);
    }
    if buf[3] != ATYP_IPV4 && buf[3] != ATYP_IPV6 {
        return Err(Error::UnsupportedAddressType);
    }
    let rest = vstd::slice::slice_subrange(buf, 3, len);
    match read_addr(rest) {
        Ok((TargetAddr::Ip(addr), used)) => Ok((addr, 3 + used)),
        Ok((TargetAddr::Domain(_, _), _)) => Err(Error::UnsupportedAddressType),
        Err(e) => Err(e),
    }
}

/// Tells from the first four bytes of a reply how long the reply is: 10
/// bytes with an IPv4 address, 22 with an IPv6 address. Fails as
/// `read_response` does on a reply that starts with these bytes.
pub fn response_len(head: &[u8]) -> (r: Result<usize, Error>)
    ensures
        match r {
            Ok(n) => response_length(head@) == Ok::<int, Error>(n as int),
            Err(e) => response_length(head@) == Err::<int, Error>(e),
        },
{
    let len = head.len();
    if len < 1 {
        return Err(Error::UnexpectedEof);
    }
    if head[0] != VERSION {
        return Err(Error::InvalidResponseVersion);
    }
    if len < 2 {
        return Err(Error::UnexpectedEof);
    }
    match read_status(head[1]) {
        Ok(()) => {},
        Err(e) => {
            return Err(e);
        },
    }
    if len < 3 {
        return Err(Error::UnexpectedEof);
    }
    if head[2] != 0 {
        return Err(Error::InvalidReservedByte);
    }
    if len < 4 {
        return Err(Error::UnexpectedEof);
    }
    if head[3] == ATYP_IPV4 {
        Ok(10)
    } else if head[3] == ATYP_IPV6 {
        Ok(22)
    } else {
        Err(Error::UnsupportedAddressType)
    }
}

/// Where a handshake stands.
enum State {
    /// The greeting is to be sent; the method selection is awaited.
    Method { command: Command, request: Vec<u8> },
    /// The request is to be sent; the first four bytes of the reply are
    /// awaited.
    Reply { command: Command, request: Vec<u8> },
    /// The rest of the reply is awaited.
    Address { command: Command, head: Vec<u8>, total: usize },
    /// The proxy has granted the request.
    Done { command: Command, proxy_addr: SocketAddress },
}

/// What a [`Handshake`] stands for.
pub ghost enum HandshakeView {
    /// The greeting is to be sent; the method selection is awaited.
    Method { command: Command, request: Seq<u8> },
    /// The request is to be sent; the first four bytes of the reply are
    /// awaited.
    Reply { command: Command, request: Seq<u8> },
    /// The rest of the reply is awaited.
    Address { command: Command, head: Seq<u8> },
    /// The proxy has granted the request and reported an address.
    Done { command: Command, proxy_addr: SocketAddressView },
}

impl HandshakeView {
    /// The state in which every handshake starts.
    pub open spec fn start(command: Command, target: TargetAddrView) -> HandshakeView {
        HandshakeView::Method { command, request: request_bytes(command, target) }
    }

    /// The command that the handshake is for.
    pub open spec fn command(self) -> Command {
        match self {
            HandshakeView::Method { command, .. } => command,
            HandshakeView::Reply { command, .. } => command,
            HandshakeView::Address { command, .. } => command,
            HandshakeView::Done { command, .. } => command,
        }
    }

    /// The bytes to write to the proxy before anything is read.
    pub open spec fn outgoing(self) -> Seq<u8> {
        match self {
            HandshakeView::Method { .. } => greeting_bytes(),
            HandshakeView::Reply { request, .. } => request,
            _ => Seq::empty(),
        }
    }

    /// The number of bytes to read from the proxy next; 0 once the handshake
    /// is done.
    pub open spec fn wanted(self) -> int {
        match self {
            HandshakeView::Method { .. } => 2,
            HandshakeView::Reply { .. } => 4,
            HandshakeView::Address { head, .. } => match response_length(head) {
                Ok(n) => n - 4,
                Err(_) => 0,
            },
            HandshakeView::Done { .. } => 0,
        }
    }

    /// The state after the bytes `input` have come from the proxy, or the
    /// failure that ends the handshake.
    pub open spec fn step(self, input: Seq<u8>) -> Result<HandshakeView, Error> {
        match self {
            HandshakeView::Method { command, request } => match method_reply(input) {
                Ok(()) => Ok(HandshakeView::Reply { command, request }),
                Err(e) => Err(e),
            },
            HandshakeView::Reply { command, .. } => match response_length(input) {
                Ok(_) => Ok(HandshakeView::Address { command, head: input.subrange(0, 4) }),
                Err(e) => Err(e),
            },
            HandshakeView::Address { command, head } => match response(head + input) {
                Ok((proxy_addr, _)) => Ok(HandshakeView::Done { command, proxy_addr }),
                Err(e) => Err(e),
            },
            HandshakeView::Done { .. } => Ok(self),
        }
    }
}

/// A SOCKS5 handshake, from the greeting to the proxy's reply.
///
/// The handshake does no I/O. It says what to write and how much to read;
/// whoever owns the connection does so and hands the bytes read to
/// [`Handshake::advance`], until nothing more is wanted.
pub struct Handshake {
    state: State,
}

impl View for Handshake {
    type V = HandshakeView;

    closed spec fn view(&self) -> HandshakeView {
        match self.state {
            State::Method { command, request } => HandshakeView::Method { command, request: request@ },
            State::Reply { command, request } => HandshakeView::Reply { command, request: request@ },
            State::Address { command, head, .. } => HandshakeView::Address { command, head: head@ },
            State::Done { command, proxy_addr } => HandshakeView::Done {
                command,
                proxy_addr: proxy_addr@,
            },
        }
    }
}

impl Handshake {
    /// While the rest of a reply is awaited, its four leading bytes are kept,
    /// together with the length that they announce.
    #[verifier::type_invariant]
    spec fn inv(&self) -> bool {
        match self.state {
            State::Address { head, total, .. } => head@.len() == 4 && response_length(head@)
                == Ok::<int, Error>(total as int),
            _ => true,
        }
    }

    /// Starts the handshake for `command` on `target`.
    fn start(command: Command, target: &TargetAddr) -> (r: Result<Handshake, Error>)
        ensures
            match r {
                Ok(h) => encodable(target@) && h@ == HandshakeView::start(command, target@),
                Err(e) => !encodable(target@) && e == Error::DomainTooLong,
            },
    {
        match write_request(command, target) {
            Ok(request) => Ok(Handshake { state: State::Method { command, request } }),
            Err(e) => Err(e),
        }
    }

    /// Starts a CONNECT handshake: the proxy is asked to open a connection
    /// to `target`. Fails with `DomainTooLong`, before anything is to be
    /// written, where the target is a domain name of more than 255 bytes.
    pub fn connect(target: &TargetAddr) -> (r: Result<Handshake, Error>)
        ensures
            match r {
                Ok(h) => encodable(target@) && h@ == HandshakeView::start(
                    Command::Connect,
                    target@,
                ),
                Err(e) => !encodable(target@) && e == Error::DomainTooLong,
            },
    {
        Handshake::start(Command::Connect, target)
    }

    /// Starts a BIND handshake: the proxy is asked to listen for one
    /// connection, and to accept it only from `target`. Fails with
    /// `DomainTooLong`, before anything is to be written, where the target
    /// is a domain name of more than 255 bytes.
    pub fn bind(target: &TargetAddr) -> (r: Result<Handshake, Error>)
        ensures
            match r {
                Ok(h) => encodable(target@) && h@ == HandshakeView::start(Command::Bind, target@),
                Err(e) => !encodable(target@) && e == Error::DomainTooLong,
            },
    {
        Handshake::start(Command::Bind, target)
    }

    /// Starts a UDP ASSOCIATE handshake. The address from which the client
    /// will send is not known to it as the proxy sees it, so the request
    /// names `0.0.0.0:0`.
    pub fn associate() -> (h: Handshake)
        ensures
            h@ == HandshakeView::start(
                Command::Associate,
                TargetAddrView::Ip(
                    SocketAddressView { ip: IpAddressView::V4(seq![0u8, 0u8, 0u8, 0u8]), port: 0 },
                ),
            ),
    {
        let command = Command::Associate;
        let target = TargetAddr::Ip(SocketAddress::v4(0, 0, 0, 0, 0));
        let mut request: Vec<u8> = Vec::new();
        request.push(VERSION);
        request.push(command.code());
        request.push(0);
        assert(request@ =~= seq![VERSION, command.spec_code(), 0u8]);
        let written = write_addr(&mut request, &target);
        assert(written is Ok);
        Handshake { state: State::Method { command, request } }
    }

    /// The command that the handshake is for.
    pub fn command(&self) -> (c: Command)
        ensures
            c == self@.command(),
    {
        match &self.state {
            State::Method { command, .. } => *command,
            State::Reply { command, .. } => *command,
            State::Address { command, .. } => *command,
            State::Done { command, .. } => *command,
        }
    }

    /// The bytes to write to the proxy now: the greeting at the start, the
    /// request once the method is agreed, and nothing after that.
    pub fn outgoing(&self) -> (bytes: Vec<u8>)
        ensures
            bytes@ == self@.outgoing(),
    {
        match &self.state {
            State::Method { .. } => greeting(),
            State::Reply { request, .. } => vstd::slice::slice_to_vec(request.as_slice()),
            _ => Vec::new(),
        }
    }

    /// The number of bytes to read from the proxy and to hand to `advance`;
    /// 0 once the handshake is done.
    pub fn wanted(&self) -> (n: usize)
        ensures
            n == self@.wanted(),
    {
        proof {
            use_type_invariant(self);
        }
        match &self.state {
            State::Method { .. } => 2,
            State::Reply { .. } => 4,
            State::Address { total, .. } => *total - 4,
            State::Done { .. } => 0,
        }
    }

    /// Whether the proxy has granted the request.
    pub fn is_done(&self) -> (done: bool)
        ensures
            done == (self@ is Done),
    {
        match &self.state {
            State::Done { .. } => true,
            _ => false,
        }
    }

    /// The address that the proxy reported, once the handshake is done.
    pub fn proxy_addr(&self) -> (addr: Option<SocketAddress>)
        ensures
            match addr {
                Some(a) => self@ is Done && self@->Done_proxy_addr == a@,
                None => !(self@ is Done),
            },
    {
        match &self.state {
            State::Done { proxy_addr, .. } => Some(*proxy_addr),
            _ => None,
        }
    }

    /// Takes the bytes that were read from the proxy and moves on: from the
    /// method selection to the request, from the head of the reply to its
    /// rest, and from there to the end. A failure ends the handshake. Bytes
    /// beyond those wanted are not looked at, and a finished handshake
    /// stays as it is.
    pub fn advance(self, input: &[u8]) -> (r: Result<Handshake, Error>)
        ensures
            match r {
                Ok(next) => self@.step(input@) == Ok::<HandshakeView, Error>(next@),
                Err(e) => self@.step(input@) == Err::<HandshakeView, Error>(e),
            },
    {
        proof {
            use_type_invariant(&self);
        }
        match self.state {
            State::Method { command, request } => match read_method(input) {
                Ok(()) => Ok(Handshake { state: State::Reply { command, request } }),
                Err(e) => Err(e),
            },
            State::Reply { command, .. } => match response_len(input) {
                Ok(total) => {
                    let head = vstd::slice::slice_to_vec(vstd::slice::slice_subrange(input, 0, 4));
                    proof {
                        let h = input@.subrange(0, 4);
                        assert(h[0] == input@[0] && h[1] == input@[1] && h[2] == input@[2] && h[3]
                            == input@[3]);
                    }
                    Ok(Handshake { state: State::Address { command, head, total } })
                },
                Err(e) => Err(e),
            },
            State::Address { command, head, .. } => {
                let mut reply = head;
                put_bytes(&mut reply, input);
                match read_response(reply.as_slice()) {
                    Ok((proxy_addr, _)) => Ok(
                        Handshake { state: State::Done { command, proxy_addr } },
                    ),
                    Err(e) => Err(e),
                }
            },
            State::Done { command, proxy_addr } => Ok(
                Handshake { state: State::Done { command, proxy_addr } },
            ),
        }
    }
}

/// A handshake that meets a proxy which accepts "no authentication" and
/// grants the request runs as follows: the greeting is written and two
/// bytes are read; the request for the command and target is written and
/// four bytes are read; nothing is written and the rest of the reply is
/// read; then the handshake is done, and holds the address of the reply.
pub proof fn lemma_granted_handshake(command: Command, target: TargetAddrView, reply: Seq<u8>)
    requires
        response(reply) is Ok,
        response(reply)->Ok_0.1 == reply.len(),
    ensures
        ({
            let s0 = HandshakeView::start(command, target);
            let s1 = s0.step(seq![VERSION, METHOD_NONE]);
            &&& s0.outgoing() == greeting_bytes()
            &&& s0.wanted() == 2
            &&& s1 is Ok
            &&& s1->Ok_0.outgoing() == request_bytes(command, target)
            &&& s1->Ok_0.wanted() == 4
            &&& ({
                let s2 = s1->Ok_0.step(reply.subrange(0, 4));
                &&& s2 is Ok
                &&& s2->Ok_0.outgoing() == Seq::<u8>::empty()
                &&& s2->Ok_0.wanted() == reply.len() - 4
                &&& ({
                    let s3 = s2->Ok_0.step(reply.subrange(4, reply.len() as int));
                    &&& s3 == Ok::<HandshakeView, Error>(
                        HandshakeView::Done { command, proxy_addr: response(reply)->Ok_0.0 },
                    )
                    &&& s3->Ok_0.wanted() == 0
                })
            })
        }),
{
    let head = reply.subrange(0, 4);
    let rest = reply.subrange(4, reply.len() as int);
    lemma_response_length(reply);
    assert(head.subrange(0, 4) =~= head);
    assert(head + rest =~= reply);
}

} // verus!
