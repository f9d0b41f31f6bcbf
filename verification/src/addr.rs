//! Connection targets: a resolved address and port, or a domain name and
//! port that the proxy resolves.

use crate::error::Error;
use crate::parse::{last_index_of, parse_port, port_literal, rfind_byte, COLON};
use vstd::prelude::*;
use vstd::slice::slice_subrange;
use vstd::utf8::{decode_utf8, encode_utf8};

verus! {

/// An internet address.
#[derive(Debug, Clone, Copy, PartialEq, Eq, Hash)]
pub enum IpAddress {
    /// An IPv4 address, as its four octets.
    V4([u8; 4]),
    /// An IPv6 address, as its eight 16-bit groups.
    V6([u16; 8]),
}

/// What an [`IpAddress`] stands for.
pub ghost enum IpAddressView {
    V4(Seq<u8>),
    V6(Seq<u16>),
}

impl View for IpAddress {
    type V = IpAddressView;

    open spec fn view(&self) -> IpAddressView {
        match *self {
            IpAddress::V4(octets) => IpAddressView::V4(octets@),
            IpAddress::V6(segments) => IpAddressView::V6(segments@),
        }
    }
}

impl IpAddressView {
    /// Four octets, or eight groups.
    pub open spec fn wf(self) -> bool {
        match self {
            IpAddressView::V4(octets) => octets.len() == 4,
            IpAddressView::V6(segments) => segments.len() == 8,
        }
    }
}

impl IpAddress {
    /// Whether this is an IPv4 address.
    pub fn is_ipv4(&self) -> (b: bool)
        ensures
            b == (self@ is V4),
    {
        match self {
            IpAddress::V4(_) => true,
            IpAddress::V6(_) => false,
        }
    }

    /// Two addresses with the same view are the same address.
    pub proof fn lemma_view_injective(a: IpAddress, b: IpAddress)
        requires
            a@ == b@,
        ensures
            a == b,
    {
        broadcast use vstd::array::group_array_axioms;

        match (a, b) {
            (IpAddress::V4(x), IpAddress::V4(y)) => {
                assert(x@ == y@);
                assert(x =~= y);
            },
            (IpAddress::V6(x), IpAddress::V6(y)) => {
                assert(x@ == y@);
                assert(x =~= y);
            },
            _ => {},
        }
    }

    /// Every address has four octets or eight groups.
    pub proof fn lemma_view_wf(a: IpAddress)
        ensures
            a@.wf(),
    {
        broadcast use vstd::array::group_array_axioms;

    }
}

/// An internet address together with a port.
#[derive(Debug, Clone, Copy, PartialEq, Eq, Hash)]
pub struct SocketAddress {
    /// The address.
    pub ip: IpAddress,
    /// The port.
    pub port: u16,
}

/// What a [`SocketAddress`] stands for.
pub ghost struct SocketAddressView {
    pub ip: IpAddressView,
    pub port: u16,
}

impl View for SocketAddress {
    type V = SocketAddressView;

    open spec fn view(&self) -> SocketAddressView {
        SocketAddressView { ip: self.ip@, port: self.port }
    }
}

impl SocketAddress {
    /// An address and a port, put together.
    pub fn new(ip: IpAddress, port: u16) -> (addr: SocketAddress)
        ensures
            addr == (SocketAddress { ip, port }),
    {
        SocketAddress { ip, port }
    }

    /// The IPv4 address `a.b.c.d` with a port.
    pub fn v4(a: u8, b: u8, c: u8, d: u8, port: u16) -> (addr: SocketAddress)
        ensures
            addr@ == (SocketAddressView { ip: IpAddressView::V4(seq![a, b, c, d]), port }),
    {
        let octets: [u8; 4] = [a, b, c, d];
        assert(octets@ =~= seq![a, b, c, d]);
        SocketAddress { ip: IpAddress::V4(octets), port }
    }

    /// The IPv6 address with the given eight groups, and a port.
    pub fn v6(segments: [u16; 8], port: u16) -> (addr: SocketAddress)
        ensures
            addr@ == (SocketAddressView { ip: IpAddressView::V6(segments@), port }),
    {
        SocketAddress { ip: IpAddress::V6(segments), port }
    }

    /// The address.
    pub fn ip(&self) -> (ip: IpAddress)
        ensures
            ip == self.ip,
    {
        self.ip
    }

    /// The port number.
    pub fn port(&self) -> (p: u16)
        ensures
            p == self.port,
    {
        self.port
    }

    /// Two socket addresses with the same view are the same.
    pub proof fn lemma_view_injective(a: SocketAddress, b: SocketAddress)
        requires
            a@ == b@,
        ensures
            a == b,
    {
        IpAddress::lemma_view_injective(a.ip, b.ip);
    }
}

/// A description of a connection target.
#[derive(Debug, PartialEq, Eq)]
pub enum TargetAddr {
    /// Connect to an IP address.
    Ip(SocketAddress),
    /// Connect to a fully qualified domain name.
    ///
    /// The domain name is passed along to the proxy server, and the lookup
    /// happens there.
    Domain(String, u16),
}

/// What a [`TargetAddr`] stands for.
pub ghost enum TargetAddrView {
    Ip(SocketAddressView),
    Domain(Seq<char>, u16),
}

impl View for TargetAddr {
    type V = TargetAddrView;

    open spec fn view(&self) -> TargetAddrView {
        match *self {
            TargetAddr::Ip(addr) => TargetAddrView::Ip(addr@),
            TargetAddr::Domain(name, port) => TargetAddrView::Domain(name@, port),
        }
    }
}

impl TargetAddrView {
    /// The port of either form.
    pub open spec fn port(self) -> u16 {
        match self {
            TargetAddrView::Ip(addr) => addr.port,
            TargetAddrView::Domain(_, port) => port,
        }
    }

    /// An address has four octets or eight groups; a name is any text.
    pub open spec fn wf(self) -> bool {
        match self {
            TargetAddrView::Ip(addr) => addr.ip.wf(),
            TargetAddrView::Domain(_, _) => true,
        }
    }
}

impl Clone for TargetAddr {
    fn clone(&self) -> (copy: Self)
        ensures
            copy == *self,
    {
        match self {
            TargetAddr::Ip(addr) => TargetAddr::Ip(*addr),
            TargetAddr::Domain(name, port) => TargetAddr::Domain(name.clone(), *port),
        }
    }
}

/// The host and the port that an address string of the form `host:port`
/// names. The string is cut at its last `:`; what stands behind it must be a
/// decimal port. The host is whatever stands before, and may be empty.
pub open spec fn host_port(text: Seq<char>) -> Result<(Seq<char>, u16), Error> {
    let bytes = encode_utf8(text);
    let at = last_index_of(bytes, COLON);
    if at < 0 {
        Err(Error::InvalidSocketAddress)
    } else {
        match port_literal(bytes.subrange(at + 1, bytes.len() as int)) {
            None => Err(Error::InvalidPort),
            Some(port) => Ok((decode_utf8(bytes.subrange(0, at)), port)),
        }
    }
}

/// The target that a host and a port name, given what reading the host as an
/// IP address literal gave: the address where it is one, the name where it
/// is none.
pub open spec fn host_target(
    host: Seq<char>,
    port: u16,
    host_literal: Option<IpAddress>,
) -> TargetAddrView {
    match host_literal {
        Some(ip) => TargetAddrView::Ip(SocketAddressView { ip: ip@, port }),
        None => TargetAddrView::Domain(host, port),
    }
}

/// The target that an address string names, given what reading the whole
/// string as a socket address literal gave, and what reading its host part
/// as an IP address literal gave.
pub open spec fn normalized(
    text: Seq<char>,
    socket_literal: Option<SocketAddress>,
    host_literal: Option<IpAddress>,
) -> Result<TargetAddrView, Error> {
    match socket_literal {
        Some(addr) => Ok(TargetAddrView::Ip(addr@)),
        None => match host_port(text) {
            Err(e) => Err(e),
            Ok((host, port)) => Ok(host_target(host, port, host_literal)),
        },
    }
}

/// Cuts an address string of the form `host:port` at its last `:` and reads
/// the port. Fails with `InvalidSocketAddress` where there is no `:`, and
/// with `InvalidPort` where the text behind it is no 16-bit decimal number.
pub fn split_host_port<'a>(text: &'a str) -> (r: Result<(&'a str, u16), Error>)
    ensures
        match r {
            Ok((host, port)) => host_port(text@) == Ok::<(Seq<char>, u16), Error>((host@, port)),
            Err(e) => host_port(text@) == Err::<(Seq<char>, u16), Error>(e),
        },
{
    broadcast use vstd::utf8::group_utf8_lib;

    let bytes = text.as_bytes();
    let n = bytes.len();
    match rfind_byte(bytes, COLON) {
        None => Err(Error::InvalidSocketAddress),
        Some(at) => {
            let port_text = slice_subrange(bytes, at + 1, n);
            match parse_port(port_text) {
                None => Err(Error::InvalidPort),
                Some(port) => {
                    proof {
                        assert(bytes@ == encode_utf8(text@));
                        vstd::utf8::encode_utf8_valid_utf8(text@);
                        vstd::utf8::is_char_boundary_iff_not_is_continuation_byte(
                            bytes@,
                            at as int,
                        );
                    }
                    let (host, _) = text.split_at(at);
                    assert(host@ == decode_utf8(encode_utf8(host@)));
                    Ok((host, port))
                },
            }
        },
    }
}

impl TargetAddr {
    /// The port number.
    pub fn port(&self) -> (p: u16)
        ensures
            p == self@.port(),
    {
        match self {
            TargetAddr::Ip(addr) => addr.port(),
            TargetAddr::Domain(_, port) => *port,
        }
    }

    /// The target for a host and a port. `host_literal` is what reading
    /// `host` as an IPv4 literal, and failing that as an IPv6 literal, gave.
    /// A host that is an address literal becomes `Ip`; any other host is
    /// kept, as it is written, as a `Domain`.
    pub fn from_host(host: &str, port: u16, host_literal: Option<IpAddress>) -> (target: TargetAddr)
        ensures
            target@ == host_target(host@, port, host_literal),
    {
        match host_literal {
            Some(ip) => TargetAddr::Ip(SocketAddress { ip, port }),
            None => TargetAddr::Domain(host.to_owned(), port),
        }
    }

    /// The target that an address string names.
    ///
    /// `socket_literal` is what reading all of `text` as an IPv4 socket
    /// address literal, and failing that as an IPv6 one, gave. Where it is an
    /// address, that address is the target. Otherwise the string is cut at
    /// its last `:`, the port is read, and the host is turned into a target
    /// as [`TargetAddr::from_host`] does, with `host_literal` being what
    /// reading that host as an address literal gave.
    pub fn from_text(
        text: &str,
        socket_literal: Option<SocketAddress>,
        host_literal: Option<IpAddress>,
    ) -> (r: Result<TargetAddr, Error>)
        ensures
            match r {
                Ok(target) => normalized(text@, socket_literal, host_literal) == Ok::<
                    TargetAddrView,
                    Error,
                >(target@),
                Err(e) => normalized(text@, socket_literal, host_literal) == Err::<
                    TargetAddrView,
                    Error,
                >(e),
            },
    {
        match socket_literal {
            Some(addr) => Ok(TargetAddr::Ip(addr)),
            None => match split_host_port(text) {
                Err(e) => Err(e),
                Ok((host, port)) => Ok(TargetAddr::from_host(host, port, host_literal)),
            },
        }
    }
}

/// A string `host:port` whose host is an IP address literal names an `Ip`
/// target, never a `Domain`.
pub proof fn lemma_literal_host_is_ip(
    text: Seq<char>,
    socket_literal: Option<SocketAddress>,
    host_literal: Option<IpAddress>,
)
    requires
        host_port(text) is Ok,
        host_literal is Some,
    ensures
        normalized(text, socket_literal, host_literal) is Ok,
        normalized(text, socket_literal, host_literal)->Ok_0 is Ip,
{
}

/// A string `host:port` that is no socket address literal, and whose host is
/// no IP address literal, names the `Domain` target of that host and port.
pub proof fn lemma_other_host_is_domain(
    text: Seq<char>,
    socket_literal: Option<SocketAddress>,
    host_literal: Option<IpAddress>,
)
    requires
        host_port(text) is Ok,
        socket_literal is None,
        host_literal is None,
    ensures
        normalized(text, socket_literal, host_literal) == Ok::<TargetAddrView, Error>(
            TargetAddrView::Domain(host_port(text)->Ok_0.0, host_port(text)->Ok_0.1),
        ),
{
}

/// A value that names a connection target.
pub trait ToTargetAddr {
    /// The target that the value names, or why it names none.
    spec fn target(&self) -> Result<TargetAddrView, Error>;

    /// Converts the value to a `TargetAddr`.
    fn to_target_addr(&self) -> (r: Result<TargetAddr, Error>)
        ensures
            match r {
                Ok(t) => self.target() == Ok::<TargetAddrView, Error>(t@),
                Err(e) => self.target() == Err::<TargetAddrView, Error>(e),
            },
    ;
}

impl ToTargetAddr for TargetAddr {
    open spec fn target(&self) -> Result<TargetAddrView, Error> {
        Ok(self@)
    }

    fn to_target_addr(&self) -> (r: Result<TargetAddr, Error>) {
        Ok(self.clone())
    }
}

impl ToTargetAddr for SocketAddress {
    open spec fn target(&self) -> Result<TargetAddrView, Error> {
        Ok(TargetAddrView::Ip(self@))
    }

    fn to_target_addr(&self) -> (r: Result<TargetAddr, Error>) {
        Ok(TargetAddr::Ip(*self))
    }
}

impl ToTargetAddr for (IpAddress, u16) {
    open spec fn target(&self) -> Result<TargetAddrView, Error> {
        Ok(TargetAddrView::Ip(SocketAddressView { ip: self.0@, port: self.1 }))
    }

    fn to_target_addr(&self) -> (r: Result<TargetAddr, Error>) {
        SocketAddress::new(self.0, self.1).to_target_addr()
    }
}

impl ToTargetAddr for ([u8; 4], u16) {
    open spec fn target(&self) -> Result<TargetAddrView, Error> {
        Ok(TargetAddrView::Ip(SocketAddressView { ip: IpAddressView::V4(self.0@), port: self.1 }))
    }

    fn to_target_addr(&self) -> (r: Result<TargetAddr, Error>) {
        SocketAddress::new(IpAddress::V4(self.0), self.1).to_target_addr()
    }
}

impl ToTargetAddr for ([u16; 8], u16) {
    open spec fn target(&self) -> Result<TargetAddrView, Error> {
        Ok(TargetAddrView::Ip(SocketAddressView { ip: IpAddressView::V6(self.0@), port: self.1 }))
    }

    fn to_target_addr(&self) -> (r: Result<TargetAddr, Error>) {
        SocketAddress::new(IpAddress::V6(self.0), self.1).to_target_addr()
    }
}

} // verus!
