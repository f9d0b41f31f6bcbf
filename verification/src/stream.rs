//! The sessions that a finished SOCKS5 handshake gives: a stream, and a
//! listener that waits for the proxy's second reply.

use crate::addr::{SocketAddress, SocketAddressView};
use crate::error::Error;
use crate::v5::{read_response, response, Command, Handshake};
use vstd::prelude::*;

verus! {

/// A SOCKS5 client: the connection to the proxy, which now carries the
/// traffic of the target, and the address that the proxy reported.
#[derive(Debug)]
pub struct Socks5Stream<S> {
    socket: S,
    proxy_addr: SocketAddress,
}

impl<S> Socks5Stream<S> {
    /// The connection that the session owns.
    pub closed spec fn spec_inner(&self) -> S {
        self.socket
    }

    /// The address that the proxy reported.
    pub closed spec fn spec_proxy_addr(&self) -> SocketAddress {
        self.proxy_addr
    }

    /// A session over `socket` with the address `proxy_addr`.
    pub(crate) fn new(socket: S, proxy_addr: SocketAddress) -> (stream: Socks5Stream<S>)
        ensures
            stream.spec_inner() == socket,
            stream.spec_proxy_addr() == proxy_addr,
    {
        Socks5Stream { socket, proxy_addr }
    }

    /// Makes the session of a CONNECT handshake that is done, over the
    /// connection on which it was made. Any other handshake gives the
    /// connection back.
    pub fn connect(socket: S, handshake: &Handshake) -> (r: Result<Socks5Stream<S>, S>)
        ensures
            match r {
                Ok(stream) => handshake@ is Done && handshake@.command() == Command::Connect
                    && stream.spec_inner() == socket && stream.spec_proxy_addr()@
                    == handshake@->Done_proxy_addr,
                Err(given_back) => given_back == socket && !(handshake@ is Done
                    && handshake@.command() == Command::Connect),
            },
    {
        match (handshake.command(), handshake.proxy_addr()) {
            (Command::Connect, Some(proxy_addr)) => Ok(Socks5Stream { socket, proxy_addr }),
            _ => Err(socket),
        }
    }

    /// Returns the proxy-side address of the connection between the proxy
    /// and the target server.
    pub fn proxy_addr(&self) -> (addr: SocketAddress)
        ensures
            addr == self.spec_proxy_addr(),
    {
        self.proxy_addr
    }

    /// Returns a shared reference to the inner connection.
    pub fn get_ref(&self) -> (socket: &S)
        ensures
            *socket == self.spec_inner(),
    {
        &self.socket
    }

    /// Returns a mutable reference to the inner connection. The address that
    /// the proxy reported stays as it is.
    pub fn get_mut(&mut self) -> (socket: &mut S)
        ensures
            *socket == old(self).spec_inner(),
            final(self).spec_inner() == *final(socket),
            final(self).spec_proxy_addr() == old(self).spec_proxy_addr(),
    {
        &mut self.socket
    }

    /// Consumes the session, returning the inner connection.
    pub fn into_inner(self) -> (socket: S)
        ensures
            socket == self.spec_inner(),
    {
        self.socket
    }
}

/// A SOCKS5 BIND client: the proxy listens, and has reported where.
///
/// The listener is used once: `accept` consumes it and gives the session
/// with the peer that connected, over the same connection to the proxy.
#[derive(Debug)]
pub struct Socks5Listener<S>(Socks5Stream<S>);

impl<S> Socks5Listener<S> {
    /// The connection that the listener owns.
    pub closed spec fn spec_inner(&self) -> S {
        self.0.spec_inner()
    }

    /// The address on which the proxy listens.
    pub closed spec fn spec_proxy_addr(&self) -> SocketAddress {
        self.0.spec_proxy_addr()
    }

    /// Makes the listener of a BIND handshake that is done, over the
    /// connection on which it was made. Any other handshake gives the
    /// connection back.
    pub fn bind(socket: S, handshake: &Handshake) -> (r: Result<Socks5Listener<S>, S>)
        ensures
            match r {
                Ok(listener) => handshake@ is Done && handshake@.command() == Command::Bind
                    && listener.spec_inner() == socket && listener.spec_proxy_addr()@
                    == handshake@->Done_proxy_addr,
                Err(given_back) => given_back == socket && !(handshake@ is Done
                    && handshake@.command() == Command::Bind),
            },
    {
        match (handshake.command(), handshake.proxy_addr()) {
            (Command::Bind, Some(proxy_addr)) => Ok(
                Socks5Listener(Socks5Stream::new(socket, proxy_addr)),
            ),
            _ => Err(socket),
        }
    }

    /// The address of the proxy-side TCP listener.
    ///
    /// This should be forwarded to the remote process, which should open a
    /// connection to it.
    pub fn proxy_addr(&self) -> (addr: SocketAddress)
        ensures
            addr == self.spec_proxy_addr(),
    {
        self.0.proxy_addr()
    }

    /// Returns a shared reference to the inner connection.
    pub fn get_ref(&self) -> (socket: &S)
        ensures
            *socket == self.spec_inner(),
    {
        self.0.get_ref()
    }

    /// Returns a mutable reference to the inner connection, from which the
    /// second reply is read. The address that the proxy reported stays as it
    /// is.
    pub fn get_mut(&mut self) -> (socket: &mut S)
        ensures
            *socket == old(self).spec_inner(),
            final(self).spec_inner() == *final(socket),
            final(self).spec_proxy_addr() == old(self).spec_proxy_addr(),
    {
        self.0.get_mut()
    }

    /// Takes the second reply of the proxy, which it sends once the remote
    /// process has connected, and gives the session with that peer: the
    /// same connection, now with the address that this reply reports. A
    /// reply that is a failure ends the listener.
    pub fn accept(self, reply: &[u8]) -> (r: Result<Socks5Stream<S>, Error>)
        ensures
            match r {
                Ok(stream) => response(reply@) is Ok && stream.spec_proxy_addr()@ == response(
                    reply@,
                )->Ok_0.0 && stream.spec_inner() == self.spec_inner(),
                Err(e) => response(reply@) == Err::<(SocketAddressView, int), Error>(e),
            },
    {
        match read_response(reply) {
            Ok((proxy_addr, _)) => Ok(Socks5Stream::new(self.0.into_inner(), proxy_addr)),
            Err(e) => Err(e),
        }
    }
}

} // verus!
