//! SOCKS proxy clients: address normalization, message framing, reply
//! parsing and the connection state machines of SOCKS4, SOCKS4A and SOCKS5.

pub mod addr;
pub mod codec;
pub mod datagram;
pub mod error;
pub mod parse;
pub mod scheme;
pub mod stream;
pub mod v4;
pub mod v5;
pub mod wire;
pub mod writev;

pub use addr::{IpAddress, SocketAddress, TargetAddr, ToTargetAddr};
pub use datagram::Socks5Datagram;
pub use error::{Error, ErrorKind};
pub use stream::{Socks5Listener, Socks5Stream};
pub use v4::{Socks4Handshake, Socks4Stream};
pub use v5::{Command, Handshake};
pub use writev::WritevExt;
