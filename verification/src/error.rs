//! Failures of address normalization, message framing and proxy replies.

use vstd::prelude::*;

verus! {

/// The broad class a failure belongs to.
#[derive(Debug, Clone, Copy, PartialEq, Eq, Structural)]
pub enum ErrorKind {
    /// The caller handed in a value that cannot be used.
    InvalidInput,
    /// The peer sent bytes that violate the protocol.
    InvalidData,
    /// The peer sent fewer bytes than the message needs.
    UnexpectedEof,
    /// The proxy answered in a well-formed way, but refused.
    Other,
}

/// Every way in which this library can fail.
#[derive(Debug, Clone, Copy, PartialEq, Eq, Structural)]
pub enum Error {
    /// The address string holds no `:` separator.
    InvalidSocketAddress,
    /// The text behind the last `:` is not a 16-bit decimal port.
    InvalidPort,
    /// A domain name is longer than 255 bytes.
    DomainTooLong,
    /// An IPv6 target was given to SOCKS4.
    Ipv6NotSupported,
    /// A scheme other than `http` was given to a connector for plain HTTP.
    InvalidHttpScheme,
    /// A scheme other than `http` and `https` was given to a connector for
    /// HTTP and HTTPS.
    InvalidHttpsScheme,
    /// The first byte of a reply is not the expected version.
    InvalidResponseVersion,
    /// The reserved byte of a SOCKS5 reply is not zero.
    InvalidReservedByte,
    /// The reserved bytes of a datagram header are not zero.
    InvalidReservedBytes,
    /// The fragment byte of a datagram header is not zero.
    InvalidFragmentId,
    /// The address type byte names no known address form.
    UnsupportedAddressType,
    /// A domain name on the wire is not UTF-8.
    InvalidDomainEncoding,
    /// The proxy accepted none of the offered authentication methods.
    NoAcceptableAuthMethods,
    /// The proxy chose an authentication method that was not offered.
    UnknownAuthMethod,
    /// SOCKS5 status 1.
    GeneralFailure,
    /// SOCKS5 status 2.
    NotAllowedByRuleset,
    /// SOCKS5 status 3.
    NetworkUnreachable,
    /// SOCKS5 status 4.
    HostUnreachable,
    /// SOCKS5 status 5.
    ConnectionRefused,
    /// SOCKS5 status 6.
    TtlExpired,
    /// SOCKS5 status 7.
    CommandNotSupported,
    /// SOCKS5 status 8.
    AddressTypeNotSupported,
    /// A SOCKS5 status outside 0 to 8; the byte is kept.
    UnknownError(u8),
    /// SOCKS4 status 91.
    RequestRejected,
    /// SOCKS4 status 92.
    IdentUnreachable,
    /// SOCKS4 status 93.
    IdentMismatch,
    /// A SOCKS4 status outside 90 to 93; the byte is kept.
    InvalidResponseCode(u8),
    /// The message ends before its last field.
    UnexpectedEof,
    /// The caller's buffer cannot hold the payload.
    BufferTooSmall,
}

impl Error {
    /// The class of each failure.
    pub open spec fn spec_kind(self) -> ErrorKind {
        match self {
            Error::InvalidSocketAddress
            | Error::InvalidPort
            | Error::DomainTooLong
            | Error::Ipv6NotSupported
            | Error::InvalidHttpScheme
            | Error::InvalidHttpsScheme
            | Error::BufferTooSmall => ErrorKind::InvalidInput,
            Error::InvalidResponseVersion
            | Error::InvalidReservedByte
            | Error::InvalidReservedBytes
            | Error::InvalidFragmentId
            | Error::InvalidDomainEncoding
            | Error::UnknownAuthMethod => ErrorKind::InvalidData,
            Error::UnexpectedEof => ErrorKind::UnexpectedEof,
            _ => ErrorKind::Other,
        }
    }

    /// Input errors are `InvalidInput`, protocol violations `InvalidData`,
    /// short messages `UnexpectedEof`, and refusals by the proxy `Other`.
    #[verifier::when_used_as_spec(spec_kind)]
    pub fn kind(self) -> (k: ErrorKind)
        ensures
            k == self.spec_kind(),
    {
        match self {
            Error::InvalidSocketAddress
            | Error::InvalidPort
            | Error::DomainTooLong
            | Error::Ipv6NotSupported
            | Error::InvalidHttpScheme
            | Error::InvalidHttpsScheme
            | Error::BufferTooSmall => ErrorKind::InvalidInput,
            Error::InvalidResponseVersion
            | Error::InvalidReservedByte
            | Error::InvalidReservedBytes
            | Error::InvalidFragmentId
            | Error::InvalidDomainEncoding
            | Error::UnknownAuthMethod => ErrorKind::InvalidData,
            Error::UnexpectedEof => ErrorKind::UnexpectedEof,
            _ => ErrorKind::Other,
        }
    }

    /// The text that describes each failure.
    pub open spec fn spec_message(self) -> Seq<char> {
        match self {
            Error::InvalidSocketAddress => "invalid socket address"@,
            Error::InvalidPort => "invalid port value"@,
            Error::DomainTooLong => "domain name too long"@,
            Error::Ipv6NotSupported => "SOCKS4 does not support IPv6"@,
            Error::InvalidHttpScheme => "invalid scheme for HTTP"@,
            Error::InvalidHttpsScheme => "invalid scheme for HTTPS"@,
            Error::InvalidResponseVersion => "invalid response version"@,
            Error::InvalidReservedByte => "invalid reserved byte"@,
            Error::InvalidReservedBytes => "invalid reserved bytes"@,
            Error::InvalidFragmentId => "invalid fragment id"@,
            Error::UnsupportedAddressType => "unsupported address type"@,
            Error::InvalidDomainEncoding => "invalid domain name encoding"@,
            Error::NoAcceptableAuthMethods => "no acceptable auth methods"@,
            Error::UnknownAuthMethod => "unknown auth method"@,
            Error::GeneralFailure => "general SOCKS server failure"@,
            Error::NotAllowedByRuleset => "connection not allowed by ruleset"@,
            Error::NetworkUnreachable => "network unreachable"@,
            Error::HostUnreachable => "host unreachable"@,
            Error::ConnectionRefused => "connection refused"@,
            Error::TtlExpired => "TTL expired"@,
            Error::CommandNotSupported => "command not supported"@,
            Error::AddressTypeNotSupported => "address kind not supported"@,
            Error::UnknownError(_) => "unknown error"@,
            Error::RequestRejected => "request rejected or failed"@,
            Error::IdentUnreachable => "request rejected because SOCKS server cannot connect to identd on the client"@,
            Error::IdentMismatch => "request rejected because the client program and identd report different user-ids"@,
            Error::InvalidResponseCode(_) => "invalid response code"@,
            Error::UnexpectedEof => "failed to fill whole buffer"@,
            Error::BufferTooSmall => "buffer too small for datagram payload"@,
        }
    }

    /// A short description of the failure, fit for showing to a user.
    pub fn message(self) -> (text: &'static str)
        ensures
            text@ == self.spec_message(),
    {
        match self {
            Error::InvalidSocketAddress => "invalid socket address",
            Error::InvalidPort => "invalid port value",
            Error::DomainTooLong => "domain name too long",
            Error::Ipv6NotSupported => "SOCKS4 does not support IPv6",
            Error::InvalidHttpScheme => "invalid scheme for HTTP",
            Error::InvalidHttpsScheme => "invalid scheme for HTTPS",
            Error::InvalidResponseVersion => "invalid response version",
            Error::InvalidReservedByte => "invalid reserved byte",
            Error::InvalidReservedBytes => "invalid reserved bytes",
            Error::InvalidFragmentId => "invalid fragment id",
            Error::UnsupportedAddressType => "unsupported address type",
            Error::InvalidDomainEncoding => "invalid domain name encoding",
            Error::NoAcceptableAuthMethods => "no acceptable auth methods",
            Error::UnknownAuthMethod => "unknown auth method",
            Error::GeneralFailure => "general SOCKS server failure",
            Error::NotAllowedByRuleset => "connection not allowed by ruleset",
            Error::NetworkUnreachable => "network unreachable",
            Error::HostUnreachable => "host unreachable",
            Error::ConnectionRefused => "connection refused",
            Error::TtlExpired => "TTL expired",
            Error::CommandNotSupported => "command not supported",
            Error::AddressTypeNotSupported => "address kind not supported",
            Error::UnknownError(_) => "unknown error",
            Error::RequestRejected => "request rejected or failed",
            Error::IdentUnreachable => "request rejected because SOCKS server cannot connect to identd on the client",
            Error::IdentMismatch => "request rejected because the client program and identd report different user-ids",
            Error::InvalidResponseCode(_) => "invalid response code",
            Error::UnexpectedEof => "failed to fill whole buffer",
            Error::BufferTooSmall => "buffer too small for datagram payload",
        }
    }
}

} // verus!
