//! The address field of SOCKS5 messages.
//!
//! An address is sent as a type byte and a body: `1` and four octets for
//! IPv4, `4` and eight big-endian groups for IPv6, `3`, a length byte and
//! that many bytes for a domain name. Two bytes of big-endian port follow.

use crate::addr::{IpAddress, IpAddressView, SocketAddress, SocketAddressView, TargetAddr, TargetAddrView};
use crate::error::Error;
use crate::wire::{be16, be16_words, from_be16, from_be16_words, get_u16, put_bytes, put_u16};
use vstd::prelude::*;
use vstd::slice::slice_subrange;
use vstd::utf8::{decode_utf8, encode_utf8, valid_utf8};

verus! {

/// The address type byte of an IPv4 address.
pub const ATYP_IPV4: u8 = 1;

/// The address type byte of a domain name.
pub const ATYP_DOMAIN: u8 = 3;

/// The address type byte of an IPv6 address.
pub const ATYP_IPV6: u8 = 4;

/// The longest domain name that the length byte can announce.
pub const MAX_DOMAIN_LEN: usize = 255;

/// The length of the longest address field: type, length, 255 bytes of name
/// and the port.
pub const MAX_ADDR_LEN: usize = 259;

/// Whether a target can be written as an address field: an address has its
/// four octets or eight groups, and a domain name takes at most 255 bytes.
pub open spec fn encodable(target: TargetAddrView) -> bool {
    match target {
        TargetAddrView::Ip(addr) => addr.ip.wf(),
        TargetAddrView::Domain(name, _) => encode_utf8(name).len() <= MAX_DOMAIN_LEN,
    }
}

/// The address field that stands for a target.
pub open spec fn encoded_addr(target: TargetAddrView) -> Seq<u8> {
    match target {
        TargetAddrView::Ip(SocketAddressView { ip: IpAddressView::V4(octets), port }) => {
            seq![ATYP_IPV4] + octets + be16(port)
        },
        TargetAddrView::Ip(SocketAddressView { ip: IpAddressView::V6(segments), port }) => {
            seq![ATYP_IPV6] + be16_words(segments) + be16(port)
        },
        TargetAddrView::Domain(name, port) => {
            seq![ATYP_DOMAIN, encode_utf8(name).len() as u8] + encode_utf8(name) + be16(port)
        },
    }
}

/// The target that the address field at the start of `bytes` stands for, and
/// the length of that field; or the first thing that is wrong with it.
pub open spec fn decoded_addr(bytes: Seq<u8>) -> Result<(TargetAddrView, int), Error> {
    if bytes.len() < 1 {
        Err(Error::UnexpectedEof)
    } else if bytes[0] == ATYP_IPV4 {
        if bytes.len() < 7 {
            Err(Error::UnexpectedEof)
        } else {
            Ok(
                (
                    TargetAddrView::Ip(
                        SocketAddressView {
                            ip: IpAddressView::V4(bytes.subrange(1, 5)),
                            port: from_be16(bytes[5], bytes[6]),
                        },
                    ),
                    7,
                ),
            )
        }
    } else if bytes[0] == ATYP_IPV6 {
        if bytes.len() < 19 {
            Err(Error::UnexpectedEof)
        } else {
            Ok(
                (
                    TargetAddrView::Ip(
                        SocketAddressView {
                            ip: IpAddressView::V6(from_be16_words(bytes.subrange(1, 17), 8)),
                            port: from_be16(bytes[17], bytes[18]),
                        },
                    ),
                    19,
                ),
            )
        }
    } else if bytes[0] == ATYP_DOMAIN {
        if bytes.len() < 2 || bytes.len() < 2 + bytes[1] {
            Err(Error::UnexpectedEof)
        } else if !valid_utf8(bytes.subrange(2, 2 + bytes[1])) {
            Err(Error::InvalidDomainEncoding)
        } else if bytes.len() < 4 + bytes[1] {
            Err(Error::UnexpectedEof)
        } else {
            Ok(
                (
                    TargetAddrView::Domain(
                        decode_utf8(bytes.subrange(2, 2 + bytes[1])),
                        from_be16(bytes[2 + bytes[1]], bytes[3 + bytes[1]]),
                    ),
                    4 + bytes[1],
                ),
            )
        }
    } else {
        Err(Error::UnsupportedAddressType)
    }
}

/// An address field is at most `MAX_ADDR_LEN` bytes long: 7 for IPv4, 19 for
/// IPv6, and 4 more than the name for a domain.
pub proof fn lemma_encoded_addr_len(target: TargetAddrView)
    requires
        encodable(target),
    ensures
        encoded_addr(target).len() == match target {
            TargetAddrView::Ip(SocketAddressView { ip: IpAddressView::V4(_), .. }) => 7,
            TargetAddrView::Ip(SocketAddressView { ip: IpAddressView::V6(_), .. }) => 19,
            TargetAddrView::Domain(name, _) => 4 + encode_utf8(name).len(),
        },
        encoded_addr(target).len() <= MAX_ADDR_LEN,
{
}

/// Decoding what encoding wrote gives the target back, whatever bytes
/// follow the address field: the same address and port for an `Ip` target,
/// the same name and port for a `Domain`.
pub proof fn lemma_addr_round_trip(target: TargetAddrView, rest: Seq<u8>)
    requires
        encodable(target),
    ensures
        decoded_addr(encoded_addr(target) + rest) == Ok::<(TargetAddrView, int), Error>(
            (target, encoded_addr(target).len() as int),
        ),
{
    let bytes = encoded_addr(target) + rest;
    match target {
        TargetAddrView::Ip(SocketAddressView { ip: IpAddressView::V4(octets), port }) => {
            crate::wire::lemma_be16_round_trip(port);
            assert(bytes.subrange(1, 5) =~= octets);
            assert(bytes[5] == be16(port)[0] && bytes[6] == be16(port)[1]);
        },
        TargetAddrView::Ip(SocketAddressView { ip: IpAddressView::V6(segments), port }) => {
            crate::wire::lemma_be16_round_trip(port);
            crate::wire::lemma_be16_words_round_trip(segments);
            assert(bytes.subrange(1, 17) =~= be16_words(segments));
            assert(bytes[17] == be16(port)[0] && bytes[18] == be16(port)[1]);
        },
        TargetAddrView::Domain(name, port) => {
            let n = encode_utf8(name).len() as int;
            crate::wire::lemma_be16_round_trip(port);
            vstd::utf8::encode_utf8_valid_utf8(name);
            vstd::utf8::encode_utf8_decode_utf8(name);
            assert(bytes[1] == n);
            assert(bytes.subrange(2, 2 + n) =~= encode_utf8(name));
            assert(bytes[2 + n] == be16(port)[0] && bytes[3 + n] == be16(port)[1]);
        },
    }
}

/// Every address can be written, reads back with the same octets or groups
/// and the same port, and is the only address that does so: an `Ip` target
/// comes back exactly.
pub proof fn lemma_ip_round_trip(addr: SocketAddress, rest: Seq<u8>)
    ensures
        encodable(TargetAddrView::Ip(addr@)),
        decoded_addr(encoded_addr(TargetAddrView::Ip(addr@)) + rest) == Ok::<
            (TargetAddrView, int),
            Error,
        >((TargetAddrView::Ip(addr@), encoded_addr(TargetAddrView::Ip(addr@)).len() as int)),
        forall|other: SocketAddress| other@ == addr@ ==> other == addr,
{
    IpAddress::lemma_view_wf(addr.ip);
    lemma_addr_round_trip(TargetAddrView::Ip(addr@), rest);
    assert forall|other: SocketAddress| other@ == addr@ implies other == addr by {
        SocketAddress::lemma_view_injective(other, addr);
    }
}

/// Turns bytes into text through `String::from_utf8`, which succeeds on
/// exactly the well-formed UTF-8 byte strings and then gives the text that
/// they encode.
#[verifier::external_body]
pub(crate) fn string_from_utf8(bytes: Vec<u8>) -> (text: Option<String>)
    ensures
        match text {
            Some(s) => valid_utf8(bytes@) && s@ == decode_utf8(bytes@),
            None => !valid_utf8(bytes@),
        },
{
    match String::from_utf8(bytes) {
        Ok(s) => Some(s),
        Err(_) => None,
    }
}

/// Appends the address field of `target` to `packet`.
///
/// Fails with `DomainTooLong`, and leaves `packet` as it was, where the
/// target is a domain name of more than 255 bytes.
pub fn write_addr(packet: &mut Vec<u8>, target: &TargetAddr) -> (r: Result<(), Error>)
    ensures
        r is Ok <==> encodable(target@),
        r is Ok ==> final(packet)@ == old(packet)@ + encoded_addr(target@),
        r is Err ==> r == Err::<(), Error>(Error::DomainTooLong) && final(packet)@ == old(packet)@,
{
    broadcast use vstd::array::group_array_axioms;

    let ghost before = packet@;
    match target {
        TargetAddr::Ip(addr) => {
            match addr.ip {
                IpAddress::V4(octets) => {
                    packet.push(ATYP_IPV4);
                    packet.push(octets[0]);
                    packet.push(octets[1]);
                    packet.push(octets[2]);
                    packet.push(octets[3]);
                    put_u16(packet, addr.port);
                    assert(packet@ =~= before + encoded_addr(target@));
                },
                IpAddress::V6(segments) => {
                    packet.push(ATYP_IPV6);
                    let mut i: usize = 0;
                    while i < 8
                        invariant
                            i <= 8,
                            segments@.len() == 8,
                            packet@ == before + seq![ATYP_IPV6] + be16_words(
                                segments@.subrange(0, i as int),
                            ),
                        decreases 8 - i,
                    {
                        let ghost sent = packet@;
                        put_u16(packet, segments[i]);
                        assert(be16_words(segments@.subrange(0, i + 1)) =~= be16_words(
                            segments@.subrange(0, i as int),
                        ) + be16(segments@[i as int]));
                        i += 1;
                    }
                    assert(segments@.subrange(0, 8) =~= segments@);
                    put_u16(packet, addr.port);
                    assert(packet@ =~= before + encoded_addr(target@));
                },
            }
            Ok(())
        },
        TargetAddr::Domain(name, port) => {
            let bytes = name.as_str().as_bytes();
            let n = bytes.len();
            if n > MAX_DOMAIN_LEN {
                return Err(Error::DomainTooLong);
            }
            packet.push(ATYP_DOMAIN);
            packet.push(n as u8);
            put_bytes(packet, bytes);
            put_u16(packet, *port);
            assert(packet@ =~= before + encoded_addr(target@));
            Ok(())
        },
    }
}

/// Reads the address field at the start of `buf`.
///
/// Returns the target and the number of bytes that the field takes. Fails
/// with `UnexpectedEof` where `buf` ends inside the field, with
/// `UnsupportedAddressType` where the type byte is not 1, 3 or 4, and with
/// `InvalidDomainEncoding` where a domain name is not UTF-8.
pub fn read_addr(buf: &[u8]) -> (r: Result<(TargetAddr, usize), Error>)
    ensures
        match r {
            Ok((target, used)) => decoded_addr(buf@) == Ok::<(TargetAddrView, int), Error>(
                (target@, used as int),
            ) && used <= buf@.len(),
            Err(e) => decoded_addr(buf@) == Err::<(TargetAddrView, int), Error>(e),
        },
{
    broadcast use vstd::array::group_array_axioms;

    let len = buf.len();
    if len < 1 {
        return Err(Error::UnexpectedEof);
    }
    let atyp = buf[0];
    if atyp == ATYP_IPV4 {
        if len < 7 {
            return Err(Error::UnexpectedEof);
        }
        let octets: [u8; 4] = [buf[1], buf[2], buf[3], buf[4]];
        let port = get_u16(slice_subrange(buf, 5, 7));
        assert(octets@ =~= buf@.subrange(1, 5));
        Ok((TargetAddr::Ip(SocketAddress { ip: IpAddress::V4(octets), port }), 7))
    } else if atyp == ATYP_IPV6 {
        if len < 19 {
            return Err(Error::UnexpectedEof);
        }
        let mut segments: [u16; 8] = [0u16;8];
        let mut i: usize = 0;
        while i < 8
            invariant
                i <= 8,
                buf@.len() >= 19,
                segments@.len() == 8,
                forall|j: int|
                    0 <= j < i ==> #[trigger] segments@[j] == from_be16(
                        buf@[1 + 2 * j],
                        buf@[2 + 2 * j],
                    ),
            decreases 8 - i,
        {
            let word = get_u16(slice_subrange(buf, 1 + 2 * i, 3 + 2 * i));
            segments[i] = word;
            i += 1;
        }
        let port = get_u16(slice_subrange(buf, 17, 19));
        assert(segments@ =~= from_be16_words(buf@.subrange(1, 17), 8));
        Ok((TargetAddr::Ip(SocketAddress { ip: IpAddress::V6(segments), port }), 19))
    } else if atyp == ATYP_DOMAIN {
        if len < 2 {
            return Err(Error::UnexpectedEof);
        }
        let n = buf[1] as usize;
        if len - 2 < n {
            return Err(Error::UnexpectedEof);
        }
        let name_bytes = vstd::slice::slice_to_vec(slice_subrange(buf, 2, 2 + n));
        match string_from_utf8(name_bytes) {
            None => Err(Error::InvalidDomainEncoding),
            Some(name) => {
                if len - 2 - n < 2 {
                    return Err(Error::UnexpectedEof);
                }
                let port = get_u16(slice_subrange(buf, 2 + n, 4 + n));
                Ok((TargetAddr::Domain(name, port), 4 + n))
            },
        }
    } else {
        Err(Error::UnsupportedAddressType)
    }
}

} // verus!
