use socks::datagram::{unwrap_datagram, wrap_datagram, HEADER_LEN};
use socks::codec::MAX_ADDR_LEN;
use socks::{Error, Handshake, SocketAddress, Socks5Datagram, TargetAddr};

fn relay() -> Socks5Datagram<(), ()> {
    let handshake = Handshake::associate()
        .advance(&[5, 0])
        .unwrap()
        .advance(&[5, 0, 0, 1])
        .unwrap()
        .advance(&[192, 0, 2, 1, 0x13, 0x88])
        .unwrap();
    Socks5Datagram::bind((), &handshake, ()).unwrap()
}

#[test]
fn datagram_to_an_ipv4_target() {
    let target = TargetAddr::Ip(SocketAddress::v4(8, 8, 8, 8, 53));
    assert_eq!(
        wrap_datagram(b"query", &target),
        Ok(vec![0, 0, 0, 1, 8, 8, 8, 8, 0, 53, b'q', b'u', b'e', b'r', b'y'])
    );
}

#[test]
fn datagram_header_lengths() {
    let v4 = TargetAddr::Ip(SocketAddress::v4(8, 8, 8, 8, 53));
    let v6 = TargetAddr::Ip(SocketAddress::v6([0; 8], 53));
    let domain = TargetAddr::Domain("dns.example".to_string(), 53);
    assert_eq!(wrap_datagram(b"", &v4).unwrap().len(), 10);
    assert_eq!(wrap_datagram(b"", &v6).unwrap().len(), 22);
    assert_eq!(wrap_datagram(b"", &domain).unwrap().len(), 7 + "dns.example".len());
    assert_eq!(wrap_datagram(b"abc", &v4).unwrap().len(), 13);
}

#[test]
fn datagram_to_a_domain_that_is_too_long() {
    let target = TargetAddr::Domain("n".repeat(256), 53);
    assert_eq!(wrap_datagram(b"query", &target), Err(Error::DomainTooLong));
    assert_eq!(relay().send_to(b"query", &target), Err(Error::DomainTooLong));
}

#[test]
fn send_goes_to_the_relay_not_to_the_target() {
    let target = TargetAddr::Domain("dns.example".to_string(), 53);
    let (packet, to) = relay().send_to(b"?", &target).unwrap();
    assert_eq!(to, SocketAddress::v4(192, 0, 2, 1, 5000));
    let mut expected = vec![0, 0, 0, 3, 11];
    expected.extend_from_slice(b"dns.example");
    expected.extend_from_slice(&[0, 53, b'?']);
    assert_eq!(packet, expected);
}

#[test]
fn receive_strips_header_and_address() {
    let datagram = [0, 0, 0, 1, 198, 51, 100, 7, 0x00, 0x35, b'a', b'n', b's'];
    let mut buf = [0xeeu8; 8];
    let (len, source) = unwrap_datagram(&datagram, &mut buf).unwrap();
    assert_eq!(len, 3);
    assert_eq!(source, TargetAddr::Ip(SocketAddress::v4(198, 51, 100, 7, 53)));
    assert_eq!(buf, [b'a', b'n', b's', 0xee, 0xee, 0xee, 0xee, 0xee]);
}

#[test]
fn receive_from_a_domain_source() {
    let mut datagram = vec![0, 0, 0, 3, 7];
    datagram.extend_from_slice(b"a.b.c.d");
    datagram.extend_from_slice(&[0x1f, 0x40]);
    datagram.extend_from_slice(b"data");
    let mut buf = [0u8; 4];
    let (len, source) = relay().recv_from(&datagram, &mut buf).unwrap();
    assert_eq!(len, 4);
    assert_eq!(source, TargetAddr::Domain("a.b.c.d".to_string(), 8000));
    assert_eq!(&buf, b"data");
}

#[test]
fn receive_of_an_empty_payload() {
    let datagram = [0, 0, 0, 1, 1, 2, 3, 4, 0, 5];
    let mut buf = [7u8; 2];
    assert_eq!(
        unwrap_datagram(&datagram, &mut buf),
        Ok((0, TargetAddr::Ip(SocketAddress::v4(1, 2, 3, 4, 5))))
    );
    assert_eq!(buf, [7, 7]);
    let mut none: [u8; 0] = [];
    assert_eq!(
        unwrap_datagram(&datagram, &mut none),
        Ok((0, TargetAddr::Ip(SocketAddress::v4(1, 2, 3, 4, 5))))
    );
}

#[test]
fn receive_into_a_buffer_that_is_too_small() {
    let datagram = [0, 0, 0, 1, 1, 2, 3, 4, 0, 5, b'x', b'y', b'z'];
    let mut buf = [9u8; 2];
    assert_eq!(unwrap_datagram(&datagram, &mut buf), Err(Error::BufferTooSmall));
    assert_eq!(buf, [9, 9]);
    let mut exact = [9u8; 3];
    assert_eq!(unwrap_datagram(&datagram, &mut exact).map(|r| r.0), Ok(3));
    assert_eq!(&exact, b"xyz");
}

#[test]
fn receive_rejects_reserved_bytes_that_are_not_zero() {
    let mut buf = [0u8; 16];
    assert_eq!(
        unwrap_datagram(&[1, 0, 0, 1, 1, 2, 3, 4, 0, 5], &mut buf),
        Err(Error::InvalidReservedBytes)
    );
    assert_eq!(
        unwrap_datagram(&[0, 1, 0, 1, 1, 2, 3, 4, 0, 5], &mut buf),
        Err(Error::InvalidReservedBytes)
    );
    assert_eq!(unwrap_datagram(&[0, 1], &mut buf), Err(Error::InvalidReservedBytes));
}

#[test]
fn receive_rejects_a_fragment() {
    let mut buf = [0u8; 16];
    assert_eq!(
        unwrap_datagram(&[0, 0, 1, 1, 1, 2, 3, 4, 0, 5, b'x'], &mut buf),
        Err(Error::InvalidFragmentId)
    );
    assert_eq!(
        unwrap_datagram(&[0, 0, 0x80, 1, 1, 2, 3, 4, 0, 5, b'x'], &mut buf),
        Err(Error::InvalidFragmentId)
    );
    assert_eq!(buf, [0u8; 16]);
}

#[test]
fn receive_rejects_a_datagram_that_is_cut_short() {
    let mut buf = [0u8; 16];
    assert_eq!(unwrap_datagram(&[], &mut buf), Err(Error::UnexpectedEof));
    assert_eq!(unwrap_datagram(&[0], &mut buf), Err(Error::UnexpectedEof));
    assert_eq!(unwrap_datagram(&[0, 0], &mut buf), Err(Error::UnexpectedEof));
    assert_eq!(unwrap_datagram(&[0, 0, 0], &mut buf), Err(Error::UnexpectedEof));
    assert_eq!(unwrap_datagram(&[0, 0, 0, 1, 1, 2, 3], &mut buf), Err(Error::UnexpectedEof));
}

#[test]
fn receive_rejects_an_unknown_address_type() {
    let mut buf = [0u8; 16];
    assert_eq!(
        unwrap_datagram(&[0, 0, 0, 9, 1, 2, 3, 4, 0, 5], &mut buf),
        Err(Error::UnsupportedAddressType)
    );
}

#[test]
fn datagram_round_trip() {
    let targets = vec![
        TargetAddr::Ip(SocketAddress::v4(127, 0, 0, 1, 15411)),
        TargetAddr::Ip(SocketAddress::v6([0xfd00, 0, 0, 0, 0, 0, 0, 0x99], 4000)),
        TargetAddr::Domain("peer.example".to_string(), 9),
        TargetAddr::Domain("z".repeat(255), 9),
    ];
    let payloads: Vec<&[u8]> = vec![b"", b"hello world!", &[0, 0, 0, 1, 2, 3]];
    let socks = relay();
    for target in targets.iter() {
        for payload in payloads.iter() {
            let (packet, _) = socks.send_to(payload, target).unwrap();
            let mut buf = vec![0xaau8; payload.len() + 2];
            let (len, source) = socks.recv_from(&packet, &mut buf).unwrap();
            assert_eq!(len, payload.len());
            assert_eq!(&buf[..len], *payload);
            assert_eq!(&buf[len..], &[0xaa, 0xaa]);
            assert_eq!(&source, target);
        }
    }
}

#[test]
fn scratch_buffer_length() {
    assert_eq!(HEADER_LEN, 3);
    assert_eq!(MAX_ADDR_LEN, 259);
    assert_eq!(Socks5Datagram::<(), ()>::scratch_len(0), Some(262));
    assert_eq!(Socks5Datagram::<(), ()>::scratch_len(13), Some(275));
    assert_eq!(Socks5Datagram::<(), ()>::scratch_len(usize::MAX - 262), Some(usize::MAX));
    assert_eq!(Socks5Datagram::<(), ()>::scratch_len(usize::MAX - 261), None);
    assert_eq!(Socks5Datagram::<(), ()>::scratch_len(usize::MAX), None);
}

#[test]
fn datagram_accessors() {
    let handshake = Handshake::associate()
        .advance(&[5, 0])
        .unwrap()
        .advance(&[5, 0, 0, 1])
        .unwrap()
        .advance(&[192, 0, 2, 1, 0x13, 0x88])
        .unwrap();
    let mut socks = Socks5Datagram::bind("control", &handshake, vec![1u8]).unwrap();
    assert_eq!(socks.proxy_addr(), SocketAddress::v4(192, 0, 2, 1, 5000));
    assert_eq!(socks.get_ref(), &vec![1u8]);
    socks.get_mut().push(2);
    assert_eq!(socks.get_ref(), &vec![1u8, 2]);
    assert_eq!(socks.proxy_addr(), SocketAddress::v4(192, 0, 2, 1, 5000));
}
