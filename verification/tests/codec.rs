use socks::codec::{read_addr, write_addr, MAX_ADDR_LEN};
use socks::{Error, SocketAddress, TargetAddr};

fn encode(target: &TargetAddr) -> Vec<u8> {
    let mut packet = Vec::new();
    write_addr(&mut packet, target).unwrap();
    packet
}

#[test]
fn ipv4_address_field() {
    let target = TargetAddr::Ip(SocketAddress::v4(192, 168, 1, 1, 80));
    assert_eq!(encode(&target), vec![1, 192, 168, 1, 1, 0, 80]);
}

#[test]
fn port_is_written_most_significant_byte_first() {
    let target = TargetAddr::Ip(SocketAddress::v4(1, 2, 3, 4, 0x1234));
    assert_eq!(encode(&target), vec![1, 1, 2, 3, 4, 0x12, 0x34]);
    let target = TargetAddr::Ip(SocketAddress::v4(1, 2, 3, 4, 65535));
    assert_eq!(encode(&target), vec![1, 1, 2, 3, 4, 0xff, 0xff]);
}

#[test]
fn ipv6_address_field() {
    let target = TargetAddr::Ip(SocketAddress::v6(
        [0x2001, 0x0db8, 0, 0, 0, 0xff00, 0x0042, 0x8329],
        443,
    ));
    assert_eq!(
        encode(&target),
        vec![
            4, 0x20, 0x01, 0x0d, 0xb8, 0, 0, 0, 0, 0, 0, 0xff, 0x00, 0x00, 0x42, 0x83, 0x29,
            0x01, 0xbb
        ]
    );
}

#[test]
fn domain_address_field() {
    let target = TargetAddr::Domain("google.com".to_string(), 80);
    let mut expected = vec![3, 10];
    expected.extend_from_slice(b"google.com");
    expected.extend_from_slice(&[0, 80]);
    assert_eq!(encode(&target), expected);
}

#[test]
fn empty_domain_address_field() {
    let target = TargetAddr::Domain(String::new(), 1);
    assert_eq!(encode(&target), vec![3, 0, 0, 1]);
}

#[test]
fn address_field_is_appended() {
    let mut packet = vec![5, 1, 0];
    write_addr(&mut packet, &TargetAddr::Ip(SocketAddress::v4(8, 8, 8, 8, 53))).unwrap();
    assert_eq!(packet, vec![5, 1, 0, 1, 8, 8, 8, 8, 0, 53]);
}

#[test]
fn domain_of_255_bytes_is_the_longest() {
    let name = "a".repeat(255);
    let field = encode(&TargetAddr::Domain(name.clone(), 80));
    assert_eq!(field.len(), MAX_ADDR_LEN);
    assert_eq!(field[0], 3);
    assert_eq!(field[1], 255);
    assert_eq!(&field[2..257], name.as_bytes());
    assert_eq!(&field[257..], &[0, 80]);
}

#[test]
fn domain_of_256_bytes_is_rejected() {
    let mut packet = vec![9, 9];
    let target = TargetAddr::Domain("a".repeat(256), 80);
    assert_eq!(write_addr(&mut packet, &target), Err(Error::DomainTooLong));
    assert_eq!(packet, vec![9, 9]);
}

#[test]
fn domain_length_counts_bytes_not_characters() {
    let name = "é".repeat(128);
    assert_eq!(name.len(), 256);
    let mut packet = Vec::new();
    assert_eq!(
        write_addr(&mut packet, &TargetAddr::Domain(name, 80)),
        Err(Error::DomainTooLong)
    );
    let name = "é".repeat(127);
    let field = encode(&TargetAddr::Domain(name, 80));
    assert_eq!(field[1], 254);
    assert_eq!(field.len(), 258);
}

#[test]
fn read_ipv4_address_field() {
    let bytes = [1, 1, 0, 0, 1, 0, 80];
    assert_eq!(read_addr(&bytes), Ok((TargetAddr::Ip(SocketAddress::v4(1, 0, 0, 1, 80)), 7)));
}

#[test]
fn read_ipv6_address_field() {
    let bytes = [4, 0x20, 0x01, 0x0d, 0xb8, 0, 0, 0, 0, 0, 0, 0, 0, 0, 0, 0, 1, 0x1f, 0x90];
    assert_eq!(
        read_addr(&bytes),
        Ok((TargetAddr::Ip(SocketAddress::v6([0x2001, 0x0db8, 0, 0, 0, 0, 0, 1], 8080)), 19))
    );
}

#[test]
fn read_domain_address_field() {
    let mut bytes = vec![3, 11];
    bytes.extend_from_slice(b"example.org");
    bytes.extend_from_slice(&[0x01, 0xbb]);
    assert_eq!(read_addr(&bytes), Ok((TargetAddr::Domain("example.org".to_string(), 443), 15)));
}

#[test]
fn read_leaves_what_follows_the_field() {
    let bytes = [1, 10, 0, 0, 1, 4, 56, b'h', b'i'];
    let (target, used) = read_addr(&bytes).unwrap();
    assert_eq!(target, TargetAddr::Ip(SocketAddress::v4(10, 0, 0, 1, 1080)));
    assert_eq!(&bytes[used..], b"hi");
}

#[test]
fn read_rejects_an_unknown_address_type() {
    assert_eq!(read_addr(&[0, 1, 2, 3, 4, 5, 6]), Err(Error::UnsupportedAddressType));
    assert_eq!(read_addr(&[2, 1, 2, 3, 4, 5, 6]), Err(Error::UnsupportedAddressType));
    assert_eq!(read_addr(&[5]), Err(Error::UnsupportedAddressType));
    assert_eq!(read_addr(&[255, 0, 0]), Err(Error::UnsupportedAddressType));
}

#[test]
fn read_rejects_a_field_that_is_cut_short() {
    assert_eq!(read_addr(&[]), Err(Error::UnexpectedEof));
    assert_eq!(read_addr(&[1]), Err(Error::UnexpectedEof));
    assert_eq!(read_addr(&[1, 1, 0, 0, 1, 0]), Err(Error::UnexpectedEof));
    assert_eq!(read_addr(&[4, 0, 0, 0, 0, 0, 0, 0, 0, 0, 0, 0, 0, 0, 0, 0, 1, 0]), Err(Error::UnexpectedEof));
    assert_eq!(read_addr(&[3]), Err(Error::UnexpectedEof));
    assert_eq!(read_addr(&[3, 4, b'a', b'b']), Err(Error::UnexpectedEof));
    assert_eq!(read_addr(&[3, 2, b'a', b'b']), Err(Error::UnexpectedEof));
    assert_eq!(read_addr(&[3, 2, b'a', b'b', 0]), Err(Error::UnexpectedEof));
}

#[test]
fn read_rejects_a_domain_that_is_not_utf8() {
    assert_eq!(read_addr(&[3, 2, 0xc3, 0x28, 0, 80]), Err(Error::InvalidDomainEncoding));
    assert_eq!(read_addr(&[3, 1, 0xff, 0, 80]), Err(Error::InvalidDomainEncoding));
    assert_eq!(read_addr(&[3, 1, 0xff]), Err(Error::InvalidDomainEncoding));
}

#[test]
fn round_trip_of_every_address_form() {
    let targets = vec![
        TargetAddr::Ip(SocketAddress::v4(0, 0, 0, 0, 0)),
        TargetAddr::Ip(SocketAddress::v4(255, 255, 255, 255, 65535)),
        TargetAddr::Ip(SocketAddress::v4(192, 168, 1, 1, 80)),
        TargetAddr::Ip(SocketAddress::v6([0; 8], 0)),
        TargetAddr::Ip(SocketAddress::v6([0xffff; 8], 65535)),
        TargetAddr::Ip(SocketAddress::v6([1, 2, 3, 4, 5, 6, 7, 8], 256)),
        TargetAddr::Domain(String::new(), 0),
        TargetAddr::Domain("google.com".to_string(), 80),
        TargetAddr::Domain("münchen.de".to_string(), 8080),
        TargetAddr::Domain("x".repeat(255), 65535),
    ];
    for target in targets.iter() {
        let field = encode(target);
        assert_eq!(read_addr(&field), Ok((target.clone(), field.len())));
        let mut longer = field.clone();
        longer.extend_from_slice(b"payload");
        assert_eq!(read_addr(&longer), Ok((target.clone(), field.len())));
    }
}
