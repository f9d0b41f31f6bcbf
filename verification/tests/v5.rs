use socks::v5::{
    greeting, read_method, read_response, read_status, response_len, write_request,
};
use socks::{Command, Error, Handshake, SocketAddress, TargetAddr};

#[test]
fn greeting_offers_no_authentication_only() {
    assert_eq!(greeting(), vec![5, 1, 0]);
}

#[test]
fn command_codes() {
    assert_eq!(Command::Connect.code(), 1);
    assert_eq!(Command::Bind.code(), 2);
    assert_eq!(Command::Associate.code(), 3);
}

#[test]
fn method_selection() {
    assert_eq!(read_method(&[5, 0]), Ok(()));
    assert_eq!(read_method(&[5, 0xff]), Err(Error::NoAcceptableAuthMethods));
    assert_eq!(read_method(&[5, 1]), Err(Error::UnknownAuthMethod));
    assert_eq!(read_method(&[5, 2]), Err(Error::UnknownAuthMethod));
    assert_eq!(read_method(&[5, 0xfe]), Err(Error::UnknownAuthMethod));
}

#[test]
fn method_selection_with_a_wrong_version() {
    assert_eq!(read_method(&[4, 0]), Err(Error::InvalidResponseVersion));
    assert_eq!(read_method(&[0, 0]), Err(Error::InvalidResponseVersion));
    assert_eq!(read_method(&[4]), Err(Error::InvalidResponseVersion));
}

#[test]
fn method_selection_that_is_cut_short() {
    assert_eq!(read_method(&[]), Err(Error::UnexpectedEof));
    assert_eq!(read_method(&[5]), Err(Error::UnexpectedEof));
}

#[test]
fn known_status_codes() {
    assert_eq!(read_status(0), Ok(()));
    assert_eq!(read_status(1), Err(Error::GeneralFailure));
    assert_eq!(read_status(2), Err(Error::NotAllowedByRuleset));
    assert_eq!(read_status(3), Err(Error::NetworkUnreachable));
    assert_eq!(read_status(4), Err(Error::HostUnreachable));
    assert_eq!(read_status(5), Err(Error::ConnectionRefused));
    assert_eq!(read_status(6), Err(Error::TtlExpired));
    assert_eq!(read_status(7), Err(Error::CommandNotSupported));
    assert_eq!(read_status(8), Err(Error::AddressTypeNotSupported));
}

#[test]
fn unknown_status_codes_are_kept_apart() {
    let known = [
        Error::GeneralFailure,
        Error::NotAllowedByRuleset,
        Error::NetworkUnreachable,
        Error::HostUnreachable,
        Error::ConnectionRefused,
        Error::TtlExpired,
        Error::CommandNotSupported,
        Error::AddressTypeNotSupported,
    ];
    for code in 9..=255u8 {
        let result = read_status(code);
        assert_eq!(result, Err(Error::UnknownError(code)));
        for failure in known.iter() {
            assert_ne!(result, Err(*failure));
        }
    }
}

#[test]
fn connect_request_for_an_ipv4_target() {
    let target = TargetAddr::Ip(SocketAddress::v4(93, 184, 216, 34, 80));
    assert_eq!(
        write_request(Command::Connect, &target),
        Ok(vec![5, 1, 0, 1, 93, 184, 216, 34, 0, 80])
    );
}

#[test]
fn bind_request_for_an_ipv6_target() {
    let target = TargetAddr::Ip(SocketAddress::v6([0, 0, 0, 0, 0, 0, 0, 1], 8080));
    assert_eq!(
        write_request(Command::Bind, &target),
        Ok(vec![5, 2, 0, 4, 0, 0, 0, 0, 0, 0, 0, 0, 0, 0, 0, 0, 0, 0, 0, 1, 0x1f, 0x90])
    );
}

#[test]
fn connect_request_for_a_domain() {
    let target = TargetAddr::Domain("google.com".to_string(), 80);
    let mut expected = vec![5, 1, 0, 3, 10];
    expected.extend_from_slice(b"google.com");
    expected.extend_from_slice(&[0, 80]);
    assert_eq!(write_request(Command::Connect, &target), Ok(expected));
}

#[test]
fn request_for_a_domain_that_is_too_long() {
    let target = TargetAddr::Domain("d".repeat(256), 80);
    assert_eq!(write_request(Command::Connect, &target), Err(Error::DomainTooLong));
    assert_eq!(write_request(Command::Bind, &target), Err(Error::DomainTooLong));
}

#[test]
fn reply_with_an_ipv4_address() {
    let reply = [5, 0, 0, 1, 1, 0, 0, 1, 0, 0x50];
    assert_eq!(read_response(&reply), Ok((SocketAddress::v4(1, 0, 0, 1, 80), 10)));
}

#[test]
fn reply_with_an_ipv6_address() {
    let reply = [
        5, 0, 0, 4, 0xfe, 0x80, 0, 0, 0, 0, 0, 0, 0, 0, 0, 0, 0, 0, 0, 2, 0xc0, 0x00,
    ];
    assert_eq!(
        read_response(&reply),
        Ok((SocketAddress::v6([0xfe80, 0, 0, 0, 0, 0, 0, 2], 0xc000), 22))
    );
}

#[test]
fn reply_with_a_failure_status() {
    assert_eq!(read_response(&[5, 1, 0, 1, 0, 0, 0, 0, 0, 0]), Err(Error::GeneralFailure));
    assert_eq!(read_response(&[5, 5, 0, 1, 0, 0, 0, 0, 0, 0]), Err(Error::ConnectionRefused));
    assert_eq!(read_response(&[5, 8]), Err(Error::AddressTypeNotSupported));
    assert_eq!(read_response(&[5, 9, 0, 1, 0, 0, 0, 0, 0, 0]), Err(Error::UnknownError(9)));
    assert_eq!(read_response(&[5, 0x5a, 0, 1, 0, 0, 0, 0, 0, 0]), Err(Error::UnknownError(0x5a)));
}

#[test]
fn reply_that_violates_the_protocol() {
    assert_eq!(
        read_response(&[4, 0, 0, 1, 1, 0, 0, 1, 0, 80]),
        Err(Error::InvalidResponseVersion)
    );
    assert_eq!(
        read_response(&[5, 0, 1, 1, 1, 0, 0, 1, 0, 80]),
        Err(Error::InvalidReservedByte)
    );
    assert_eq!(
        read_response(&[5, 0, 0, 2, 1, 0, 0, 1, 0, 80]),
        Err(Error::UnsupportedAddressType)
    );
    assert_eq!(
        read_response(&[5, 0, 0, 3, 1, b'a', 0, 80]),
        Err(Error::UnsupportedAddressType)
    );
}

#[test]
fn reply_checks_come_in_the_order_of_the_bytes() {
    assert_eq!(read_response(&[4, 1, 1, 9]), Err(Error::InvalidResponseVersion));
    assert_eq!(read_response(&[5, 1, 1, 9]), Err(Error::GeneralFailure));
    assert_eq!(read_response(&[5, 0, 1, 9]), Err(Error::InvalidReservedByte));
    assert_eq!(read_response(&[5, 0, 0, 9]), Err(Error::UnsupportedAddressType));
}

#[test]
fn reply_that_is_cut_short() {
    assert_eq!(read_response(&[]), Err(Error::UnexpectedEof));
    assert_eq!(read_response(&[5]), Err(Error::UnexpectedEof));
    assert_eq!(read_response(&[5, 0]), Err(Error::UnexpectedEof));
    assert_eq!(read_response(&[5, 0, 0]), Err(Error::UnexpectedEof));
    assert_eq!(read_response(&[5, 0, 0, 1]), Err(Error::UnexpectedEof));
    assert_eq!(read_response(&[5, 0, 0, 1, 1, 0, 0, 1, 0]), Err(Error::UnexpectedEof));
    assert_eq!(read_response(&[5, 0, 0, 4, 1, 0, 0, 1, 0, 80]), Err(Error::UnexpectedEof));
}

#[test]
fn length_of_a_reply_from_its_head() {
    assert_eq!(response_len(&[5, 0, 0, 1]), Ok(10));
    assert_eq!(response_len(&[5, 0, 0, 4]), Ok(22));
    assert_eq!(response_len(&[5, 0, 0, 3]), Err(Error::UnsupportedAddressType));
    assert_eq!(response_len(&[5, 2, 0, 1]), Err(Error::NotAllowedByRuleset));
    assert_eq!(response_len(&[6, 0, 0, 1]), Err(Error::InvalidResponseVersion));
    assert_eq!(response_len(&[5, 0, 7, 1]), Err(Error::InvalidReservedByte));
    assert_eq!(response_len(&[5, 0, 0]), Err(Error::UnexpectedEof));
}

#[test]
fn handshake_of_a_granted_connect() {
    let target = TargetAddr::Ip(SocketAddress::v4(93, 184, 216, 34, 80));
    let hs = Handshake::connect(&target).unwrap();
    assert_eq!(hs.command(), Command::Connect);
    assert_eq!(hs.outgoing(), vec![5, 1, 0]);
    assert_eq!(hs.wanted(), 2);
    assert!(!hs.is_done());
    assert_eq!(hs.proxy_addr(), None);

    let hs = hs.advance(&[5, 0]).unwrap();
    assert_eq!(hs.outgoing(), vec![5, 1, 0, 1, 93, 184, 216, 34, 0, 80]);
    assert_eq!(hs.wanted(), 4);
    assert!(!hs.is_done());

    let hs = hs.advance(&[5, 0, 0, 1]).unwrap();
    assert_eq!(hs.outgoing(), Vec::<u8>::new());
    assert_eq!(hs.wanted(), 6);
    assert!(!hs.is_done());

    let hs = hs.advance(&[10, 0, 0, 7, 0x04, 0x38]).unwrap();
    assert_eq!(hs.outgoing(), Vec::<u8>::new());
    assert_eq!(hs.wanted(), 0);
    assert!(hs.is_done());
    assert_eq!(hs.command(), Command::Connect);
    assert_eq!(hs.proxy_addr(), Some(SocketAddress::v4(10, 0, 0, 7, 1080)));
}

#[test]
fn handshake_with_an_ipv6_reply_wants_eighteen_more_bytes() {
    let target = TargetAddr::Domain("example.org".to_string(), 443);
    let hs = Handshake::bind(&target).unwrap();
    assert_eq!(hs.command(), Command::Bind);
    let hs = hs.advance(&[5, 0]).unwrap();
    let mut request = vec![5, 2, 0, 3, 11];
    request.extend_from_slice(b"example.org");
    request.extend_from_slice(&[1, 0xbb]);
    assert_eq!(hs.outgoing(), request);
    let hs = hs.advance(&[5, 0, 0, 4]).unwrap();
    assert_eq!(hs.wanted(), 18);
    let hs = hs.advance(&[0, 1, 0, 2, 0, 3, 0, 4, 0, 5, 0, 6, 0, 7, 0, 8, 0, 9]).unwrap();
    assert_eq!(hs.proxy_addr(), Some(SocketAddress::v6([1, 2, 3, 4, 5, 6, 7, 8], 9)));
}

#[test]
fn handshake_for_a_relay_names_the_unspecified_address() {
    let hs = Handshake::associate();
    assert_eq!(hs.command(), Command::Associate);
    assert_eq!(hs.outgoing(), vec![5, 1, 0]);
    let hs = hs.advance(&[5, 0]).unwrap();
    assert_eq!(hs.outgoing(), vec![5, 3, 0, 1, 0, 0, 0, 0, 0, 0]);
}

#[test]
fn handshake_rejects_a_long_domain_before_anything_is_written() {
    let target = TargetAddr::Domain("a".repeat(256), 80);
    assert_eq!(Handshake::connect(&target).err(), Some(Error::DomainTooLong));
    assert_eq!(Handshake::bind(&target).err(), Some(Error::DomainTooLong));
    let target = TargetAddr::Domain("a".repeat(255), 80);
    assert!(Handshake::connect(&target).is_ok());
}

#[test]
fn handshake_ends_where_the_method_is_refused() {
    let target = TargetAddr::Ip(SocketAddress::v4(1, 1, 1, 1, 53));
    let start = || Handshake::connect(&target).unwrap();
    assert_eq!(start().advance(&[5, 0xff]).err(), Some(Error::NoAcceptableAuthMethods));
    assert_eq!(start().advance(&[5, 2]).err(), Some(Error::UnknownAuthMethod));
    assert_eq!(start().advance(&[4, 0]).err(), Some(Error::InvalidResponseVersion));
    assert_eq!(start().advance(&[5]).err(), Some(Error::UnexpectedEof));
    assert_eq!(start().advance(&[]).err(), Some(Error::UnexpectedEof));
}

#[test]
fn handshake_ends_where_the_reply_is_a_failure() {
    let target = TargetAddr::Ip(SocketAddress::v4(1, 1, 1, 1, 53));
    let start = || Handshake::connect(&target).unwrap().advance(&[5, 0]).unwrap();
    assert_eq!(start().advance(&[5, 4, 0, 1]).err(), Some(Error::HostUnreachable));
    assert_eq!(start().advance(&[5, 200, 0, 1]).err(), Some(Error::UnknownError(200)));
    assert_eq!(start().advance(&[5, 0, 9, 1]).err(), Some(Error::InvalidReservedByte));
    assert_eq!(start().advance(&[5, 0, 0, 3]).err(), Some(Error::UnsupportedAddressType));
    assert_eq!(start().advance(&[5, 0, 0]).err(), Some(Error::UnexpectedEof));
    let waiting = start().advance(&[5, 0, 0, 1]).unwrap();
    assert_eq!(waiting.advance(&[1, 2, 3, 4, 5]).err(), Some(Error::UnexpectedEof));
}

#[test]
fn handshake_that_is_done_stays_done() {
    let target = TargetAddr::Ip(SocketAddress::v4(1, 1, 1, 1, 53));
    let hs = Handshake::connect(&target)
        .unwrap()
        .advance(&[5, 0])
        .unwrap()
        .advance(&[5, 0, 0, 1])
        .unwrap()
        .advance(&[9, 8, 7, 6, 0, 1])
        .unwrap();
    let again = hs.advance(&[1, 2, 3]).unwrap();
    assert!(again.is_done());
    assert_eq!(again.proxy_addr(), Some(SocketAddress::v4(9, 8, 7, 6, 1)));
    assert_eq!(again.wanted(), 0);
}
