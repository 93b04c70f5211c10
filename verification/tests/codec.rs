use bytes::BytesMut;
use socks_rs::addr::AddrType;
use socks_rs::reader::ByteReader;
use socks_rs::request::{AuthMethodsRequest, Request};
use socks_rs::response::{AuthMethodsResponse, Response, ResponseCode};
use socks_rs::{
    Addr, AuthMethod, Command, Error, IoErrorKind, SocketEndpoint, TargetAddr, Version,
};

fn short(missing: usize) -> Error {
    Error::IoError(IoErrorKind::UnexpectedEof(missing))
}

fn v4(a: u8, b: u8, c: u8, d: u8, port: u16) -> Addr {
    Addr::new(TargetAddr::Addr(SocketEndpoint::V4([a, b, c, d], port)))
}

fn v6(port: u16) -> Addr {
    Addr::new(TargetAddr::Addr(SocketEndpoint::V6(
        [0x20, 0x01, 0x0d, 0xb8, 0, 0, 0, 0, 0, 0, 0, 0, 0, 0, 0, 1],
        port,
    )))
}

fn host(name: &str, port: u16) -> Addr {
    Addr::new(TargetAddr::from((name, port)))
}

fn addr_bytes(addr: &Addr) -> Vec<u8> {
    let mut buf = BytesMut::with_capacity(32);
    addr.write_to_buf(&mut buf).unwrap();
    buf.to_vec()
}

#[test]
fn version_bytes() {
    assert_eq!(u8::from(Version::V4), 0x04);
    assert_eq!(u8::from(Version::V5), 0x05);
    let b: u8 = Version::V5.into();
    assert_eq!(b, 5);
    assert_eq!(Version::V5.byte(), 5);
    assert_eq!(Version::try_from(0x04), Ok(Version::V4));
    assert_eq!(Version::try_from(0x05), Ok(Version::V5));
}

#[test]
fn version_rejects_every_other_byte() {
    for raw in 0..=255u8 {
        if raw != 4 && raw != 5 {
            assert_eq!(Version::try_from(raw), Err(Error::VersionNotSupported(raw)));
        }
    }
}

#[test]
fn auth_method_bytes() {
    assert_eq!(u8::from(AuthMethod::NoAuth), 0x00);
    assert_eq!(u8::from(AuthMethod::GssApi), 0x01);
    assert_eq!(u8::from(AuthMethod::UsernamePassword), 0x02);
    assert_eq!(u8::from(AuthMethod::IanaReserved(0x10)), 0x10);
    assert_eq!(u8::from(AuthMethod::Private(0x90)), 0x90);
    assert_eq!(AuthMethod::try_from(0x00), Ok(AuthMethod::NoAuth));
    assert_eq!(AuthMethod::try_from(0x01), Ok(AuthMethod::GssApi));
    assert_eq!(AuthMethod::try_from(0x02), Ok(AuthMethod::UsernamePassword));
    assert_eq!(AuthMethod::try_from(0x03), Ok(AuthMethod::IanaReserved(0x03)));
    assert_eq!(AuthMethod::try_from(0x7f), Ok(AuthMethod::IanaReserved(0x7f)));
    assert_eq!(AuthMethod::try_from(0x80), Ok(AuthMethod::Private(0x80)));
    assert_eq!(AuthMethod::try_from(0xfe), Ok(AuthMethod::Private(0xfe)));
    assert_eq!(AuthMethod::try_from(0xff), Err(Error::AuthMethodNotSupported(0xff)));
}

#[test]
fn auth_method_byte_round_trip() {
    for raw in 0..=0xfeu8 {
        let method = AuthMethod::try_from(raw).unwrap();
        assert_eq!(u8::from(method), raw);
    }
}

#[test]
fn command_bytes() {
    assert_eq!(u8::from(Command::Connect), 0x01);
    assert_eq!(u8::from(Command::Bind), 0x02);
    assert_eq!(u8::from(Command::UdpAssociate), 0x03);
    assert_eq!(Command::try_from(0x01), Ok(Command::Connect));
    assert_eq!(Command::try_from(0x02), Ok(Command::Bind));
    assert_eq!(Command::try_from(0x03), Ok(Command::UdpAssociate));
    assert_eq!(Command::try_from(0x00), Err(Error::CommandNotSupported(0x00)));
    assert_eq!(Command::try_from(0x04), Err(Error::CommandNotSupported(0x04)));
}

#[test]
fn addr_type_bytes() {
    assert_eq!(u8::from(AddrType::Ipv4), 0x01);
    assert_eq!(u8::from(AddrType::Domain), 0x03);
    assert_eq!(u8::from(AddrType::Ipv6), 0x04);
    assert_eq!(AddrType::try_from(0x01), Ok(AddrType::Ipv4));
    assert_eq!(AddrType::try_from(0x03), Ok(AddrType::Domain));
    assert_eq!(AddrType::try_from(0x04), Ok(AddrType::Ipv6));
    assert_eq!(AddrType::try_from(0x02), Err(Error::AddrTypeNotSupported(0x02)));
}

#[test]
fn response_code_bytes_follow_the_rfc() {
    let codes = [
        (ResponseCode::Success, 0x00u8),
        (ResponseCode::GeneralSocksServerFailure, 0x01),
        (ResponseCode::ConnectionNotAllowedByRuleset, 0x02),
        (ResponseCode::NetworkUnreachable, 0x03),
        (ResponseCode::HostUnreachable, 0x04),
        (ResponseCode::ConnectionRefused, 0x05),
        (ResponseCode::TtlExpired, 0x06),
        (ResponseCode::CommandNotSupported, 0x07),
        (ResponseCode::AddrTypeNotSupported, 0x08),
    ];
    for (code, raw) in codes {
        assert_eq!(u8::from(code), raw);
        assert_eq!(ResponseCode::try_from(raw), Ok(code));
    }
    assert_eq!(ResponseCode::try_from(0x09), Err(Error::ResponseCodeNotSupported(0x09)));
    assert_eq!(ResponseCode::try_from(0xff), Err(Error::ResponseCodeNotSupported(0xff)));
}

#[test]
fn reader_reads_in_network_order() {
    let mut reader = ByteReader::new(vec![0x00, 0x50, 0x12, 0x34, 7]);
    assert_eq!(reader.remaining(), 5);
    assert_eq!(reader.read_u16(), Ok(80));
    assert_eq!(reader.read_u16(), Ok(0x1234));
    assert_eq!(reader.position(), 4);
    assert_eq!(reader.read_u16(), Err(short(1)));
    assert_eq!(reader.position(), 4);
    assert_eq!(reader.read_u8(), Ok(7));
    assert_eq!(reader.read_u8(), Err(short(1)));
    assert_eq!(reader.read_u16(), Err(short(2)));
}

#[test]
fn reader_read_exact_and_feed() {
    let mut reader = ByteReader::new(vec![1, 2, 3]);
    assert_eq!(reader.read_exact(5), Err(short(2)));
    assert_eq!(reader.remaining(), 3);
    reader.feed(&[4, 5, 6]);
    assert_eq!(reader.read_exact(5), Ok(vec![1, 2, 3, 4, 5]));
    assert_eq!(reader.read_exact(0), Ok(vec![]));
    assert_eq!(reader.remaining(), 1);
    reader.rewind(2);
    assert_eq!(reader.read_exact(4), Ok(vec![3, 4, 5, 6]));
    assert_eq!(reader.remaining(), 0);
}

#[test]
fn ipv4_triple_bytes() {
    let addr = v4(127, 0, 0, 1, 8080);
    assert_eq!(addr_bytes(&addr), vec![0x01, 127, 0, 0, 1, 0x1f, 0x90]);
    assert_eq!(addr.serialize_len(), 7);
}

#[test]
fn ipv6_triple_bytes() {
    let addr = v6(443);
    assert_eq!(
        addr_bytes(&addr),
        vec![0x04, 0x20, 0x01, 0x0d, 0xb8, 0, 0, 0, 0, 0, 0, 0, 0, 0, 0, 0, 1, 0x01, 0xbb]
    );
    assert_eq!(addr.serialize_len(), 19);
}

#[test]
fn domain_triple_bytes() {
    let addr = host("example.com", 80);
    let mut expected = vec![0x03, 11];
    expected.extend_from_slice(b"example.com");
    expected.extend_from_slice(&[0x00, 0x50]);
    assert_eq!(addr_bytes(&addr), expected);
    assert_eq!(addr.serialize_len(), 15);
}

#[test]
fn write_to_buf_appends() {
    let mut buf = BytesMut::with_capacity(16);
    buf.extend_from_slice(&[9, 9]);
    v4(10, 0, 0, 2, 1).write_to_buf(&mut buf).unwrap();
    assert_eq!(buf.to_vec(), vec![9, 9, 0x01, 10, 0, 0, 2, 0, 1]);
}

#[test]
fn serialize_len_is_what_the_encoder_writes() {
    let name_255 = "a".repeat(255);
    let addrs = vec![
        v4(0, 0, 0, 0, 0),
        v4(192, 168, 1, 1, 65535),
        v6(1),
        host("", 1),
        host("a", 2),
        host("example.com", 80),
        host("b\u{fc}cher.example", 80),
        host(&name_255, 3),
    ];
    for addr in addrs {
        assert_eq!(addr.serialize_len(), addr_bytes(&addr).len());
    }
}

#[test]
fn addr_round_trip() {
    let name_255 = "x".repeat(255);
    let addrs = vec![
        v4(0, 0, 0, 0, 0),
        v4(1, 2, 3, 4, 0x0102),
        v6(65535),
        host("", 0),
        host("example.com", 80),
        host("\u{4f8b}\u{3048}.jp", 8080),
        host(&name_255, 1),
    ];
    for addr in addrs {
        let bytes = addr_bytes(&addr);
        let mut reader = ByteReader::new(bytes.clone());
        assert_eq!(Addr::read_from(&mut reader), Ok(addr));
        assert_eq!(reader.position(), bytes.len());
    }
}

#[test]
fn addr_read_leaves_what_follows() {
    let mut reader = ByteReader::new(vec![0x01, 1, 2, 3, 4, 0, 80, 0xaa, 0xbb]);
    assert_eq!(Addr::read_from(&mut reader), Ok(v4(1, 2, 3, 4, 80)));
    assert_eq!(reader.remaining(), 2);
    assert_eq!(reader.read_u8(), Ok(0xaa));
}

#[test]
fn domain_longer_than_255_bytes_is_refused() {
    let name = "a".repeat(256);
    let addr = host(&name, 80);
    let mut buf = BytesMut::with_capacity(16);
    buf.extend_from_slice(&[1, 2, 3]);
    assert_eq!(addr.write_to_buf(&mut buf), Err(Error::DomainTooLong));
    assert_eq!(buf.to_vec(), vec![1, 2, 3]);
    assert_eq!(addr.serialize_len(), 260);

    let mut writer = vec![7];
    let request = Request::new(Version::V5, Command::Connect, host(&name, 80));
    assert_eq!(request.write_to(&mut writer), Err(Error::DomainTooLong));
    assert_eq!(writer, vec![7]);
    let response = Response::new(Version::V5, ResponseCode::Success, host(&name, 80));
    assert_eq!(response.write_to(&mut writer), Err(Error::DomainTooLong));
    assert_eq!(writer, vec![7]);
}

#[test]
fn domain_of_255_bytes_counted_in_bytes_not_characters() {
    // 128 two-byte characters are 256 bytes.
    let name = "\u{e9}".repeat(128);
    let mut buf = BytesMut::with_capacity(16);
    assert_eq!(host(&name, 1).write_to_buf(&mut buf), Err(Error::DomainTooLong));
    assert_eq!(buf.len(), 0);
}

#[test]
fn unknown_addr_type_is_refused_with_its_byte() {
    for raw in 0..=255u8 {
        if raw == 1 || raw == 3 || raw == 4 {
            continue;
        }
        let mut reader = ByteReader::new(vec![raw, 1, 2, 3, 4, 0, 80]);
        assert_eq!(Addr::read_from(&mut reader), Err(Error::AddrTypeNotSupported(raw)));
        assert_eq!(reader.position(), 0);
    }
}

#[test]
fn domain_that_is_not_utf8_is_refused() {
    let mut reader = ByteReader::new(vec![0x03, 2, 0xff, 0xfe, 0, 80]);
    let r = Addr::read_from(&mut reader);
    assert!(matches!(r, Err(Error::InvalidDomain(_))));
    assert_eq!(reader.position(), 0);
    // The name is checked before the port is read.
    let mut reader = ByteReader::new(vec![0x03, 2, 0xc3, 0x28]);
    assert!(matches!(Addr::read_from(&mut reader), Err(Error::InvalidDomain(_))));
}

#[test]
fn addr_read_says_how_many_bytes_are_missing() {
    let full = vec![0x03, 3, b'a', b'b', b'c', 0x01, 0xbb];
    let expected = [1usize, 1, 3, 2, 1, 2, 1];
    for cut in 0..full.len() {
        let mut reader = ByteReader::new(full[..cut].to_vec());
        assert_eq!(Addr::read_from(&mut reader), Err(short(expected[cut])), "cut {}", cut);
        assert_eq!(reader.position(), 0);
    }
    let full = vec![0x01, 1, 2, 3, 4, 0, 80];
    let expected = [1usize, 4, 3, 2, 1, 2, 1];
    for cut in 0..full.len() {
        let mut reader = ByteReader::new(full[..cut].to_vec());
        assert_eq!(Addr::read_from(&mut reader), Err(short(expected[cut])), "cut {}", cut);
    }
    let mut reader = ByteReader::new(vec![0x04, 1, 2, 3]);
    assert_eq!(Addr::read_from(&mut reader), Err(short(13)));
}

#[test]
fn addr_is_read_as_it_arrives() {
    let full = vec![0x03, 3, b'a', b'b', b'c', 0x01, 0xbb];
    let mut reader = ByteReader::new(vec![]);
    let mut fed = 0;
    let addr = loop {
        match Addr::read_from(&mut reader) {
            Ok(addr) => break addr,
            Err(Error::IoError(IoErrorKind::UnexpectedEof(missing))) => {
                reader.feed(&full[fed..fed + missing]);
                fed += missing;
            }
            Err(e) => panic!("{:?}", e),
        }
    };
    assert_eq!(fed, full.len());
    assert_eq!(addr, host("abc", 443));
}

#[test]
fn is_dummy() {
    assert!(v4(0, 0, 0, 0, 0).is_dummy());
    assert!(v4(0, 0, 0, 0, 80).is_dummy());
    assert!(v4(127, 0, 0, 1, 0).is_dummy());
    assert!(!v4(127, 0, 0, 1, 80).is_dummy());
    assert!(!v4(0, 0, 0, 1, 80).is_dummy());
    assert!(v6(0).is_dummy());
    assert!(!v6(80).is_dummy());
    assert!(Addr::new(TargetAddr::Addr(SocketEndpoint::V6([0; 16], 80))).is_dummy());
    assert!(!host("example.com", 0).is_dummy());
    assert!(!host("", 0).is_dummy());
}

#[test]
fn target_addr_accessors() {
    let target = TargetAddr::from(("example.com", 80));
    assert_eq!(target, TargetAddr::Host("example.com".to_owned(), 80));
    assert_eq!(target.port(), 80);
    let endpoint = SocketEndpoint::V4([1, 2, 3, 4], 99);
    let target = TargetAddr::from(endpoint);
    assert_eq!(target, TargetAddr::Addr(endpoint));
    assert_eq!(target.port(), 99);
    assert_eq!(target.unwrap_addr(), endpoint);
    assert_eq!(endpoint.port(), 99);
    assert!(!endpoint.is_unspecified());
    assert!(SocketEndpoint::V4([0; 4], 99).is_unspecified());
    let addr = Addr::new(target.clone());
    assert_eq!(addr.inner(), &target);
    assert_eq!(addr.clone(), addr);
}

#[test]
fn methods_request_bytes() {
    let request = AuthMethodsRequest::new(
        Version::V5,
        vec![AuthMethod::NoAuth, AuthMethod::UsernamePassword],
    );
    let mut writer = vec![];
    assert_eq!(request.write_to(&mut writer), Ok(()));
    assert_eq!(writer, vec![0x05, 0x02, 0x00, 0x02]);
}

#[test]
fn methods_request_round_trip() {
    let all: Vec<AuthMethod> = (0..=0xfeu8).map(|b| AuthMethod::try_from(b).unwrap()).collect();
    assert_eq!(all.len(), 255);
    let cases = vec![
        vec![AuthMethod::NoAuth],
        vec![AuthMethod::UsernamePassword, AuthMethod::NoAuth, AuthMethod::GssApi],
        vec![AuthMethod::IanaReserved(0x03), AuthMethod::Private(0xfe)],
        all,
    ];
    for methods in cases {
        for version in [Version::V4, Version::V5] {
            let request = AuthMethodsRequest::new(version, methods.clone());
            let mut writer = vec![];
            request.write_to(&mut writer).unwrap();
            assert_eq!(writer.len(), 2 + methods.len());
            let mut reader = ByteReader::new(writer.clone());
            assert_eq!(AuthMethodsRequest::read_from(&mut reader), Ok(request));
            assert_eq!(reader.position(), writer.len());
        }
    }
}

#[test]
fn methods_request_with_no_method_round_trips() {
    let request = AuthMethodsRequest::new(Version::V5, vec![]);
    let mut writer = vec![];
    request.write_to(&mut writer).unwrap();
    assert_eq!(writer, vec![5, 0]);
    let mut reader = ByteReader::new(writer);
    assert_eq!(AuthMethodsRequest::read_from(&mut reader), Ok(request));
}

#[test]
fn more_than_255_methods_are_refused() {
    let request = AuthMethodsRequest::new(Version::V5, vec![AuthMethod::NoAuth; 256]);
    let mut writer = vec![1, 2];
    assert_eq!(request.write_to(&mut writer), Err(Error::TooManyMethods));
    assert_eq!(writer, vec![1, 2]);
    let request = AuthMethodsRequest::new(Version::V5, vec![AuthMethod::NoAuth; 255]);
    assert_eq!(request.write_to(&mut writer), Ok(()));
    assert_eq!(writer.len(), 2 + 2 + 255);
    assert_eq!(writer[3], 255);
}

#[test]
fn methods_request_errors() {
    let mut reader = ByteReader::new(vec![]);
    assert_eq!(AuthMethodsRequest::read_from(&mut reader), Err(short(1)));
    let mut reader = ByteReader::new(vec![5]);
    assert_eq!(AuthMethodsRequest::read_from(&mut reader), Err(short(1)));
    let mut reader = ByteReader::new(vec![5, 3, 0]);
    assert_eq!(AuthMethodsRequest::read_from(&mut reader), Err(short(1)));
    assert_eq!(reader.position(), 0);
    let mut reader = ByteReader::new(vec![5, 3, 0, 0xff]);
    assert_eq!(
        AuthMethodsRequest::read_from(&mut reader),
        Err(Error::AuthMethodNotSupported(0xff))
    );
    let mut reader = ByteReader::new(vec![5, 1, 0, 0xff]);
    assert_eq!(
        AuthMethodsRequest::read_from(&mut reader),
        Ok(AuthMethodsRequest::new(Version::V5, vec![AuthMethod::NoAuth]))
    );
    assert_eq!(reader.remaining(), 1);
}

#[test]
fn methods_response_bytes_and_round_trip() {
    let cases = [
        (Some(AuthMethod::NoAuth), 0x00u8),
        (Some(AuthMethod::UsernamePassword), 0x02),
        (Some(AuthMethod::Private(0x80)), 0x80),
        (None, 0xff),
    ];
    for (method, raw) in cases {
        let response = AuthMethodsResponse::new(Version::V5, method);
        let mut writer = vec![];
        assert_eq!(response.write_to(&mut writer), Ok(()));
        assert_eq!(writer, vec![0x05, raw]);
        let mut reader = ByteReader::new(writer);
        assert_eq!(AuthMethodsResponse::read_from(&mut reader), Ok(response));
        assert_eq!(reader.remaining(), 0);
    }
}

#[test]
fn methods_response_errors() {
    let mut reader = ByteReader::new(vec![]);
    assert_eq!(AuthMethodsResponse::read_from(&mut reader), Err(short(1)));
    let mut reader = ByteReader::new(vec![5]);
    assert_eq!(AuthMethodsResponse::read_from(&mut reader), Err(short(1)));
    assert_eq!(reader.position(), 0);
    let mut reader = ByteReader::new(vec![6, 0]);
    assert_eq!(AuthMethodsResponse::read_from(&mut reader), Err(Error::VersionNotSupported(6)));
}

#[test]
fn request_bytes() {
    let request = Request::new(Version::V5, Command::Connect, host("example.com", 80));
    let mut writer = vec![];
    assert_eq!(request.write_to(&mut writer), Ok(()));
    let mut expected = vec![0x05, 0x01, 0x00, 0x03, 11];
    expected.extend_from_slice(b"example.com");
    expected.extend_from_slice(&[0, 80]);
    assert_eq!(writer, expected);
}

#[test]
fn request_round_trip_and_length() {
    let name_255 = "n".repeat(255);
    let addrs = vec![v4(8, 8, 8, 8, 53), v6(443), host("example.com", 80), host(&name_255, 9)];
    for addr in addrs {
        for command in [Command::Connect, Command::Bind, Command::UdpAssociate] {
            for version in [Version::V4, Version::V5] {
                let request = Request::new(version, command, addr.clone());
                let mut writer = vec![];
                request.write_to(&mut writer).unwrap();
                assert_eq!(writer.len(), 3 + addr.serialize_len());
                let mut reader = ByteReader::new(writer.clone());
                assert_eq!(Request::read_from(&mut reader), Ok(request));
                assert_eq!(reader.position(), writer.len());
            }
        }
    }
}

#[test]
fn request_ignores_the_reserved_byte() {
    let mut reader = ByteReader::new(vec![5, 1, 0x7e, 1, 1, 2, 3, 4, 0, 80]);
    assert_eq!(
        Request::read_from(&mut reader),
        Ok(Request::new(Version::V5, Command::Connect, v4(1, 2, 3, 4, 80)))
    );
}

#[test]
fn request_errors() {
    let mut reader = ByteReader::new(vec![5, 9, 0, 1, 1, 2, 3, 4, 0, 80]);
    assert_eq!(Request::read_from(&mut reader), Err(Error::CommandNotSupported(9)));
    assert_eq!(reader.position(), 0);
    let mut reader = ByteReader::new(vec![5, 1, 0, 2, 1, 2, 3, 4, 0, 80]);
    assert_eq!(Request::read_from(&mut reader), Err(Error::AddrTypeNotSupported(2)));
    assert_eq!(reader.position(), 0);
    let mut reader = ByteReader::new(vec![5, 1, 0, 1, 1, 2]);
    assert_eq!(Request::read_from(&mut reader), Err(short(2)));
    assert_eq!(reader.position(), 0);
    let mut reader = ByteReader::new(vec![5, 1]);
    assert_eq!(Request::read_from(&mut reader), Err(short(1)));
    let mut reader = ByteReader::new(vec![5, 1, 0]);
    assert_eq!(Request::read_from(&mut reader), Err(short(1)));
}

#[test]
fn response_bytes() {
    let response = Response::new(Version::V5, ResponseCode::Success, v4(0, 0, 0, 0, 0));
    let mut writer = vec![];
    assert_eq!(response.write_to(&mut writer), Ok(()));
    assert_eq!(writer, vec![0x05, 0x00, 0x00, 0x01, 0, 0, 0, 0, 0, 0]);
}

#[test]
fn response_round_trip() {
    let codes = [
        ResponseCode::Success,
        ResponseCode::GeneralSocksServerFailure,
        ResponseCode::ConnectionNotAllowedByRuleset,
        ResponseCode::NetworkUnreachable,
        ResponseCode::HostUnreachable,
        ResponseCode::ConnectionRefused,
        ResponseCode::TtlExpired,
        ResponseCode::CommandNotSupported,
        ResponseCode::AddrTypeNotSupported,
    ];
    let addrs = vec![v4(0, 0, 0, 0, 0), v6(1080), host("proxy.example", 1080)];
    for addr in addrs {
        for code in codes {
            let response = Response::new(Version::V5, code, addr.clone());
            let mut writer = vec![];
            response.write_to(&mut writer).unwrap();
            assert_eq!(writer.len(), 3 + addr.serialize_len());
            let mut reader = ByteReader::new(writer.clone());
            assert_eq!(Response::read_from(&mut reader), Ok(response));
            assert_eq!(reader.position(), writer.len());
        }
    }
}

#[test]
fn response_errors() {
    let mut reader = ByteReader::new(vec![5, 9, 0, 1, 0, 0, 0, 0, 0, 0]);
    assert_eq!(Response::read_from(&mut reader), Err(Error::ResponseCodeNotSupported(9)));
    let mut reader = ByteReader::new(vec![5, 0, 0, 7, 0, 0, 0, 0, 0, 0]);
    assert_eq!(Response::read_from(&mut reader), Err(Error::AddrTypeNotSupported(7)));
    let mut reader = ByteReader::new(vec![5, 0, 0, 1, 0, 0, 0]);
    assert_eq!(Response::read_from(&mut reader), Err(short(1)));
}

#[test]
fn every_decoder_refuses_an_unknown_version() {
    for raw in [0u8, 1, 3, 6, 0x7f, 0xff] {
        let bytes = vec![raw, 1, 0, 1, 1, 2, 3, 4, 0, 80];
        let mut reader = ByteReader::new(bytes.clone());
        assert_eq!(
            AuthMethodsRequest::read_from(&mut reader),
            Err(Error::VersionNotSupported(raw))
        );
        let mut reader = ByteReader::new(bytes.clone());
        assert_eq!(
            AuthMethodsResponse::read_from(&mut reader),
            Err(Error::VersionNotSupported(raw))
        );
        let mut reader = ByteReader::new(bytes.clone());
        assert_eq!(Request::read_from(&mut reader), Err(Error::VersionNotSupported(raw)));
        let mut reader = ByteReader::new(bytes);
        assert_eq!(Response::read_from(&mut reader), Err(Error::VersionNotSupported(raw)));
        assert_eq!(reader.position(), 0);
    }
}
