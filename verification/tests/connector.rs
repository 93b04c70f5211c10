use socks_rs::connector::{tcp_connect, ConnectStep};
use socks_rs::{IoErrorKind, SocketEndpoint};

#[test]
fn no_endpoint_is_no_address() {
    assert_eq!(tcp_connect(&[], &[]), ConnectStep::GiveUp(IoErrorKind::AddrNotAvailable));
}

#[test]
fn endpoints_are_tried_in_order() {
    let a = SocketEndpoint::V4([10, 0, 0, 1], 80);
    let b = SocketEndpoint::V6([0, 0, 0, 0, 0, 0, 0, 0, 0, 0, 0, 0, 0, 0, 0, 1], 80);
    let c = SocketEndpoint::V4([10, 0, 0, 3], 80);
    let endpoints = [a, b, c];
    assert_eq!(tcp_connect(&endpoints, &[]), ConnectStep::Try(a));
    assert_eq!(tcp_connect(&endpoints, &[IoErrorKind::TimedOut]), ConnectStep::Try(b));
    assert_eq!(
        tcp_connect(&endpoints, &[IoErrorKind::TimedOut, IoErrorKind::ConnectionRefused]),
        ConnectStep::Try(c)
    );
}

#[test]
fn the_last_failure_is_reported() {
    let a = SocketEndpoint::V4([10, 0, 0, 1], 80);
    let b = SocketEndpoint::V4([10, 0, 0, 2], 80);
    assert_eq!(
        tcp_connect(&[a], &[IoErrorKind::ConnectionRefused]),
        ConnectStep::GiveUp(IoErrorKind::ConnectionRefused)
    );
    assert_eq!(
        tcp_connect(&[a, b], &[IoErrorKind::ConnectionRefused, IoErrorKind::TimedOut]),
        ConnectStep::GiveUp(IoErrorKind::TimedOut)
    );
}
