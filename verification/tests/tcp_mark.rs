//! Firewall marks.

use arti_c::ip::IpAddr;
use arti_c::tcp_mark::{mark_error, mark_socket, Domain, IoErrorKind, MarkedTcpProvider, SocketStep};
use tor_rtcompat::PreferredRuntime;

fn provider(mark: u32) -> MarkedTcpProvider {
    let _ = rustls::crypto::ring::default_provider().install_default();
    MarkedTcpProvider::new(PreferredRuntime::create().unwrap(), mark)
}

const V4: IpAddr = IpAddr::V4(192, 0, 2, 1);
const V6: IpAddr = IpAddr::V6(0x2001, 0xdb8, 0, 0, 0, 0, 0, 1);

#[test]
fn marked_between_open_and_connect() {
    assert_eq!(
        provider(7).connect(&V4, true),
        vec![
            SocketStep::Open(Domain::Ipv4),
            SocketStep::Mark(7),
            SocketStep::SetNonblocking,
            SocketStep::Connect,
        ]
    );
}

#[test]
fn zero_is_not_marked() {
    for so_mark in [false, true] {
        assert_eq!(
            provider(0).connect(&V6, so_mark),
            vec![SocketStep::Open(Domain::Ipv6), SocketStep::SetNonblocking, SocketStep::Connect]
        );
    }
}

#[test]
fn never_connected_unmarked() {
    assert_eq!(
        provider(7).connect(&V6, false),
        vec![SocketStep::Open(Domain::Ipv6), SocketStep::RefuseMark]
    );
    assert_eq!(mark_error().kind, IoErrorKind::Unsupported);
    assert_eq!(mark_error().message, "SO_MARK is not available on this platform");
}

#[test]
fn marking_a_socket() {
    assert_eq!(mark_socket(9, true), SocketStep::Mark(9));
    assert_eq!(mark_socket(9, false), SocketStep::RefuseMark);
}

#[test]
fn listening_is_unsupported() {
    match provider(7).listen() {
        Ok(_) => panic!("there is no listener"),
        Err(error) => {
            assert_eq!(error.kind, IoErrorKind::Unsupported);
            assert_eq!(error.message, "the marked TCP provider is client-only");
        }
    }
}

#[test]
fn text_for_debugging() {
    assert_eq!(provider(42).debug_text(), "MarkedTcpProvider { mark: 42, .. }");
    assert_eq!(provider(0).debug_text(), "MarkedTcpProvider { mark: 0, .. }");
    assert_eq!(provider(u32::MAX).debug_text(), "MarkedTcpProvider { mark: 4294967295, .. }");
}

#[test]
fn a_clone_has_the_same_mark() {
    let first = provider(42);
    assert_eq!(first.clone().mark(), 42);
    assert_eq!(first.mark(), 42);
    let _: &PreferredRuntime = first.runtime();
}
