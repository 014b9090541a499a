//! SOCKS connections, from the bytes that a client sends to the replies it gets.

use arti_c::handle::{arti_is_ready, arti_last_error, Arti};
use arti_c::ip::IpAddr;
use arti_c::proto::Step;
use arti_c::socks::{
    accept_loop, handle_conn, plan, reply_error, socks_status, AcceptAction, AcceptEvent, Action,
    Connection, ErrorKind, Event, Family, Plan, SocksStatus, CONNECT, RESOLVE, RESOLVE_PTR,
};
use arti_c::ErrorSlot;
use tor_socksproto::{SocksAddr, SocksAuth, SocksCmd, SocksRequest, SocksVersion};

fn hostname(name: &str) -> SocksAddr {
    SocksAddr::Hostname(name.to_string().try_into().unwrap())
}

fn ip(text: &str) -> SocksAddr {
    SocksAddr::Ip(text.parse().unwrap())
}

fn request(version: SocksVersion, cmd: SocksCmd, addr: SocksAddr, port: u16) -> SocksRequest {
    SocksRequest::new(version, cmd, addr, port, SocksAuth::NoAuth).unwrap()
}

/// A connection of which the client has made a SOCKS5 request, and the action
/// that the request calls for. `tail` is the request behind its version.
fn requested(tail: &[u8]) -> (Connection, Action) {
    let mut conn = Connection::new();
    assert_eq!(handle_conn(&mut conn, Event::Accepted), Action::Receive(1024));
    assert_eq!(
        handle_conn(&mut conn, Event::Received(vec![5, 1, 0])),
        Action::Send(vec![5, 0])
    );
    assert_eq!(handle_conn(&mut conn, Event::Sent), Action::Receive(1024));
    let mut message = vec![5u8];
    message.extend_from_slice(tail);
    let action = handle_conn(&mut conn, Event::Received(message));
    (conn, action)
}

/// `CONNECT example.com:80`, behind the version.
fn connect_example() -> Vec<u8> {
    let mut tail = vec![1u8, 0, 3, 11];
    tail.extend_from_slice(b"example.com");
    tail.extend_from_slice(&[0, 80]);
    tail
}

/// `RESOLVE example.com`, behind the version.
fn resolve_example() -> Vec<u8> {
    let mut tail = connect_example();
    tail[0] = 0xF0;
    tail
}

#[test]
fn connect_succeeds() {
    let (mut conn, action) = requested(&connect_example());
    assert_eq!(
        action,
        Action::Connect { addr: "example.com".to_string(), port: 80, family: Family::Any }
    );
    assert_eq!(
        handle_conn(&mut conn, Event::Connected),
        Action::Send(vec![5, 0, 0, 1, 0, 0, 0, 0, 0, 0])
    );
    assert_eq!(handle_conn(&mut conn, Event::Sent), Action::Relay);
    assert_eq!(handle_conn(&mut conn, Event::Sent), Action::Close);
}

#[test]
fn connect_reply_cannot_be_written() {
    let (mut conn, _) = requested(&connect_example());
    handle_conn(&mut conn, Event::Connected);
    assert_eq!(handle_conn(&mut conn, Event::SendFailed), Action::Close);
}

#[test]
fn connect_failures_are_reported() {
    let cases = [
        (ErrorKind::ExitPolicyRejected, 2u8),
        (ErrorKind::RemoteConnectionRefused, 5),
        (ErrorKind::RemoteHostNotFound, 4),
        (ErrorKind::RemoteHostResolutionFailed, 4),
        (ErrorKind::Other, 1),
    ];
    for (kind, code) in cases {
        let (mut conn, _) = requested(&connect_example());
        assert_eq!(
            handle_conn(&mut conn, Event::ConnectFailed(kind)),
            Action::Finish(vec![5, code, 0, 1, 0, 0, 0, 0, 0, 0])
        );
        assert_eq!(handle_conn(&mut conn, Event::Sent), Action::Close);
    }
}

#[test]
fn address_rejected_is_reported() {
    let (mut conn, _) = requested(&connect_example());
    assert_eq!(
        handle_conn(&mut conn, Event::AddressRejected),
        Action::Finish(vec![5, 8, 0, 1, 0, 0, 0, 0, 0, 0])
    );
}

#[test]
fn connect_to_an_ipv4_address() {
    let (_, action) = requested(&[1, 0, 1, 192, 0, 2, 7, 0x1f, 0x90]);
    assert_eq!(
        action,
        Action::Connect { addr: "192.0.2.7".to_string(), port: 8080, family: Family::Ipv4Only }
    );
}

#[test]
fn connect_to_an_ipv6_address() {
    let mut tail = vec![1u8, 0, 4];
    tail.extend_from_slice(&[0x20, 0x01, 0x0d, 0xb8, 0, 0, 0, 0, 0, 0, 0, 0, 0, 0, 0, 1]);
    tail.extend_from_slice(&[0, 80]);
    let (mut conn, action) = requested(&tail);
    assert_eq!(
        action,
        Action::Connect { addr: "2001:db8::1".to_string(), port: 80, family: Family::Ipv6Only }
    );
    let mut reply = vec![5u8, 1, 0, 4];
    reply.extend_from_slice(&[0; 18]);
    assert_eq!(
        handle_conn(&mut conn, Event::ConnectFailed(ErrorKind::Other)),
        Action::Finish(reply)
    );
}

#[test]
fn a_name_that_is_an_address_selects_its_family() {
    let mut tail = vec![1u8, 0, 3, 9];
    tail.extend_from_slice(b"127.0.0.1");
    tail.extend_from_slice(&[0, 80]);
    let (_, action) = requested(&tail);
    assert_eq!(
        action,
        Action::Connect { addr: "127.0.0.1".to_string(), port: 80, family: Family::Ipv4Only }
    );
}

#[test]
fn resolve_answers_with_the_first_address() {
    let (mut conn, action) = requested(&resolve_example());
    assert_eq!(
        action,
        Action::Resolve { addr: "example.com".to_string(), family: Family::Any }
    );
    let found = vec![IpAddr::V4(192, 0, 2, 1), IpAddr::V4(192, 0, 2, 2)];
    assert_eq!(
        handle_conn(&mut conn, Event::Resolved(found)),
        Action::Finish(vec![5, 0, 0, 1, 192, 0, 2, 1, 0, 80])
    );
}

#[test]
fn resolve_answers_with_an_ipv6_address() {
    let (mut conn, _) = requested(&resolve_example());
    let found = vec![IpAddr::V6(0x2001, 0xdb8, 0, 0, 0, 0, 0x12, 0x3456)];
    let mut reply = vec![5u8, 0, 0, 4];
    reply.extend_from_slice(&[0x20, 0x01, 0x0d, 0xb8, 0, 0, 0, 0, 0, 0, 0, 0, 0, 0x12, 0x34, 0x56]);
    reply.extend_from_slice(&[0, 80]);
    assert_eq!(handle_conn(&mut conn, Event::Resolved(found)), Action::Finish(reply));
}

#[test]
fn resolve_without_an_address_fails() {
    for event in [Event::Resolved(vec![]), Event::ResolveFailed] {
        let (mut conn, _) = requested(&resolve_example());
        assert_eq!(
            handle_conn(&mut conn, event),
            Action::Finish(vec![5, 1, 0, 1, 0, 0, 0, 0, 0, 0])
        );
    }
}

#[test]
fn resolve_of_a_literal_answers_at_once() {
    let texts = [
        "1.2.3.4", "255.255.255.255", "0.0.0.0", "::", "::1", "1::", "2001:db8::8a2e:370:7334",
        "1:2:3:4:5:6:7:8", "1:2:3:4:5:6:7::", "::2:3:4:5:6:7:8", "::ffff:192.0.2.128",
        "1:2:3:4:5:6:1.2.3.4", "64:ff9b::192.0.2.33", "FE80::ABCD", "00ab::0001", "1::3:4:5:6:7:8",
    ];
    for text in texts {
        let wire = request(SocksVersion::V5, SocksCmd::RESOLVE, hostname(text), 7);
        let expected = wire.reply(0u8.into(), Some(&ip(text))).unwrap();
        let mut conn = Connection::new();
        assert_eq!(conn.serve(wire), Action::Finish(expected), "{}", text);
        assert_eq!(handle_conn(&mut conn, Event::Sent), Action::Close);
    }
}

#[test]
fn resolve_of_an_address_answers_with_that_address() {
    for text in ["10.0.0.1", "::", "::1", "1:0:0:2::3", "fe80::1:0:0:1", "::ffff:1.2.3.4", "a:b:c:d:e:f:1:2"] {
        let wire = request(SocksVersion::V5, SocksCmd::RESOLVE, ip(text), 7);
        let expected = wire.reply(0u8.into(), Some(&ip(text))).unwrap();
        assert_eq!(Connection::new().serve(wire), Action::Finish(expected), "{}", text);
    }
}

#[test]
fn resolve_ptr_is_refused() {
    let (mut conn, action) = requested(&[0xF1, 0, 1, 192, 0, 2, 7, 0, 0]);
    assert_eq!(action, Action::Finish(vec![5, 7, 0, 1, 0, 0, 0, 0, 0, 0]));
    assert_eq!(handle_conn(&mut conn, Event::Sent), Action::Close);
}

#[test]
fn socks4_replies() {
    let mut conn = Connection::new();
    handle_conn(&mut conn, Event::Accepted);
    let action = handle_conn(&mut conn, Event::Received(vec![4, 1, 0, 80, 192, 0, 2, 7, 0]));
    assert_eq!(
        action,
        Action::Connect { addr: "192.0.2.7".to_string(), port: 80, family: Family::Ipv4Only }
    );
    assert_eq!(
        handle_conn(&mut conn, Event::Connected),
        Action::Send(vec![0, 90, 0, 0, 0, 0, 0, 0])
    );

    let wire = request(SocksVersion::V4, SocksCmd::CONNECT, hostname("example.com"), 80);
    assert_eq!(
        reply_error(&wire, SocksStatus::HostUnreachable),
        Action::Finish(vec![0, 91, 0, 0, 0, 0, 0, 0])
    );

    let wire = request(SocksVersion::V4, SocksCmd::RESOLVE, hostname("192.0.2.9"), 258);
    assert_eq!(
        Connection::new().serve(wire),
        Action::Finish(vec![0, 90, 1, 2, 192, 0, 2, 9])
    );
    let wire = request(SocksVersion::V4, SocksCmd::RESOLVE, hostname("::1"), 258);
    assert_eq!(
        Connection::new().serve(wire),
        Action::Finish(vec![0, 90, 0, 0, 0, 0, 0, 0])
    );
}

#[test]
fn request_in_small_pieces() {
    let mut conn = Connection::new();
    assert_eq!(handle_conn(&mut conn, Event::Accepted), Action::Receive(1024));
    assert_eq!(handle_conn(&mut conn, Event::Received(vec![4, 1, 0])), Action::Receive(1021));
    assert_eq!(
        handle_conn(&mut conn, Event::Received(vec![80, 192, 0, 2])),
        Action::Receive(1017)
    );
    assert_eq!(
        handle_conn(&mut conn, Event::Received(vec![7, 0])),
        Action::Connect { addr: "192.0.2.7".to_string(), port: 80, family: Family::Ipv4Only }
    );
}

#[test]
fn username_and_password_are_accepted() {
    let mut conn = Connection::new();
    handle_conn(&mut conn, Event::Accepted);
    assert_eq!(
        handle_conn(&mut conn, Event::Received(vec![5, 2, 0, 2])),
        Action::Send(vec![5, 2])
    );
    assert_eq!(handle_conn(&mut conn, Event::Sent), Action::Receive(1024));
    assert_eq!(
        handle_conn(&mut conn, Event::Received(vec![1, 1, b'u', 1, b'p'])),
        Action::Send(vec![1, 0])
    );
}

#[test]
fn other_protocols_are_dropped() {
    for first in [0u8, 3, 6, b'G', 255] {
        let mut conn = Connection::new();
        handle_conn(&mut conn, Event::Accepted);
        assert_eq!(handle_conn(&mut conn, Event::Received(vec![first, 1, 0])), Action::Close);
        assert_eq!(handle_conn(&mut conn, Event::Received(vec![5, 1, 0])), Action::Close);

        let mut conn = Connection::new();
        assert_eq!(handle_conn(&mut conn, Event::Received(vec![first])), Action::Close);

        let mut conn = Connection::new();
        assert_eq!(handle_conn(&mut conn, Event::Accepted), Action::Receive(1024));
        assert_eq!(handle_conn(&mut conn, Event::Accepted), Action::Receive(1024));
        assert_eq!(handle_conn(&mut conn, Event::Received(vec![first; 2000])), Action::Close);
    }
}

#[test]
fn early_payload_is_refused() {
    let mut tail = connect_example();
    tail.extend_from_slice(b"GET / HTTP/1.0\r\n\r\n");
    let (mut conn, action) = requested(&tail);
    assert_eq!(action, Action::Close);
    assert_eq!(handle_conn(&mut conn, Event::Connected), Action::Close);
}

#[test]
fn early_request_behind_a_greeting_is_served() {
    let mut conn = Connection::new();
    handle_conn(&mut conn, Event::Accepted);
    let mut bytes = vec![5u8, 1, 0, 5];
    bytes.extend_from_slice(&connect_example());
    assert_eq!(handle_conn(&mut conn, Event::Received(bytes)), Action::Send(vec![5, 0]));
    assert_eq!(
        handle_conn(&mut conn, Event::Sent),
        Action::Connect { addr: "example.com".to_string(), port: 80, family: Family::Any }
    );
}

#[test]
fn end_of_stream_during_the_handshake() {
    for event in [Event::Received(vec![]), Event::ReceiveFailed, Event::SendFailed] {
        let mut conn = Connection::new();
        handle_conn(&mut conn, Event::Accepted);
        assert_eq!(handle_conn(&mut conn, event), Action::Close);
    }
}

#[test]
fn more_than_there_is_room_for_is_dropped() {
    let mut conn = Connection::new();
    handle_conn(&mut conn, Event::Accepted);
    assert_eq!(handle_conn(&mut conn, Event::Received(vec![5; 1025])), Action::Close);
}

#[test]
fn a_request_that_does_not_fit_is_dropped() {
    let mut conn = Connection::new();
    handle_conn(&mut conn, Event::Accepted);
    let mut bytes = vec![4u8, 1, 0, 80, 192, 0, 2, 7];
    bytes.resize(1024, b'x');
    assert_eq!(handle_conn(&mut conn, Event::Received(bytes)), Action::Close);
}

#[test]
fn steps_of_a_handshake() {
    assert_eq!(Connection::new().advance(Step::Receive), Action::Receive(1024));
    assert_eq!(Connection::new().advance(Step::Send(vec![5, 0])), Action::Send(vec![5, 0]));
    assert_eq!(Connection::new().advance(Step::Failed), Action::Close);
    let wire = request(SocksVersion::V5, SocksCmd::CONNECT, hostname("example.com"), 80);
    assert_eq!(
        Connection::new().advance(Step::Finished(wire)),
        Action::Connect { addr: "example.com".to_string(), port: 80, family: Family::Any }
    );
}

#[test]
fn plans() {
    assert_eq!(plan(CONNECT, "example.com"), Plan::Connect(Family::Any));
    assert_eq!(plan(CONNECT, "1.2.3.4"), Plan::Connect(Family::Ipv4Only));
    assert_eq!(plan(CONNECT, "::1"), Plan::Connect(Family::Ipv6Only));
    assert_eq!(plan(RESOLVE, "example.com"), Plan::Lookup(Family::Any));
    assert_eq!(plan(RESOLVE, "1.2.3.4"), Plan::Answer(IpAddr::V4(1, 2, 3, 4)));
    assert_eq!(plan(RESOLVE_PTR, "1.2.3.4"), Plan::Refuse(SocksStatus::CommandNotSupported));
    assert_eq!(plan(2, "example.com"), Plan::Refuse(SocksStatus::CommandNotSupported));
}

#[test]
fn statuses() {
    assert_eq!(socks_status(&ErrorKind::ExitPolicyRejected), SocksStatus::NotAllowed);
    assert_eq!(socks_status(&ErrorKind::RemoteConnectionRefused), SocksStatus::ConnectionRefused);
    assert_eq!(socks_status(&ErrorKind::RemoteHostNotFound), SocksStatus::HostUnreachable);
    assert_eq!(socks_status(&ErrorKind::RemoteHostResolutionFailed), SocksStatus::HostUnreachable);
    assert_eq!(socks_status(&ErrorKind::Other), SocksStatus::GeneralFailure);
    let codes = [
        (SocksStatus::Succeeded, tor_socksproto::SocksStatus::SUCCEEDED),
        (SocksStatus::GeneralFailure, tor_socksproto::SocksStatus::GENERAL_FAILURE),
        (SocksStatus::NotAllowed, tor_socksproto::SocksStatus::NOT_ALLOWED),
        (SocksStatus::HostUnreachable, tor_socksproto::SocksStatus::HOST_UNREACHABLE),
        (SocksStatus::ConnectionRefused, tor_socksproto::SocksStatus::CONNECTION_REFUSED),
        (SocksStatus::CommandNotSupported, tor_socksproto::SocksStatus::COMMAND_NOT_SUPPORTED),
        (SocksStatus::AddrtypeNotSupported, tor_socksproto::SocksStatus::ADDRTYPE_NOT_SUPPORTED),
    ];
    for (status, wire) in codes {
        assert_eq!(status.code(), u8::from(wire));
    }
    assert_eq!(CONNECT, u8::from(SocksCmd::CONNECT));
    assert_eq!(RESOLVE, u8::from(SocksCmd::RESOLVE));
    assert_eq!(RESOLVE_PTR, u8::from(SocksCmd::RESOLVE_PTR));
}

#[test]
fn accepting_connections() {
    let mut arti = Arti::new();
    let none = ErrorSlot::empty();
    assert_eq!(accept_loop(&mut arti, AcceptEvent::Accepted), AcceptAction::Handle);
    assert_eq!(arti_last_error(Some(&arti), &none), None);
    assert_eq!(
        accept_loop(&mut arti, AcceptEvent::Failed("too many open files".to_string())),
        AcceptAction::GoOn
    );
    assert_eq!(
        arti_last_error(Some(&arti), &none),
        Some("error accepting SOCKS connection: too many open files")
    );
    assert_eq!(arti_is_ready(Some(&arti)), 0);
    assert_eq!(accept_loop(&mut arti, AcceptEvent::Accepted), AcceptAction::Handle);
    assert_eq!(
        accept_loop(&mut arti, AcceptEvent::Failed("connection aborted".to_string())),
        AcceptAction::GoOn
    );
    assert_eq!(
        arti_last_error(Some(&arti), &none),
        Some("error accepting SOCKS connection: connection aborted")
    );
    assert_eq!(accept_loop(&mut arti, AcceptEvent::Shutdown), AcceptAction::Stop);
    assert_eq!(
        arti_last_error(Some(&arti), &none),
        Some("error accepting SOCKS connection: connection aborted")
    );
}

#[test]
fn tor_is_asked_once() {
    for tail in [connect_example(), resolve_example()] {
        let (mut conn, first) = requested(&tail);
        assert!(matches!(first, Action::Connect { .. } | Action::Resolve { .. }));
        let mut again = vec![5u8];
        again.extend_from_slice(&tail);
        for event in [Event::Received(again), Event::Sent, Event::Accepted] {
            let action = handle_conn(&mut conn, event);
            assert!(!matches!(action, Action::Connect { .. } | Action::Resolve { .. }));
        }
    }
}
