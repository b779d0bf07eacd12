use ip_echo::connection::{Action, Connection, Event, Phase, IO_TIMEOUT_SECONDS};
use ip_echo::message::IpEchoServerMessage;
use ip_echo::wire::{build_reply, build_request, ConnectionError, PeerIp};

const PEER: PeerIp = PeerIp::V4([192, 0, 2, 1]);

fn http_error() -> Vec<u8> {
    b"HTTP/1.1 400 Bad Request\nContent-length: 0\n\n".to_vec()
}

fn opened() -> Connection {
    let (conn, first) = Connection::open(PEER);
    assert_eq!(first, Action::Read(21));
    assert_eq!(conn.phase(), Phase::Reading);
    assert_eq!(conn.peer(), PEER);
    conn
}

fn with_request(tcp: &[u16], udp: &[u16]) -> Connection {
    let mut conn = opened();
    let msg = IpEchoServerMessage::new(tcp, udp);
    let action = conn.step(Event::RequestRead(build_request(&msg)));
    assert_eq!(action, Action::BindUdp);
    assert_eq!(conn.phase(), Phase::UdpBinding);
    assert_eq!(conn.request(), msg);
    conn
}

#[test]
fn all_unused_ports_are_answered_without_probes() {
    let mut conn = with_request(&[0, 0, 0, 0], &[0, 0, 0, 0]);
    let action = conn.step(Event::UdpBound(true));
    assert_eq!(action, Action::Write(vec![0, 0, 0, 0, 0, 0, 0, 0, 192, 0, 2, 1]));
    assert_eq!(conn.phase(), Phase::Replying);
    assert_eq!(conn.step(Event::Written), Action::Close(Ok(())));
    assert_eq!(conn.phase(), Phase::Closed);
}

#[test]
fn closed_tcp_port_drops_the_connection_without_reply() {
    let mut conn = with_request(&[9999, 0, 0, 0], &[]);
    assert_eq!(conn.step(Event::UdpBound(true)), Action::ConnectTcp(9999));
    assert_eq!(conn.phase(), Phase::TcpProbing(0));
    assert_eq!(conn.step(Event::IoFailed), Action::Close(Err(ConnectionError::Io)));
    assert_eq!(conn.phase(), Phase::Closed);
    assert_eq!(
        conn.step(Event::Written),
        Action::Close(Err(ConnectionError::UnexpectedEvent))
    );
}

#[test]
fn request_keeps_ports_and_order() {
    let conn = with_request(&[4, 3, 2, 1], &[0, 7, 0, 9]);
    assert_eq!(conn.request().tcp_ports(), [4, 3, 2, 1]);
    assert_eq!(conn.request().udp_ports(), [0, 7, 0, 9]);
}

#[test]
fn probes_run_udp_first_then_tcp_in_slot_order() {
    let mut conn = with_request(&[0, 8001, 0, 8003], &[9000, 0, 9002]);
    assert_eq!(conn.step(Event::UdpBound(true)), Action::SendUdp(9000));
    assert_eq!(conn.phase(), Phase::UdpSending(0));
    assert_eq!(conn.step(Event::UdpSent(true)), Action::SendUdp(9002));
    assert_eq!(conn.phase(), Phase::UdpSending(2));
    assert_eq!(conn.step(Event::UdpSent(true)), Action::ConnectTcp(8001));
    assert_eq!(conn.phase(), Phase::TcpProbing(1));
    assert_eq!(conn.step(Event::TcpConnected), Action::ConnectTcp(8003));
    assert_eq!(conn.phase(), Phase::TcpProbing(3));
    assert_eq!(conn.step(Event::TcpConnected), Action::Write(build_reply(&PEER)));
    assert_eq!(conn.step(Event::Written), Action::Close(Ok(())));
}

#[test]
fn http_get_gets_the_error_text_only() {
    let mut conn = opened();
    let mut data = vec![0u8; 21];
    data[..4].copy_from_slice(b"GET ");
    assert_eq!(conn.step(Event::RequestRead(data)), Action::Write(http_error()));
    assert_eq!(conn.phase(), Phase::RejectingHttp);
    assert_eq!(conn.step(Event::Written), Action::Close(Ok(())));
    assert_eq!(conn.phase(), Phase::Closed);
}

#[test]
fn http_post_gets_the_error_text_only() {
    let mut conn = opened();
    let mut data = b"POST / HTTP/1.1\r\nHost".to_vec();
    assert_eq!(data.len(), 21);
    assert_eq!(conn.step(Event::RequestRead(std::mem::take(&mut data))), Action::Write(http_error()));
    assert_eq!(conn.step(Event::IoFailed), Action::Close(Err(ConnectionError::Io)));
}

#[test]
fn other_header_closes_with_nothing_written() {
    let mut conn = opened();
    let mut data = vec![0u8; 21];
    data[..4].copy_from_slice(b"HEAD");
    assert_eq!(
        conn.step(Event::RequestRead(data)),
        Action::Close(Err(ConnectionError::BadRequestHeader))
    );
    assert_eq!(conn.phase(), Phase::Closed);
}

#[test]
fn short_or_failed_read_is_an_io_failure() {
    let mut conn = opened();
    assert_eq!(
        conn.step(Event::RequestRead(vec![0u8; 20])),
        Action::Close(Err(ConnectionError::Io))
    );
    let mut conn = opened();
    assert_eq!(
        conn.step(Event::RequestRead(vec![0u8; 22])),
        Action::Close(Err(ConnectionError::Io))
    );
    let mut conn = opened();
    assert_eq!(conn.step(Event::IoFailed), Action::Close(Err(ConnectionError::Io)));
}

#[test]
fn udp_bind_failure_skips_udp_and_still_replies() {
    let mut conn = with_request(&[], &[9000, 9001]);
    assert_eq!(conn.step(Event::UdpBound(false)), Action::Write(build_reply(&PEER)));
    assert_eq!(conn.step(Event::Written), Action::Close(Ok(())));
}

#[test]
fn udp_send_failure_does_not_stop_the_other_probes() {
    let mut conn = with_request(&[8000], &[9000, 9001]);
    assert_eq!(conn.step(Event::UdpBound(true)), Action::SendUdp(9000));
    assert_eq!(conn.step(Event::UdpSent(false)), Action::SendUdp(9001));
    assert_eq!(conn.step(Event::UdpSent(false)), Action::ConnectTcp(8000));
    assert_eq!(conn.step(Event::TcpConnected), Action::Write(build_reply(&PEER)));
    assert_eq!(conn.step(Event::Written), Action::Close(Ok(())));
}

#[test]
fn second_tcp_port_failing_stops_before_the_third() {
    let mut conn = with_request(&[8000, 8001, 8002], &[]);
    assert_eq!(conn.step(Event::UdpBound(true)), Action::ConnectTcp(8000));
    assert_eq!(conn.step(Event::TcpConnected), Action::ConnectTcp(8001));
    assert_eq!(conn.step(Event::IoFailed), Action::Close(Err(ConnectionError::Io)));
    assert_eq!(conn.phase(), Phase::Closed);
}

#[test]
fn failed_reply_write_is_an_io_failure() {
    let mut conn = with_request(&[], &[]);
    assert_eq!(conn.step(Event::UdpBound(true)), Action::Write(build_reply(&PEER)));
    assert_eq!(conn.step(Event::IoFailed), Action::Close(Err(ConnectionError::Io)));
}

#[test]
fn event_out_of_turn_closes_the_connection() {
    let mut conn = opened();
    assert_eq!(
        conn.step(Event::TcpConnected),
        Action::Close(Err(ConnectionError::UnexpectedEvent))
    );
    assert_eq!(conn.phase(), Phase::Closed);
    let mut conn = with_request(&[], &[9000]);
    assert_eq!(
        conn.step(Event::IoFailed),
        Action::Close(Err(ConnectionError::UnexpectedEvent))
    );
}

#[test]
fn v6_peer_gets_the_longer_reply() {
    let peer = PeerIp::V6([0x20, 1, 0xd, 0xb8, 0, 0, 0, 0, 0, 0, 0, 0, 0, 0, 0, 5]);
    let (mut conn, _) = Connection::open(peer);
    let frame = build_request(&IpEchoServerMessage::default());
    assert_eq!(conn.step(Event::RequestRead(frame)), Action::BindUdp);
    match conn.step(Event::UdpBound(true)) {
        Action::Write(bytes) => {
            assert_eq!(bytes.len(), 24);
            assert_eq!(&bytes[..8], &[0, 0, 0, 0, 1, 0, 0, 0]);
            assert_eq!(bytes[23], 5);
        }
        other => panic!("expected a reply, got {:?}", other),
    }
}

#[test]
fn io_timeout_is_five_seconds() {
    assert_eq!(IO_TIMEOUT_SECONDS, 5);
}

#[test]
fn send_outcomes_give_the_same_actions() {
    let mut smooth = with_request(&[8000, 0, 8002], &[9000, 9001, 0, 9003]);
    let mut rough = with_request(&[8000, 0, 8002], &[9000, 9001, 0, 9003]);
    assert_eq!(smooth.step(Event::UdpBound(true)), rough.step(Event::UdpBound(true)));
    for _ in 0..3 {
        assert_eq!(smooth.step(Event::UdpSent(true)), rough.step(Event::UdpSent(false)));
    }
    assert_eq!(smooth.phase(), Phase::TcpProbing(0));
    assert_eq!(smooth.step(Event::TcpConnected), Action::ConnectTcp(8002));
    assert_eq!(rough.step(Event::TcpConnected), Action::ConnectTcp(8002));
    assert_eq!(smooth.step(Event::TcpConnected), rough.step(Event::TcpConnected));
    assert_eq!(smooth.phase(), Phase::Replying);
}

#[test]
fn full_lists_are_probed_once_each_in_order() {
    let mut conn = with_request(&[1, 2, 3, 4], &[5, 6, 7, 8]);
    let mut seen = vec![conn.step(Event::UdpBound(true))];
    for _ in 0..4 {
        seen.push(conn.step(Event::UdpSent(true)));
    }
    for _ in 0..4 {
        seen.push(conn.step(Event::TcpConnected));
    }
    seen.push(conn.step(Event::Written));
    assert_eq!(
        seen,
        vec![
            Action::SendUdp(5),
            Action::SendUdp(6),
            Action::SendUdp(7),
            Action::SendUdp(8),
            Action::ConnectTcp(1),
            Action::ConnectTcp(2),
            Action::ConnectTcp(3),
            Action::ConnectTcp(4),
            Action::Write(build_reply(&PEER)),
            Action::Close(Ok(())),
        ]
    );
}
