use ip_echo::message::{IpEchoServerMessage, MAX_PORT_COUNT_PER_MESSAGE};
use ip_echo::wire::{
    build_reply, build_request, deserialize_message, http_bad_request_response,
    ip_echo_server_reply_length, ip_echo_server_request_length, parse_request, serialize_ip,
    serialize_message, ConnectionError, PeerIp, Request, HEADER_LENGTH, REQUEST_TERMINUS_LENGTH,
};

#[test]
fn new_pads_with_unused_slots() {
    let msg = IpEchoServerMessage::new(&[8000, 8001], &[9000]);
    assert_eq!(msg.tcp_ports(), [8000, 8001, 0, 0]);
    assert_eq!(msg.udp_ports(), [9000, 0, 0, 0]);
    assert_eq!(MAX_PORT_COUNT_PER_MESSAGE, 4);
}

#[test]
fn new_takes_full_and_empty_lists() {
    let msg = IpEchoServerMessage::new(&[1, 2, 3, 4], &[]);
    assert_eq!(msg.tcp_ports(), [1, 2, 3, 4]);
    assert_eq!(msg.udp_ports(), [0, 0, 0, 0]);
    assert_eq!(IpEchoServerMessage::new(&[], &[]), IpEchoServerMessage::default());
}

#[test]
fn default_message_is_all_unused() {
    let msg = IpEchoServerMessage::default();
    assert_eq!(msg.tcp_ports(), [0u16; 4]);
    assert_eq!(msg.udp_ports(), [0u16; 4]);
}

#[test]
fn request_length_is_header_record_and_terminus() {
    assert_eq!(HEADER_LENGTH, 4);
    assert_eq!(REQUEST_TERMINUS_LENGTH, 1);
    assert_eq!(ip_echo_server_request_length(), 21);
    let size = bincode::serialized_size(&([0u16; 4], [0u16; 4])).unwrap();
    assert_eq!(ip_echo_server_request_length(), 4 + size as usize + 1);
}

#[test]
fn request_length_does_not_depend_on_ports() {
    let a = build_request(&IpEchoServerMessage::new(&[], &[]));
    let b = build_request(&IpEchoServerMessage::new(&[65535, 1, 2, 3], &[4, 5, 6, 65535]));
    assert_eq!(a.len(), ip_echo_server_request_length());
    assert_eq!(b.len(), ip_echo_server_request_length());
}

#[test]
fn reply_length_per_family() {
    assert_eq!(ip_echo_server_reply_length(&PeerIp::V4([0; 4])), 12);
    assert_eq!(ip_echo_server_reply_length(&PeerIp::V4([192, 168, 1, 77])), 12);
    assert_eq!(ip_echo_server_reply_length(&PeerIp::V6([0; 16])), 24);
    assert_eq!(ip_echo_server_reply_length(&PeerIp::V6([255; 16])), 24);
}

#[test]
fn message_bytes_are_little_endian_slots() {
    let msg = IpEchoServerMessage::new(&[9999, 1], &[0x1234, 0, 0, 0xffff]);
    let bytes = serialize_message(&msg);
    assert_eq!(
        bytes,
        vec![0x0f, 0x27, 1, 0, 0, 0, 0, 0, 0x34, 0x12, 0, 0, 0, 0, 0xff, 0xff]
    );
}

#[test]
fn request_frame_bytes() {
    let msg = IpEchoServerMessage::new(&[9999], &[256]);
    let frame = build_request(&msg);
    assert_eq!(
        frame,
        vec![0, 0, 0, 0, 0x0f, 0x27, 0, 0, 0, 0, 0, 0, 0, 1, 0, 0, 0, 0, 0, 0, 0]
    );
}

#[test]
fn deserialize_reads_ports_and_ignores_the_rest() {
    let bytes = [
        0x0f, 0x27, 1, 0, 0, 0, 0, 0, 0x34, 0x12, 0, 0, 0, 0, 0xff, 0xff, 0xaa, 0xbb,
    ];
    let msg = deserialize_message(&bytes).unwrap();
    assert_eq!(msg.tcp_ports(), [9999, 1, 0, 0]);
    assert_eq!(msg.udp_ports(), [0x1234, 0, 0, 0xffff]);
    assert_eq!(deserialize_message(&bytes[..16]), Ok(msg));
}

#[test]
fn deserialize_refuses_a_short_record() {
    assert_eq!(deserialize_message(&[0u8; 15]), Err(ConnectionError::Deserialize));
    assert_eq!(deserialize_message(&[]), Err(ConnectionError::Deserialize));
}

#[test]
fn serialize_then_deserialize_gives_the_message_back() {
    let lists: [(&[u16], &[u16]); 5] = [
        (&[], &[]),
        (&[1], &[2]),
        (&[65535, 0, 7], &[0, 0, 0, 1]),
        (&[1, 2, 3, 4], &[5, 6, 7, 8]),
        (&[0, 80], &[53, 0, 123]),
    ];
    for (tcp, udp) in lists {
        let msg = IpEchoServerMessage::new(tcp, udp);
        assert_eq!(deserialize_message(&serialize_message(&msg)), Ok(msg));
        assert_eq!(parse_request(&build_request(&msg)), Ok(Request::Probe(msg)));
    }
}

#[test]
fn message_bytes_match_the_struct_layout_of_bincode() {
    let msg = IpEchoServerMessage::new(&[443, 8899], &[8001, 8002, 8003]);
    let expected = bincode::serialize(&(msg.tcp_ports(), msg.udp_ports())).unwrap();
    assert_eq!(serialize_message(&msg), expected);
    assert_eq!(expected.len(), 16);
}

#[test]
fn parse_recognises_http_methods() {
    let mut get = vec![0u8; 21];
    get[..4].copy_from_slice(b"GET ");
    assert_eq!(parse_request(&get), Ok(Request::Http));
    let mut post = vec![0u8; 21];
    post[..4].copy_from_slice(b"POST");
    assert_eq!(parse_request(&post), Ok(Request::Http));
}

#[test]
fn parse_refuses_other_headers() {
    let mut put = vec![0u8; 21];
    put[..4].copy_from_slice(b"PUT ");
    assert_eq!(parse_request(&put), Err(ConnectionError::BadRequestHeader));
    let mut lower = vec![0u8; 21];
    lower[..4].copy_from_slice(b"get ");
    assert_eq!(parse_request(&lower), Err(ConnectionError::BadRequestHeader));
    let mut almost = vec![0u8; 21];
    almost[3] = 1;
    assert_eq!(parse_request(&almost), Err(ConnectionError::BadRequestHeader));
    assert_eq!(parse_request(&[0, 0, 0]), Err(ConnectionError::BadRequestHeader));
    assert_eq!(parse_request(&[]), Err(ConnectionError::BadRequestHeader));
}

#[test]
fn parse_refuses_a_truncated_body() {
    assert_eq!(parse_request(&[0u8; 20]), Err(ConnectionError::Deserialize));
    assert_eq!(parse_request(&[0u8; 4]), Err(ConnectionError::Deserialize));
    assert_eq!(
        parse_request(&[0u8; 21]),
        Ok(Request::Probe(IpEchoServerMessage::default()))
    );
}

#[test]
fn http_answer_is_the_literal() {
    assert_eq!(
        http_bad_request_response(),
        b"HTTP/1.1 400 Bad Request\nContent-length: 0\n\n".to_vec()
    );
}

#[test]
fn ip_bytes_are_family_index_and_octets() {
    assert_eq!(
        serialize_ip(&PeerIp::V4([10, 0, 0, 7])),
        vec![0, 0, 0, 0, 10, 0, 0, 7]
    );
    let mut v6 = [0u8; 16];
    v6[0] = 0xfe;
    v6[1] = 0x80;
    v6[15] = 1;
    let bytes = serialize_ip(&PeerIp::V6(v6));
    assert_eq!(&bytes[..4], &[1, 0, 0, 0]);
    assert_eq!(&bytes[4..], &v6);
}

#[test]
fn reply_frame_bytes() {
    let reply = build_reply(&PeerIp::V4([203, 0, 113, 9]));
    assert_eq!(reply, vec![0, 0, 0, 0, 0, 0, 0, 0, 203, 0, 113, 9]);
    assert_eq!(reply.len(), ip_echo_server_reply_length(&PeerIp::V4([203, 0, 113, 9])));
    let v6 = PeerIp::V6([7u8; 16]);
    let reply6 = build_reply(&v6);
    assert_eq!(reply6.len(), ip_echo_server_reply_length(&v6));
    assert_eq!(&reply6[..8], &[0, 0, 0, 0, 1, 0, 0, 0]);
    assert_eq!(&reply6[8..], &[7u8; 16]);
}
