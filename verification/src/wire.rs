//! Byte layout of requests and replies.
//!
//! A request is a header of four zero bytes, the encoded port lists and one
//! terminus byte. A reply is the same header followed by the encoded address
//! of the peer. Integers are written at fixed width, least significant byte
//! first, and a list of slots is written slot after slot with no length in
//! front. The encoding itself is done by `bincode`; the functions that call
//! it say here which bytes it produces.

use crate::message::{IpEchoServerMessage, MessageView, MAX_PORT_COUNT_PER_MESSAGE};
use vstd::prelude::*;

verus! {

/// Length of the marker in front of every request and reply.
pub const HEADER_LENGTH: usize = 4;

/// Length of the filler that ends a request.
pub const REQUEST_TERMINUS_LENGTH: usize = 1;

/// Why a connection ended without a reply.
#[derive(Clone, Copy, Debug, PartialEq, Eq, Structural)]
pub enum ConnectionError {
    /// The transport failed: a timeout, a reset, a short read or a refused probe.
    Io,
    /// The first bytes are neither the marker nor a recognised HTTP method.
    BadRequestHeader,
    /// The bytes after the header do not hold a full port-list record.
    Deserialize,
    /// The connection was handed an event that its phase does not wait for.
    UnexpectedEvent,
}

/// The address a connection came from, as its octets in network order.
#[derive(Clone, Copy, Debug, PartialEq, Eq)]
pub enum PeerIp {
    V4([u8; 4]),
    V6([u8; 16]),
}

/// What a request asks for.
#[derive(Clone, Copy, Debug, PartialEq, Eq)]
pub enum Request {
    /// A well-formed probe request.
    Probe(IpEchoServerMessage),
    /// The start of an HTTP request sent here by mistake.
    Http,
}

/// A `Request` over the view of its message.
pub enum RequestView {
    Probe(MessageView),
    Http,
}

impl View for Request {
    type V = RequestView;

    open spec fn view(&self) -> RequestView {
        match *self {
            Request::Probe(msg) => RequestView::Probe(msg@),
            Request::Http => RequestView::Http,
        }
    }
}

/// The result of parsing, with the request taken by its view.
pub open spec fn parsed_view(r: Result<Request, ConnectionError>) -> Result<
    RequestView,
    ConnectionError,
> {
    match r {
        Ok(request) => Ok(request@),
        Err(e) => Err(e),
    }
}

/// `bincode::ErrorKind`, the error of every call into `bincode`. Nothing
/// is read from it: a failed call becomes an error of this library.
#[verifier::external_type_specification]
#[verifier::external_body]
pub struct ExBincodeErrorKind(bincode::ErrorKind);

/// The header marker: four zero bytes.
pub open spec fn header_marker() -> Seq<u8> {
    seq![0u8, 0u8, 0u8, 0u8]
}

/// The bytes `GET `.
pub open spec fn http_get() -> Seq<u8> {
    seq![71u8, 69u8, 84u8, 32u8]
}

/// The bytes `POST`.
pub open spec fn http_post() -> Seq<u8> {
    seq![80u8, 79u8, 83u8, 84u8]
}

/// The answer to a misdirected HTTP request: the ASCII text
/// `HTTP/1.1 400 Bad Request`, a line feed, `Content-length: 0` and two
/// line feeds.
pub open spec fn http_bad_request() -> Seq<u8> {
    seq![
        72u8, 84u8, 84u8, 80u8, 47u8, 49u8, 46u8, 49u8, 32u8, 52u8, 48u8, 48u8, 32u8, 66u8, 97u8,
        100u8, 32u8, 82u8, 101u8, 113u8, 117u8, 101u8, 115u8, 116u8, 10u8, 67u8, 111u8, 110u8,
        116u8, 101u8, 110u8, 116u8, 45u8, 108u8, 101u8, 110u8, 103u8, 116u8, 104u8, 58u8, 32u8,
        48u8, 10u8, 10u8,
    ]
}

/// A list of 16-bit ports as bytes: two per port, low byte first.
pub open spec fn ports_le(ports: Seq<u16>) -> Seq<u8> {
    Seq::new(
        2 * ports.len(),
        |i: int| if i % 2 == 0 { (ports[i / 2] % 256) as u8 } else { (ports[i / 2] / 256) as u8 },
    )
}

/// The four ports read from the eight bytes that start at `at`.
pub open spec fn ports_from_le(bytes: Seq<u8>, at: int) -> Seq<u16> {
    Seq::new(
        MAX_PORT_COUNT_PER_MESSAGE as nat,
        |i: int| (bytes[at + 2 * i] as int + 256 * (bytes[at + 2 * i + 1] as int)) as u16,
    )
}

/// A 32-bit integer as four bytes, low byte first.
pub open spec fn u32_le(v: u32) -> Seq<u8> {
    seq![
        (v % 256) as u8,
        (v / 256 % 256) as u8,
        (v / 65536 % 256) as u8,
        (v / 16777216) as u8,
    ]
}

/// The encoded port lists: the TCP slots, then the UDP slots.
pub open spec fn message_encoding(msg: MessageView) -> Seq<u8> {
    ports_le(msg.tcp_ports) + ports_le(msg.udp_ports)
}

/// Number of bytes that hold a full port-list record.
pub open spec fn message_encoding_len() -> nat {
    4 * MAX_PORT_COUNT_PER_MESSAGE as nat
}

/// The record read from the front of `bytes`.
pub open spec fn message_decoding(bytes: Seq<u8>) -> MessageView {
    MessageView {
        tcp_ports: ports_from_le(bytes, 0),
        udp_ports: ports_from_le(bytes, 2 * MAX_PORT_COUNT_PER_MESSAGE as int),
    }
}

/// Index of an address family in the encoding of an address.
pub open spec fn family_index(ip: PeerIp) -> u32 {
    match ip {
        PeerIp::V4(_) => 0u32,
        PeerIp::V6(_) => 1u32,
    }
}

/// The octets of an address.
pub open spec fn octets(ip: PeerIp) -> Seq<u8> {
    match ip {
        PeerIp::V4(o) => o@,
        PeerIp::V6(o) => o@,
    }
}

/// The encoded address: the index of its family as a 32-bit integer, then its octets.
pub open spec fn ip_encoding(ip: PeerIp) -> Seq<u8> {
    u32_le(family_index(ip)) + octets(ip)
}

/// A whole request: marker, encoded message, one zero terminus byte.
pub open spec fn request_frame(msg: MessageView) -> Seq<u8> {
    header_marker() + message_encoding(msg) + seq![0u8]
}

/// A whole reply: marker, encoded address.
pub open spec fn reply_frame(ip: PeerIp) -> Seq<u8> {
    header_marker() + ip_encoding(ip)
}

/// Length of every request.
pub open spec fn request_length() -> nat {
    HEADER_LENGTH as nat + message_encoding_len() + REQUEST_TERMINUS_LENGTH as nat
}

/// The part of a request between the header and the terminus byte.
pub open spec fn request_body(data: Seq<u8>) -> Seq<u8> {
    if data.len() > HEADER_LENGTH {
        data.subrange(HEADER_LENGTH as int, data.len() - REQUEST_TERMINUS_LENGTH)
    } else {
        Seq::empty()
    }
}

/// What a request means. The first four bytes decide: the marker announces a
/// port-list record, which must be complete; `GET ` or `POST` is an HTTP
/// client; anything else, or fewer than four bytes, is refused.
pub open spec fn parse_request_spec(data: Seq<u8>) -> Result<RequestView, ConnectionError> {
    if data.len() < HEADER_LENGTH {
        Err(ConnectionError::BadRequestHeader)
    } else {
        let header = data.subrange(0, HEADER_LENGTH as int);
        if header == header_marker() {
            if request_body(data).len() >= message_encoding_len() {
                Ok(RequestView::Probe(message_decoding(request_body(data))))
            } else {
                Err(ConnectionError::Deserialize)
            }
        } else if header == http_get() || header == http_post() {
            Ok(RequestView::Http)
        } else {
            Err(ConnectionError::BadRequestHeader)
        }
    }
}

/// Calls `bincode::serialized_size` on the two port lists as a pair. With
/// fixed-width integers every port takes two bytes and nothing is written
/// besides the ports, so the size is the length of their encoding; the call
/// does not fail, as no size limit is set.
#[verifier::external_body]
fn bincode_ports_size(
    tcp_ports: &[u16; MAX_PORT_COUNT_PER_MESSAGE],
    udp_ports: &[u16; MAX_PORT_COUNT_PER_MESSAGE],
) -> (r: Result<
    u64,
    bincode::Error,
>)
    ensures
        r is Ok,
        r->Ok_0 == ports_le(tcp_ports@).len() + ports_le(udp_ports@).len(),
{
    bincode::serialized_size(&(*tcp_ports, *udp_ports))
}

/// Calls `bincode::serialize` on the two port lists as a pair. The bytes are
/// the TCP ports and then the UDP ports, each as two bytes with the low byte
/// first; writing into a vector without a size limit does not fail.
#[verifier::external_body]
fn bincode_serialize_ports(
    tcp_ports: &[u16; MAX_PORT_COUNT_PER_MESSAGE],
    udp_ports: &[u16; MAX_PORT_COUNT_PER_MESSAGE],
) -> (r: Result<
    Vec<u8>,
    bincode::Error,
>)
    ensures
        r is Ok,
        r->Ok_0@ == ports_le(tcp_ports@) + ports_le(udp_ports@),
{
    bincode::serialize(&(*tcp_ports, *udp_ports))
}

/// Calls `bincode::deserialize` for a pair of port lists. It succeeds exactly
/// when the bytes of all the ports are there, two for each, reads each port
/// from its two bytes with the low byte first, the TCP ports before the UDP
/// ports, and ignores what follows them.
#[verifier::external_body]
fn bincode_deserialize_ports(bytes: &[u8]) -> (r: Result<
    ([u16; MAX_PORT_COUNT_PER_MESSAGE], [u16; MAX_PORT_COUNT_PER_MESSAGE]),
    bincode::Error,
>)
    ensures
        r is Ok <==> bytes@.len() >= message_encoding_len(),
        r is Ok ==> r->Ok_0.0@ == message_decoding(bytes@).tcp_ports,
        r is Ok ==> r->Ok_0.1@ == message_decoding(bytes@).udp_ports,
{
    bincode::deserialize::<([u16; MAX_PORT_COUNT_PER_MESSAGE], [u16; MAX_PORT_COUNT_PER_MESSAGE])>(
        bytes,
    )
}

/// Calls `bincode::serialize` on a 32-bit integer followed by four octets.
/// The bytes are the integer at fixed width, low byte first, then the octets
/// as they are; the call does not fail.
#[verifier::external_body]
fn bincode_serialize_v4(index: u32, octets: &[u8; 4]) -> (r: Result<Vec<u8>, bincode::Error>)
    ensures
        r is Ok,
        r->Ok_0@ == u32_le(index) + octets@,
{
    bincode::serialize(&(index, *octets))
}

/// Calls `bincode::serialize` on a 32-bit integer followed by sixteen octets.
/// The bytes are the integer at fixed width, low byte first, then the octets
/// as they are; the call does not fail.
#[verifier::external_body]
fn bincode_serialize_v6(index: u32, octets: &[u8; 16]) -> (r: Result<Vec<u8>, bincode::Error>)
    ensures
        r is Ok,
        r->Ok_0@ == u32_le(index) + octets@,
{
    bincode::serialize(&(index, *octets))
}

/// Encodes the port lists of a message.
pub fn serialize_message(msg: &IpEchoServerMessage) -> (bytes: Vec<u8>)
    ensures
        bytes@ == message_encoding(msg@),
        bytes@.len() == message_encoding_len(),
{
    bincode_serialize_ports(&msg.tcp_ports, &msg.udp_ports).unwrap()
}

/// Reads a message from the front of `bytes`. It is there exactly when
/// `bytes` holds a full record; bytes after the record are ignored.
pub fn deserialize_message(bytes: &[u8]) -> (r: Result<IpEchoServerMessage, ConnectionError>)
    ensures
        bytes@.len() >= message_encoding_len() ==> r is Ok && r->Ok_0@ == message_decoding(
            bytes@,
        ),
        bytes@.len() < message_encoding_len() ==> r == Err::<IpEchoServerMessage, _>(
            ConnectionError::Deserialize,
        ),
{
    match bincode_deserialize_ports(bytes) {
        Ok((tcp_ports, udp_ports)) => Ok(IpEchoServerMessage { tcp_ports, udp_ports }),
        Err(_) => Err(ConnectionError::Deserialize),
    }
}

/// Encodes the address of a peer.
pub fn serialize_ip(ip: &PeerIp) -> (bytes: Vec<u8>)
    ensures
        bytes@ == ip_encoding(*ip),
{
    let encoded = match ip {
        PeerIp::V4(o) => bincode_serialize_v4(0, o),
        PeerIp::V6(o) => bincode_serialize_v6(1, o),
    };
    encoded.unwrap()
}

/// Length of every request: the header, the encoding of the message with
/// every slot unused, and the terminus byte.
pub fn ip_echo_server_request_length() -> (len: usize)
    ensures
        len == HEADER_LENGTH + message_encoding(crate::message::empty_message()).len()
            + REQUEST_TERMINUS_LENGTH,
        len == request_length(),
        len == 21,
{
    let empty = IpEchoServerMessage::default();
    let size: u64 = bincode_ports_size(&empty.tcp_ports, &empty.udp_ports).unwrap();
    HEADER_LENGTH + size as usize + REQUEST_TERMINUS_LENGTH
}

/// Length of the reply to a peer: the header and the encoding of its
/// address. It depends on the family of the address alone.
pub fn ip_echo_server_reply_length(ip: &PeerIp) -> (len: usize)
    ensures
        len == reply_frame(*ip).len(),
        ip is V4 ==> len == 12,
        ip is V6 ==> len == 24,
{
    let zero = match ip {
        PeerIp::V4(_) => PeerIp::V4([0u8; 4]),
        PeerIp::V6(_) => PeerIp::V6([0u8; 16]),
    };
    let encoded = serialize_ip(&zero);
    HEADER_LENGTH + encoded.len()
}

/// The answer to a misdirected HTTP request.
pub fn http_bad_request_response() -> (bytes: Vec<u8>)
    ensures
        bytes@ == http_bad_request(),
{
    let bytes = vec![
        72u8, 84u8, 84u8, 80u8, 47u8, 49u8, 46u8, 49u8, 32u8, 52u8, 48u8, 48u8, 32u8, 66u8, 97u8,
        100u8, 32u8, 82u8, 101u8, 113u8, 117u8, 101u8, 115u8, 116u8, 10u8, 67u8, 111u8, 110u8,
        116u8, 101u8, 110u8, 116u8, 45u8, 108u8, 101u8, 110u8, 103u8, 116u8, 104u8, 58u8, 32u8,
        48u8, 10u8, 10u8,
    ];
    assert(bytes@ =~= http_bad_request());
    bytes
}

/// Builds the request that carries `msg`.
pub fn build_request(msg: &IpEchoServerMessage) -> (frame: Vec<u8>)
    ensures
        frame@ == request_frame(msg@),
        frame@.len() == request_length(),
{
    let mut frame: Vec<u8> = vec![0u8, 0u8, 0u8, 0u8];
    let mut body = serialize_message(msg);
    frame.append(&mut body);
    frame.push(0u8);
    assert(frame@ =~= request_frame(msg@));
    frame
}

/// Builds the reply to a peer: a buffer of the reply's length that starts
/// with the header and holds the encoded address behind it.
pub fn build_reply(ip: &PeerIp) -> (frame: Vec<u8>)
    ensures
        frame@ == reply_frame(*ip),
{
    let mut frame: Vec<u8> = vec![0u8, 0u8, 0u8, 0u8];
    let mut body = serialize_ip(ip);
    frame.append(&mut body);
    assert(frame@ =~= reply_frame(*ip));
    frame
}

fn header_is(data: &[u8], b0: u8, b1: u8, b2: u8, b3: u8) -> (same: bool)
    requires
        data@.len() >= HEADER_LENGTH,
    ensures
        same == (data@.subrange(0, HEADER_LENGTH as int) == seq![b0, b1, b2, b3]),
{
    let same = data[0] == b0 && data[1] == b1 && data[2] == b2 && data[3] == b3;
    proof {
        let header = data@.subrange(0, HEADER_LENGTH as int);
        let want = seq![b0, b1, b2, b3];
        if same {
            assert(header =~= want);
        } else {
            assert(header[0] == data@[0] && header[1] == data@[1] && header[2] == data@[2]
                && header[3] == data@[3]);
            assert(want[0] == b0 && want[1] == b1 && want[2] == b2 && want[3] == b3);
        }
    }
    same
}

/// Decides what a request means: see `parse_request_spec`.
pub fn parse_request(data: &[u8]) -> (r: Result<Request, ConnectionError>)
    ensures
        parsed_view(r) == parse_request_spec(data@),
{
    if data.len() < HEADER_LENGTH {
        return Err(ConnectionError::BadRequestHeader);
    }
    if header_is(data, 0, 0, 0, 0) {
        let end = if data.len() > HEADER_LENGTH {
            data.len() - REQUEST_TERMINUS_LENGTH
        } else {
            HEADER_LENGTH
        };
        let body = vstd::slice::slice_subrange(data, HEADER_LENGTH, end);
        assert(body@ =~= request_body(data@));
        match deserialize_message(body) {
            Ok(msg) => Ok(Request::Probe(msg)),
            Err(e) => Err(e),
        }
    } else if header_is(data, 71, 69, 84, 32) || header_is(data, 80, 79, 83, 84) {
        Ok(Request::Http)
    } else {
        Err(ConnectionError::BadRequestHeader)
    }
}

/// Decoding what was encoded gives the message back, slot for slot,
/// whatever bytes follow the record.
pub proof fn lemma_message_round_trip(msg: MessageView, rest: Seq<u8>)
    requires
        msg.wf(),
    ensures
        message_encoding(msg).len() == message_encoding_len(),
        message_decoding(message_encoding(msg) + rest) == msg,
{
    let bytes = message_encoding(msg) + rest;
    let back = message_decoding(bytes);
    assert forall|i: int| 0 <= i < 4 implies back.tcp_ports[i] == msg.tcp_ports[i] by {
        assert(bytes[2 * i] == ports_le(msg.tcp_ports)[2 * i]);
        assert(bytes[2 * i + 1] == ports_le(msg.tcp_ports)[2 * i + 1]);
    }
    assert forall|i: int| 0 <= i < 4 implies back.udp_ports[i] == msg.udp_ports[i] by {
        assert(bytes[8 + 2 * i] == ports_le(msg.udp_ports)[2 * i]);
        assert(bytes[8 + 2 * i + 1] == ports_le(msg.udp_ports)[2 * i + 1]);
    }
    assert(back.tcp_ports =~= msg.tcp_ports);
    assert(back.udp_ports =~= msg.udp_ports);
}

/// A request built for a message has the fixed request length and parses
/// back to exactly that message: the same ports in the same slots.
pub proof fn lemma_request_round_trip(msg: MessageView)
    requires
        msg.wf(),
    ensures
        request_frame(msg).len() == request_length(),
        parse_request_spec(request_frame(msg)) == Ok::<RequestView, ConnectionError>(
            RequestView::Probe(msg),
        ),
{
    let data = request_frame(msg);
    lemma_message_round_trip(msg, Seq::empty());
    assert(data.subrange(0, HEADER_LENGTH as int) =~= header_marker());
    assert(request_body(data) =~= message_encoding(msg));
    assert(message_encoding(msg) + Seq::<u8>::empty() =~= message_encoding(msg));
}

/// The length of a request does not depend on the ports it names, and
/// the length of a reply depends on the family of the address alone.
pub proof fn lemma_lengths_are_fixed(a: MessageView, b: MessageView, p: PeerIp, q: PeerIp)
    requires
        a.wf(),
        b.wf(),
    ensures
        request_frame(a).len() == request_length(),
        request_frame(a).len() == request_frame(b).len(),
        (p is V4 <==> q is V4) ==> reply_frame(p).len() == reply_frame(q).len(),
{
}

} // verus!
