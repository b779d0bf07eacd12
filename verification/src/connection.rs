//! The decisions of one connection, as a state machine.
//!
//! The code that owns the sockets performs one `Action` at a time and hands
//! back what happened as an `Event`; `Connection::step` decides what comes
//! next. A connection reads its request, fires a datagram at every UDP port
//! named in it, connects to every TCP port named in it, in slot order, and
//! then writes the reply. A failed UDP probe changes nothing; a failed TCP
//! probe ends the connection without a reply.

use crate::message::{empty_message, IpEchoServerMessage, MessageView, MAX_PORT_COUNT_PER_MESSAGE};
use crate::wire::{
    build_reply, http_bad_request, http_bad_request_response, http_get, http_post,
    header_marker, ip_echo_server_request_length, parse_request, parse_request_spec,
    reply_frame, request_frame, request_length, ConnectionError, PeerIp, Request, RequestView,
    HEADER_LENGTH,
};
use vstd::prelude::*;

verus! {

/// Seconds within which each read, write and connect has to finish.
pub const IO_TIMEOUT_SECONDS: u64 = 5;

/// Where a connection stands.
#[derive(Clone, Copy, Debug, PartialEq, Eq, Structural)]
pub enum Phase {
    /// Waiting for the request to be read.
    Reading,
    /// Waiting for the answer to an HTTP client to be written.
    RejectingHttp,
    /// Waiting for the local UDP socket.
    UdpBinding,
    /// Waiting for the datagram to the UDP port in this slot.
    UdpSending(usize),
    /// Waiting for the connect to the TCP port in this slot.
    TcpProbing(usize),
    /// Waiting for the reply to be written.
    Replying,
    /// Finished.
    Closed,
}

/// What the I/O code reports back.
#[derive(Debug, PartialEq, Eq)]
pub enum Event {
    /// The bytes that were read for the request.
    RequestRead(Vec<u8>),
    /// The bytes of the last `Action::Write` were written.
    Written,
    /// Whether the local UDP socket could be bound.
    UdpBound(bool),
    /// Whether the datagram of the last `Action::SendUdp` could be sent.
    UdpSent(bool),
    /// The connect of the last `Action::ConnectTcp` succeeded and was closed again.
    TcpConnected,
    /// A read, a write or a connect failed or ran out of time.
    IoFailed,
}

/// An `Event` over the bytes it carries.
pub enum EventView {
    RequestRead(Seq<u8>),
    Written,
    UdpBound(bool),
    UdpSent(bool),
    TcpConnected,
    IoFailed,
}

impl View for Event {
    type V = EventView;

    open spec fn view(&self) -> EventView {
        match *self {
            Event::RequestRead(data) => EventView::RequestRead(data@),
            Event::Written => EventView::Written,
            Event::UdpBound(ok) => EventView::UdpBound(ok),
            Event::UdpSent(ok) => EventView::UdpSent(ok),
            Event::TcpConnected => EventView::TcpConnected,
            Event::IoFailed => EventView::IoFailed,
        }
    }
}

/// What the I/O code is to do next.
#[derive(Debug, PartialEq, Eq)]
pub enum Action {
    /// Read exactly this many bytes from the peer.
    Read(usize),
    /// Write these bytes to the peer.
    Write(Vec<u8>),
    /// Bind a local UDP socket on any port.
    BindUdp,
    /// Send one zero byte to this UDP port of the peer.
    SendUdp(u16),
    /// Connect to this TCP port of the peer and close again.
    ConnectTcp(u16),
    /// Drop the connection; the handler ends with this result.
    Close(Result<(), ConnectionError>),
}

/// An `Action` over the bytes it carries.
pub enum ActionView {
    Read(nat),
    Write(Seq<u8>),
    BindUdp,
    SendUdp(u16),
    ConnectTcp(u16),
    Close(Result<(), ConnectionError>),
}

impl View for Action {
    type V = ActionView;

    open spec fn view(&self) -> ActionView {
        match *self {
            Action::Read(len) => ActionView::Read(len as nat),
            Action::Write(bytes) => ActionView::Write(bytes@),
            Action::BindUdp => ActionView::BindUdp,
            Action::SendUdp(port) => ActionView::SendUdp(port),
            Action::ConnectTcp(port) => ActionView::ConnectTcp(port),
            Action::Close(result) => ActionView::Close(result),
        }
    }
}

/// The state of one connection: who the peer is, what it asked for and how
/// far the handling has come.
#[derive(Clone, Copy, Debug, PartialEq, Eq)]
pub struct Connection {
    peer: PeerIp,
    phase: Phase,
    request: IpEchoServerMessage,
}

/// A `Connection` over the view of its request.
pub struct ConnectionView {
    pub peer: PeerIp,
    pub phase: Phase,
    pub request: MessageView,
}

impl ConnectionView {
    /// The request has all its slots, and a phase that waits for a probe
    /// names a slot that holds a port.
    pub open spec fn wf(self) -> bool {
        &&& self.request.wf()
        &&& match self.phase {
            Phase::UdpSending(i) => i < MAX_PORT_COUNT_PER_MESSAGE && self.request.udp_ports[i as int]
                != 0,
            Phase::TcpProbing(i) => i < MAX_PORT_COUNT_PER_MESSAGE && self.request.tcp_ports[i as int]
                != 0,
            _ => true,
        }
    }

    /// The same connection in another phase.
    pub open spec fn at(self, phase: Phase) -> ConnectionView {
        ConnectionView { peer: self.peer, phase, request: self.request }
    }
}

impl View for Connection {
    type V = ConnectionView;

    closed spec fn view(&self) -> ConnectionView {
        ConnectionView { peer: self.peer, phase: self.phase, request: self.request@ }
    }
}

/// The first slot at or after `from` that holds a port, or the number of
/// slots if there is none.
pub open spec fn next_port(ports: Seq<u16>, from: int) -> int
    decreases ports.len() - from,
{
    if from < 0 || from >= ports.len() {
        ports.len() as int
    } else if ports[from] != 0 {
        from
    } else {
        next_port(ports, from + 1)
    }
}

/// A connection that has just been accepted from `peer`.
pub open spec fn accepted(peer: PeerIp) -> ConnectionView {
    ConnectionView { peer, phase: Phase::Reading, request: empty_message() }
}

/// Ending the connection with `result`.
pub open spec fn close(c: ConnectionView, result: Result<(), ConnectionError>) -> (
    ConnectionView,
    ActionView,
) {
    (c.at(Phase::Closed), ActionView::Close(result))
}

/// TCP probing from slot `from` on: connect to the next port, or write the
/// reply when no port is left.
pub open spec fn tcp_stage(c: ConnectionView, from: int) -> (ConnectionView, ActionView) {
    let i = next_port(c.request.tcp_ports, from);
    if i < c.request.tcp_ports.len() {
        (c.at(Phase::TcpProbing(i as usize)), ActionView::ConnectTcp(c.request.tcp_ports[i]))
    } else {
        (c.at(Phase::Replying), ActionView::Write(reply_frame(c.peer)))
    }
}

/// UDP probing from slot `from` on: send to the next port, or go on to the
/// TCP ports when no port is left.
pub open spec fn udp_stage(c: ConnectionView, from: int) -> (ConnectionView, ActionView) {
    let i = next_port(c.request.udp_ports, from);
    if i < c.request.udp_ports.len() {
        (c.at(Phase::UdpSending(i as usize)), ActionView::SendUdp(c.request.udp_ports[i]))
    } else {
        tcp_stage(c, 0)
    }
}

/// What follows the request. Anything but a request of the full length is
/// a failed read. A probe request is kept and UDP probing starts; an HTTP
/// client gets its answer; any other request ends the connection.
pub open spec fn on_request(c: ConnectionView, data: Seq<u8>) -> (ConnectionView, ActionView) {
    if data.len() != request_length() {
        close(c, Err(ConnectionError::Io))
    } else {
        match parse_request_spec(data) {
            Ok(RequestView::Probe(msg)) => (
                ConnectionView { peer: c.peer, phase: Phase::UdpBinding, request: msg },
                ActionView::BindUdp,
            ),
            Ok(RequestView::Http) => (
                c.at(Phase::RejectingHttp),
                ActionView::Write(http_bad_request()),
            ),
            Err(e) => close(c, Err(e)),
        }
    }
}

/// The state after an event, and the action that it calls for.
pub open spec fn next(c: ConnectionView, e: EventView) -> (ConnectionView, ActionView) {
    match (c.phase, e) {
        (Phase::Reading, EventView::RequestRead(data)) => on_request(c, data),
        (Phase::Reading, EventView::IoFailed) => close(c, Err(ConnectionError::Io)),
        (Phase::RejectingHttp, EventView::Written) => close(c, Ok(())),
        (Phase::RejectingHttp, EventView::IoFailed) => close(c, Err(ConnectionError::Io)),
        (Phase::UdpBinding, EventView::UdpBound(bound)) => if bound {
            udp_stage(c, 0)
        } else {
            tcp_stage(c, 0)
        },
        (Phase::UdpSending(i), EventView::UdpSent(_)) => udp_stage(c, i + 1),
        (Phase::TcpProbing(i), EventView::TcpConnected) => tcp_stage(c, i + 1),
        (Phase::TcpProbing(_), EventView::IoFailed) => close(c, Err(ConnectionError::Io)),
        (Phase::Replying, EventView::Written) => close(c, Ok(())),
        (Phase::Replying, EventView::IoFailed) => close(c, Err(ConnectionError::Io)),
        _ => close(c, Err(ConnectionError::UnexpectedEvent)),
    }
}

fn find_port(ports: &[u16; MAX_PORT_COUNT_PER_MESSAGE], from: usize) -> (i: usize)
    requires
        from <= MAX_PORT_COUNT_PER_MESSAGE,
    ensures
        i == next_port(ports@, from as int),
        from <= i <= MAX_PORT_COUNT_PER_MESSAGE,
        i < MAX_PORT_COUNT_PER_MESSAGE ==> ports@[i as int] != 0,
{
    let mut i: usize = from;
    while i < MAX_PORT_COUNT_PER_MESSAGE && ports[i] == 0
        invariant
            from <= i <= MAX_PORT_COUNT_PER_MESSAGE,
            next_port(ports@, from as int) == next_port(ports@, i as int),
        decreases MAX_PORT_COUNT_PER_MESSAGE - i,
    {
        i += 1;
    }
    i
}

impl Connection {
    /// Starts handling a connection from `peer`: the request is to be read.
    pub fn open(peer: PeerIp) -> (r: (Connection, Action))
        ensures
            r.0@ == accepted(peer),
            r.0@.wf(),
            r.1@ == ActionView::Read(request_length()),
    {
        let conn = Connection {
            peer,
            phase: Phase::Reading,
            request: IpEchoServerMessage::default(),
        };
        (conn, Action::Read(ip_echo_server_request_length()))
    }

    /// The address of the peer.
    pub fn peer(&self) -> (peer: PeerIp)
        ensures
            peer == self@.peer,
    {
        self.peer
    }

    /// Where the connection stands.
    pub fn phase(&self) -> (phase: Phase)
        ensures
            phase == self@.phase,
    {
        self.phase
    }

    /// The request that was read, or the empty message before that.
    pub fn request(&self) -> (request: IpEchoServerMessage)
        ensures
            request@ == self@.request,
    {
        self.request
    }

    fn finish(&mut self, result: Result<(), ConnectionError>) -> (action: Action)
        ensures
            (final(self)@, action@) == close(old(self)@, result),
    {
        self.phase = Phase::Closed;
        Action::Close(result)
    }

    fn enter_tcp(&mut self, from: usize) -> (action: Action)
        requires
            from <= MAX_PORT_COUNT_PER_MESSAGE,
        ensures
            (final(self)@, action@) == tcp_stage(old(self)@, from as int),
            old(self)@.request.wf() ==> final(self)@.wf(),
    {
        let i = find_port(&self.request.tcp_ports, from);
        if i < MAX_PORT_COUNT_PER_MESSAGE {
            self.phase = Phase::TcpProbing(i);
            Action::ConnectTcp(self.request.tcp_ports[i])
        } else {
            self.phase = Phase::Replying;
            Action::Write(build_reply(&self.peer))
        }
    }

    fn enter_udp(&mut self, from: usize) -> (action: Action)
        requires
            from <= MAX_PORT_COUNT_PER_MESSAGE,
        ensures
            (final(self)@, action@) == udp_stage(old(self)@, from as int),
            old(self)@.request.wf() ==> final(self)@.wf(),
    {
        let i = find_port(&self.request.udp_ports, from);
        if i < MAX_PORT_COUNT_PER_MESSAGE {
            self.phase = Phase::UdpSending(i);
            Action::SendUdp(self.request.udp_ports[i])
        } else {
            self.enter_tcp(0)
        }
    }

    fn receive(&mut self, data: &[u8]) -> (action: Action)
        ensures
            (final(self)@, action@) == on_request(old(self)@, data@),
            old(self)@.request.wf() ==> final(self)@.wf(),
    {
        if data.len() != ip_echo_server_request_length() {
            return self.finish(Err(ConnectionError::Io));
        }
        match parse_request(data) {
            Ok(Request::Probe(msg)) => {
                self.request = msg;
                self.phase = Phase::UdpBinding;
                Action::BindUdp
            },
            Ok(Request::Http) => {
                self.phase = Phase::RejectingHttp;
                Action::Write(http_bad_request_response())
            },
            Err(e) => self.finish(Err(e)),
        }
    }

    /// Takes what the I/O code reports and decides what it is to do next:
    /// see `next`.
    pub fn step(&mut self, event: Event) -> (action: Action)
        requires
            old(self)@.wf(),
        ensures
            final(self)@ == next(old(self)@, event@).0,
            action@ == next(old(self)@, event@).1,
            final(self)@.wf(),
    {
        match event {
            Event::RequestRead(data) => match self.phase {
                Phase::Reading => self.receive(data.as_slice()),
                _ => self.finish(Err(ConnectionError::UnexpectedEvent)),
            },
            Event::Written => match self.phase {
                Phase::RejectingHttp => self.finish(Ok(())),
                Phase::Replying => self.finish(Ok(())),
                _ => self.finish(Err(ConnectionError::UnexpectedEvent)),
            },
            Event::UdpBound(bound) => match self.phase {
                Phase::UdpBinding => if bound {
                    self.enter_udp(0)
                } else {
                    self.enter_tcp(0)
                },
                _ => self.finish(Err(ConnectionError::UnexpectedEvent)),
            },
            Event::UdpSent(_) => match self.phase {
                Phase::UdpSending(i) => self.enter_udp(i + 1),
                _ => self.finish(Err(ConnectionError::UnexpectedEvent)),
            },
            Event::TcpConnected => match self.phase {
                Phase::TcpProbing(i) => self.enter_tcp(i + 1),
                _ => self.finish(Err(ConnectionError::UnexpectedEvent)),
            },
            Event::IoFailed => match self.phase {
                Phase::Reading => self.finish(Err(ConnectionError::Io)),
                Phase::RejectingHttp => self.finish(Err(ConnectionError::Io)),
                Phase::TcpProbing(_) => self.finish(Err(ConnectionError::Io)),
                Phase::Replying => self.finish(Err(ConnectionError::Io)),
                _ => self.finish(Err(ConnectionError::UnexpectedEvent)),
            },
        }
    }
}

/// The slot that `next_port` finds lies at or after `from`, holds a port if
/// it is a slot at all, and every slot passed over is unused.
pub proof fn lemma_next_port(ports: Seq<u16>, from: int)
    requires
        0 <= from <= ports.len(),
    ensures
        from <= next_port(ports, from) <= ports.len(),
        next_port(ports, from) < ports.len() ==> ports[next_port(ports, from)] != 0,
        forall|k: int| from <= k < next_port(ports, from) ==> ports[k] == 0,
    decreases ports.len() - from,
{
    if from < ports.len() && ports[from] == 0 {
        lemma_next_port(ports, from + 1);
    }
}

/// A request that was built for a message is taken as it is: the
/// connection keeps the same ports in the same slots and goes on to probe.
pub proof fn lemma_request_is_kept(c: ConnectionView, msg: MessageView)
    requires
        c.phase == Phase::Reading,
        msg.wf(),
    ensures
        next(c, EventView::RequestRead(request_frame(msg))) == (
            ConnectionView { peer: c.peer, phase: Phase::UdpBinding, request: msg },
            ActionView::BindUdp,
        ),
{
    crate::wire::lemma_request_round_trip(msg);
}

/// A request that starts with `GET ` or `POST` is answered with the HTTP
/// error text and nothing else: once that is written the connection ends
/// in success, and no reply frame is written.
pub proof fn lemma_http_client_gets_bad_request(c: ConnectionView, data: Seq<u8>)
    requires
        c.phase == Phase::Reading,
        data.len() == request_length(),
        data.subrange(0, HEADER_LENGTH as int) == http_get() || data.subrange(
            0,
            HEADER_LENGTH as int,
        ) == http_post(),
    ensures
        next(c, EventView::RequestRead(data)) == (
            c.at(Phase::RejectingHttp),
            ActionView::Write(http_bad_request()),
        ),
        next(c.at(Phase::RejectingHttp), EventView::Written) == close(c, Ok(())),
{
    let header = data.subrange(0, HEADER_LENGTH as int);
    assert(http_get()[0] != header_marker()[0]);
    assert(http_post()[0] != header_marker()[0]);
}

/// A request whose header is neither the marker nor `GET ` nor `POST`
/// ends the connection at once with an error; nothing is written.
pub proof fn lemma_bad_header_closes_silently(c: ConnectionView, data: Seq<u8>)
    requires
        c.phase == Phase::Reading,
        data.len() == request_length(),
        data.subrange(0, HEADER_LENGTH as int) != header_marker(),
        data.subrange(0, HEADER_LENGTH as int) != http_get(),
        data.subrange(0, HEADER_LENGTH as int) != http_post(),
    ensures
        next(c, EventView::RequestRead(data)) == close(c, Err(ConnectionError::BadRequestHeader)),
{
}

/// A TCP probe that fails ends the connection with an error: no further
/// port is probed and no reply is written.
pub proof fn lemma_failed_tcp_probe_ends_connection(c: ConnectionView)
    requires
        c.phase is TcpProbing,
    ensures
        next(c, EventView::IoFailed) == close(c, Err(ConnectionError::Io)),
{
}

/// A closed connection stays closed, whatever it is told: it asks for
/// nothing more to be read, written or probed.
pub proof fn lemma_closed_stays_closed(c: ConnectionView, e: EventView)
    requires
        c.phase == Phase::Closed,
    ensures
        next(c, e) == close(c, Err(ConnectionError::UnexpectedEvent)),
        next(c, e).0 == c,
{
}

/// UDP failures never propagate. When the local socket cannot be bound,
/// the connection goes straight on to the TCP ports; whether a datagram
/// could be sent makes no difference to what follows; and neither outcome
/// ends the connection.
pub proof fn lemma_udp_failures_change_nothing(c: ConnectionView, sent: bool)
    requires
        c.wf(),
        c.phase == Phase::UdpBinding || c.phase is UdpSending,
    ensures
        c.phase == Phase::UdpBinding ==> next(c, EventView::UdpBound(false)) == tcp_stage(c, 0),
        c.phase is UdpSending ==> next(c, EventView::UdpSent(sent)) == next(
            c,
            EventView::UdpSent(true),
        ),
        c.phase == Phase::UdpBinding ==> !(next(c, EventView::UdpBound(sent)).1 is Close)
            && next(c, EventView::UdpBound(sent)).0.phase != Phase::Closed,
        c.phase is UdpSending ==> !(next(c, EventView::UdpSent(sent)).1 is Close) && next(
            c,
            EventView::UdpSent(sent),
        ).0.phase != Phase::Closed,
{
}

/// An unused slot is never probed: every port that a step asks to be
/// probed is a non-zero port of the request.
pub proof fn lemma_unused_slots_are_not_probed(c: ConnectionView, e: EventView)
    requires
        c.wf(),
    ensures
        next(c, e).1 matches ActionView::SendUdp(port) ==> port != 0
            && c.request.udp_ports.contains(port),
        next(c, e).1 matches ActionView::ConnectTcp(port) ==> port != 0
            && c.request.tcp_ports.contains(port),
{
    lemma_next_port(c.request.udp_ports, 0);
    lemma_next_port(c.request.tcp_ports, 0);
    match c.phase {
        Phase::UdpSending(i) => {
            lemma_next_port(c.request.udp_ports, i + 1);
        },
        Phase::TcpProbing(i) => {
            lemma_next_port(c.request.tcp_ports, i + 1);
        },
        _ => {},
    }
}

/// A request with every slot unused leads to no probe at all: once the
/// UDP socket has been tried, with either outcome, the reply is written.
pub proof fn lemma_empty_request_is_answered_at_once(c: ConnectionView, bound: bool)
    requires
        c.phase == Phase::UdpBinding,
        c.request == empty_message(),
    ensures
        next(c, EventView::UdpBound(bound)) == (
            c.at(Phase::Replying),
            ActionView::Write(reply_frame(c.peer)),
        ),
{
    reveal_with_fuel(next_port, 5);
}

} // verus!
