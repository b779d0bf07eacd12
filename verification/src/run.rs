//! Whole runs of a connection: what it asks for, action by action, when
//! events reach it one after the other, and what holds of every such run.

use crate::connection::{
    lemma_bad_header_closes_silently, lemma_closed_stays_closed,
    lemma_http_client_gets_bad_request, lemma_next_port, next, next_port, tcp_stage, udp_stage,
    ActionView, ConnectionView, EventView, Phase,
};
use crate::message::MAX_PORT_COUNT_PER_MESSAGE;
use crate::wire::{
    header_marker, http_bad_request, http_get, http_post, reply_frame, request_length,
    ConnectionError, HEADER_LENGTH,
};
use vstd::prelude::*;

verus! {

/// The actions that a connection asks for, one per event, when the
/// events reach it in this order.
pub open spec fn actions(c: ConnectionView, events: Seq<EventView>) -> Seq<ActionView>
    decreases events.len(),
{
    if events.len() == 0 {
        Seq::empty()
    } else {
        seq![next(c, events[0]).1] + actions(next(c, events[0]).0, events.drop_first())
    }
}

/// The events `later` with `first` in front of them.
pub open spec fn after(first: EventView, later: Seq<EventView>) -> Seq<EventView> {
    seq![first] + later
}

/// The slot whose TCP port is being probed, or -1 while no TCP port is.
pub open spec fn tcp_slot(c: ConnectionView) -> int {
    match c.phase {
        Phase::TcpProbing(i) => i as int,
        _ => -1,
    }
}

/// Two events that differ at most in whether a datagram could be sent.
pub open spec fn same_but_for_udp_send(a: EventView, b: EventView) -> bool {
    a == b || (a is UdpSent && b is UdpSent)
}

/// The state that a connection is in after these events.
pub open spec fn state_after(c: ConnectionView, events: Seq<EventView>) -> ConnectionView
    decreases events.len(),
{
    if events.len() == 0 {
        c
    } else {
        state_after(next(c, events[0]).0, events.drop_first())
    }
}

/// The action that is pending at a stage, followed by the actions that
/// the events after it lead to.
pub open spec fn drive(stage: (ConnectionView, ActionView), events: Seq<EventView>) -> Seq<
    ActionView,
> {
    seq![stage.1] + actions(stage.0, events)
}

/// The same event `n` times.
pub open spec fn repeated(e: EventView, n: nat) -> Seq<EventView> {
    Seq::new(n, |i: int| e)
}

/// The ports in the slots from `from` on that are in use, in slot order.
pub open spec fn used_ports(ports: Seq<u16>, from: int) -> Seq<u16>
    decreases ports.len() - from,
{
    if from < 0 || from >= ports.len() {
        Seq::empty()
    } else if ports[from] != 0 {
        seq![ports[from]] + used_ports(ports, from + 1)
    } else {
        used_ports(ports, from + 1)
    }
}

/// One datagram for each of these ports.
pub open spec fn udp_probes(ports: Seq<u16>) -> Seq<ActionView> {
    ports.map_values(|port: u16| ActionView::SendUdp(port))
}

/// One connect for each of these ports.
pub open spec fn tcp_probes(ports: Seq<u16>) -> Seq<ActionView> {
    ports.map_values(|port: u16| ActionView::ConnectTcp(port))
}

/// There is one action per event.
pub proof fn lemma_one_action_per_event(c: ConnectionView, events: Seq<EventView>)
    ensures
        actions(c, events).len() == events.len(),
    decreases events.len(),
{
    if events.len() > 0 {
        lemma_one_action_per_event(next(c, events[0]).0, events.drop_first());
    }
}

/// After a connection has closed, whatever events still reach it, it
/// asks for nothing to be written and nothing to be probed.
pub proof fn lemma_nothing_follows_close(c: ConnectionView, events: Seq<EventView>)
    requires
        c.phase == Phase::Closed,
    ensures
        actions(c, events).len() == events.len(),
        forall|i: int|
            0 <= i < events.len() ==> #[trigger] actions(c, events)[i] == ActionView::Close(
                Err(ConnectionError::UnexpectedEvent),
            ),
    decreases events.len(),
{
    lemma_one_action_per_event(c, events);
    if events.len() > 0 {
        lemma_closed_stays_closed(c, events[0]);
        lemma_nothing_follows_close(c, events.drop_first());
        lemma_one_action_per_event(c, events.drop_first());
    }
}

/// When a TCP probe fails, no reply is sent for that request: from then
/// on the connection asks for no write at all, whatever happens next.
pub proof fn lemma_failed_tcp_probe_sends_no_reply(c: ConnectionView, later: Seq<EventView>)
    requires
        c.phase is TcpProbing,
    ensures
        forall|i: int|
            0 <= i <= later.len() ==> !(#[trigger] actions(
                c,
                after(EventView::IoFailed, later),
            )[i] is Write),
{
    let events = after(EventView::IoFailed, later);
    assert(events.drop_first() =~= later);
    lemma_nothing_follows_close(c.at(Phase::Closed), later);
}

/// When the header is neither the marker nor `GET ` nor `POST`, no byte
/// is written back: the connection asks for no write at all, whatever
/// happens next.
pub proof fn lemma_bad_header_sends_nothing(
    c: ConnectionView,
    data: Seq<u8>,
    later: Seq<EventView>,
)
    requires
        c.phase == Phase::Reading,
        data.len() == request_length(),
        data.subrange(0, HEADER_LENGTH as int) != header_marker(),
        data.subrange(0, HEADER_LENGTH as int) != http_get(),
        data.subrange(0, HEADER_LENGTH as int) != http_post(),
    ensures
        forall|i: int|
            0 <= i <= later.len() ==> !(#[trigger] actions(
                c,
                after(EventView::RequestRead(data), later),
            )[i] is Write),
{
    let events = after(EventView::RequestRead(data), later);
    assert(events.drop_first() =~= later);
    lemma_bad_header_closes_silently(c, data);
    lemma_nothing_follows_close(c.at(Phase::Closed), later);
}

/// An HTTP client is sent the HTTP error text and nothing after it: the
/// first write is that text, and once it is written no further write is
/// asked for, so no reply frame goes out.
pub proof fn lemma_http_client_gets_no_reply_frame(
    c: ConnectionView,
    data: Seq<u8>,
    later: Seq<EventView>,
)
    requires
        c.phase == Phase::Reading,
        data.len() == request_length(),
        data.subrange(0, HEADER_LENGTH as int) == http_get() || data.subrange(
            0,
            HEADER_LENGTH as int,
        ) == http_post(),
    ensures
        actions(c, after(EventView::RequestRead(data), after(EventView::Written, later)))[0]
            == ActionView::Write(http_bad_request()),
        actions(c, after(EventView::RequestRead(data), after(EventView::Written, later)))[1]
            == ActionView::Close(Ok(())),
        forall|i: int|
            1 <= i <= later.len() + 1 ==> !(#[trigger] actions(
                c,
                after(EventView::RequestRead(data), after(EventView::Written, later)),
            )[i] is Write),
{
    let tail = after(EventView::Written, later);
    let events = after(EventView::RequestRead(data), tail);
    assert(events.drop_first() =~= tail);
    assert(tail.drop_first() =~= later);
    lemma_http_client_gets_bad_request(c, data);
    let c1 = c.at(Phase::RejectingHttp);
    lemma_nothing_follows_close(c1.at(Phase::Closed), later);
    assert(actions(c, events) == seq![ActionView::Write(http_bad_request())] + actions(c1, tail));
    assert(actions(c1, tail) == seq![ActionView::Close(Ok(()))] + actions(
        c1.at(Phase::Closed),
        later,
    ));
}

/// TCP ports are probed in slot order, and the reply waits for the last
/// of them. A step that asks for a TCP probe moves to a later slot, names
/// the port in it, and passes over unused slots only; a step that asks
/// for the reply leaves no port behind it unprobed, and the reply is the
/// frame with the address of the peer.
pub proof fn lemma_tcp_probes_in_slot_order(c: ConnectionView, e: EventView)
    requires
        c.wf(),
    ensures
        next(c, e).0.phase matches Phase::TcpProbing(j) ==> {
            &&& tcp_slot(c) < j < MAX_PORT_COUNT_PER_MESSAGE
            &&& next(c, e).1 == ActionView::ConnectTcp(c.request.tcp_ports[j as int])
            &&& forall|k: int| tcp_slot(c) < k < j ==> c.request.tcp_ports[k] == 0
        },
        next(c, e).0.phase == Phase::Replying ==> {
            &&& next(c, e).1 == ActionView::Write(reply_frame(c.peer))
            &&& forall|k: int|
                tcp_slot(c) < k < MAX_PORT_COUNT_PER_MESSAGE ==> c.request.tcp_ports[k] == 0
        },
{
    lemma_next_port(c.request.tcp_ports, 0);
    lemma_next_port(c.request.udp_ports, 0);
    match c.phase {
        Phase::UdpSending(i) => {
            lemma_next_port(c.request.udp_ports, i + 1);
        },
        Phase::TcpProbing(i) => {
            lemma_next_port(c.request.tcp_ports, i + 1);
        },
        _ => {},
    }
}

/// Whether datagrams could be sent never shows in what a connection
/// does: two runs whose events differ only in that ask for the same
/// actions throughout.
pub proof fn lemma_udp_send_outcomes_do_not_matter(
    c: ConnectionView,
    a: Seq<EventView>,
    b: Seq<EventView>,
)
    requires
        a.len() == b.len(),
        forall|i: int| 0 <= i < a.len() ==> same_but_for_udp_send(#[trigger] a[i], b[i]),
    ensures
        actions(c, a) == actions(c, b),
    decreases a.len(),
{
    if a.len() > 0 {
        assert(same_but_for_udp_send(a[0], b[0]));
        assert(next(c, a[0]) == next(c, b[0]));
        let rest_a = a.drop_first();
        let rest_b = b.drop_first();
        assert forall|i: int| 0 <= i < rest_a.len() implies same_but_for_udp_send(
            #[trigger] rest_a[i],
            rest_b[i],
        ) by {
            assert(same_but_for_udp_send(a[i + 1], b[i + 1]));
        }
        lemma_udp_send_outcomes_do_not_matter(next(c, a[0]).0, rest_a, rest_b);
    }
}

/// The ports in use from a slot on start with the port that `next_port`
/// finds, if there is one.
pub proof fn lemma_used_ports_from_next(ports: Seq<u16>, from: int)
    requires
        0 <= from <= ports.len(),
    ensures
        next_port(ports, from) < ports.len() ==> used_ports(ports, from) == seq![
            ports[next_port(ports, from)],
        ] + used_ports(ports, next_port(ports, from) + 1),
        next_port(ports, from) >= ports.len() ==> used_ports(ports, from) == Seq::<u16>::empty(),
    decreases ports.len() - from,
{
    if from < ports.len() && ports[from] == 0 {
        lemma_used_ports_from_next(ports, from + 1);
    }
}

/// Events in two parts lead to the actions of the first part followed by
/// those of the second part from the state that the first part led to.
pub proof fn lemma_actions_in_parts(c: ConnectionView, a: Seq<EventView>, b: Seq<EventView>)
    ensures
        actions(c, a + b) == actions(c, a) + actions(state_after(c, a), b),
        state_after(c, a + b) == state_after(state_after(c, a), b),
    decreases a.len(),
{
    if a.len() == 0 {
        assert(a + b =~= b);
        assert(actions(c, a) + actions(c, b) =~= actions(c, b));
    } else {
        let c1 = next(c, a[0]).0;
        assert((a + b).drop_first() =~= a.drop_first() + b);
        assert((a + b)[0] == a[0]);
        lemma_actions_in_parts(c1, a.drop_first(), b);
        assert(actions(c, a + b) =~= actions(c, a) + actions(state_after(c, a), b));
    }
}

/// When every connect succeeds, TCP probing from a slot on connects to
/// each port in use from there, once and in slot order, and then asks
/// for the reply to be written.
pub proof fn lemma_every_tcp_port_is_probed(c: ConnectionView, from: int)
    requires
        c.request.wf(),
        0 <= from <= MAX_PORT_COUNT_PER_MESSAGE,
    ensures
        ({
            let used = used_ports(c.request.tcp_ports, from);
            let events = repeated(EventView::TcpConnected, used.len());
            &&& drive(tcp_stage(c, from), events) == tcp_probes(used) + seq![
                ActionView::Write(reply_frame(c.peer)),
            ]
            &&& state_after(tcp_stage(c, from).0, events) == c.at(Phase::Replying)
        }),
    decreases MAX_PORT_COUNT_PER_MESSAGE - from,
{
    let ports = c.request.tcp_ports;
    let i = next_port(ports, from);
    lemma_next_port(ports, from);
    lemma_used_ports_from_next(ports, from);
    let used = used_ports(ports, from);
    let events = repeated(EventView::TcpConnected, used.len());
    let reply = seq![ActionView::Write(reply_frame(c.peer))];
    if i < ports.len() {
        let rest = used_ports(ports, i + 1);
        let c1 = tcp_stage(c, from).0;
        let later = repeated(EventView::TcpConnected, rest.len());
        lemma_every_tcp_port_is_probed(c, i + 1);
        assert(events.drop_first() =~= later);
        assert(events[0] == EventView::TcpConnected);
        assert(tcp_stage(c1, i + 1) == tcp_stage(c, i + 1));
        assert(next(c1, EventView::TcpConnected) == tcp_stage(c, i + 1));
        assert(actions(c1, events) == drive(tcp_stage(c, i + 1), later));
        assert(tcp_probes(used) =~= seq![ActionView::ConnectTcp(ports[i])] + tcp_probes(rest));
        assert(drive(tcp_stage(c, from), events) =~= tcp_probes(used) + reply);
    } else {
        assert(events =~= Seq::<EventView>::empty());
        assert(drive(tcp_stage(c, from), events) =~= tcp_probes(used) + reply);
    }
}

/// UDP probing from a slot on sends to each port in use from there, once
/// and in slot order, and then goes on to the TCP ports from the first
/// slot.
pub proof fn lemma_every_udp_port_is_probed(c: ConnectionView, from: int)
    requires
        c.request.wf(),
        0 <= from <= MAX_PORT_COUNT_PER_MESSAGE,
    ensures
        ({
            let used = used_ports(c.request.udp_ports, from);
            let events = repeated(EventView::UdpSent(true), used.len());
            &&& drive(udp_stage(c, from), events) == udp_probes(used) + seq![tcp_stage(c, 0).1]
            &&& state_after(udp_stage(c, from).0, events) == tcp_stage(c, 0).0
        }),
    decreases MAX_PORT_COUNT_PER_MESSAGE - from,
{
    let ports = c.request.udp_ports;
    let i = next_port(ports, from);
    lemma_next_port(ports, from);
    lemma_used_ports_from_next(ports, from);
    let used = used_ports(ports, from);
    let events = repeated(EventView::UdpSent(true), used.len());
    let then = seq![tcp_stage(c, 0).1];
    if i < ports.len() {
        let rest = used_ports(ports, i + 1);
        let c1 = udp_stage(c, from).0;
        let later = repeated(EventView::UdpSent(true), rest.len());
        lemma_every_udp_port_is_probed(c, i + 1);
        assert(events.drop_first() =~= later);
        assert(events[0] == EventView::UdpSent(true));
        assert(tcp_stage(c1, 0) == tcp_stage(c, 0));
        assert(udp_stage(c1, i + 1) == udp_stage(c, i + 1));
        assert(next(c1, EventView::UdpSent(true)) == udp_stage(c, i + 1));
        assert(actions(c1, events) == drive(udp_stage(c, i + 1), later));
        assert(udp_probes(used) =~= seq![ActionView::SendUdp(ports[i])] + udp_probes(rest));
        assert(drive(udp_stage(c, from), events) =~= udp_probes(used) + then);
    } else {
        assert(events =~= Seq::<EventView>::empty());
        assert(drive(udp_stage(c, from), events) =~= udp_probes(used) + then);
    }
}

/// A request whose TCP ports can all be reached is answered, whatever
/// becomes of the UDP socket. Once the request is in, a connection sends
/// a datagram to each UDP port in use (to none, if the socket could not
/// be bound), connects to each TCP port in use, writes the reply frame
/// and ends in success, in this order and with nothing else in between.
pub proof fn lemma_reachable_peer_is_answered(c: ConnectionView, bound: bool)
    requires
        c.wf(),
        c.phase == Phase::UdpBinding,
    ensures
        ({
            let udp = if bound {
                used_ports(c.request.udp_ports, 0)
            } else {
                Seq::<u16>::empty()
            };
            let tcp = used_ports(c.request.tcp_ports, 0);
            let events = after(
                EventView::UdpBound(bound),
                repeated(EventView::UdpSent(true), udp.len()) + repeated(
                    EventView::TcpConnected,
                    tcp.len(),
                ) + seq![EventView::Written],
            );
            actions(c, events) == udp_probes(udp) + tcp_probes(tcp) + seq![
                ActionView::Write(reply_frame(c.peer)),
                ActionView::Close(Ok(())),
            ]
        }),
{
    let udp = if bound {
        used_ports(c.request.udp_ports, 0)
    } else {
        Seq::<u16>::empty()
    };
    let tcp = used_ports(c.request.tcp_ports, 0);
    let sends = repeated(EventView::UdpSent(true), udp.len());
    let connects = repeated(EventView::TcpConnected, tcp.len());
    let written = seq![EventView::Written];
    let tail = sends + connects + written;
    let events = after(EventView::UdpBound(bound), tail);
    let first = next(c, EventView::UdpBound(bound));
    assert(events.drop_first() =~= tail);
    assert(actions(c, events) == drive(first, tail));

    // The UDP part ends where the TCP part begins.
    lemma_every_udp_port_is_probed(c, 0);
    lemma_every_tcp_port_is_probed(c, 0);
    let tcp_start = tcp_stage(c, 0);
    if !bound {
        assert(sends =~= Seq::<EventView>::empty());
        assert(first == tcp_start);
        assert(udp_probes(udp) =~= Seq::<ActionView>::empty());
    }
    assert(state_after(first.0, sends) == tcp_start.0);
    assert(drive(first, sends) =~= udp_probes(udp) + seq![tcp_start.1]);

    // The TCP part ends with the reply pending.
    let replying = c.at(Phase::Replying);
    assert(state_after(tcp_start.0, connects) == replying);
    assert(actions(replying, written) =~= seq![ActionView::Close(Ok(()))]) by {
        assert(written.drop_first() =~= Seq::<EventView>::empty());
        assert(actions(c.at(Phase::Closed), Seq::<EventView>::empty()) =~= Seq::<
            ActionView,
        >::empty());
    }

    lemma_actions_in_parts(first.0, sends + connects, written);
    lemma_actions_in_parts(first.0, sends, connects);
    let udp_part = actions(first.0, sends);
    let tcp_part = actions(tcp_start.0, connects);
    let last_part = actions(replying, written);
    assert(actions(first.0, tail) == udp_part + tcp_part + last_part);
    assert(seq![first.1] + udp_part == udp_probes(udp) + seq![tcp_start.1]);
    assert(seq![tcp_start.1] + tcp_part == tcp_probes(tcp) + seq![
        ActionView::Write(reply_frame(c.peer)),
    ]);
    assert(drive(first, tail) =~= (seq![first.1] + udp_part) + tcp_part + last_part);
    assert(drive(first, tail) =~= udp_probes(udp) + (seq![tcp_start.1] + tcp_part) + last_part);
    assert(actions(c, events) =~= udp_probes(udp) + tcp_probes(tcp) + seq![
        ActionView::Write(reply_frame(c.peer)),
        ActionView::Close(Ok(())),
    ]);
}

} // verus!
