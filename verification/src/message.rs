//! The port-list record carried by a request.

use vstd::prelude::*;

verus! {

/// Number of port slots per protocol in one message.
pub const MAX_PORT_COUNT_PER_MESSAGE: usize = 4;

/// The ports a peer asks to have probed. Each list has a fixed number of
/// slots; a slot holding 0 is unused.
#[derive(Clone, Copy, Debug, PartialEq, Eq)]
pub struct IpEchoServerMessage {
    pub tcp_ports: [u16; MAX_PORT_COUNT_PER_MESSAGE],
    pub udp_ports: [u16; MAX_PORT_COUNT_PER_MESSAGE],
}

/// A message as two sequences of port numbers, in slot order.
pub struct MessageView {
    pub tcp_ports: Seq<u16>,
    pub udp_ports: Seq<u16>,
}

impl MessageView {
    /// Both lists have exactly one entry per slot.
    pub open spec fn wf(self) -> bool {
        &&& self.tcp_ports.len() == MAX_PORT_COUNT_PER_MESSAGE
        &&& self.udp_ports.len() == MAX_PORT_COUNT_PER_MESSAGE
    }
}

impl View for IpEchoServerMessage {
    type V = MessageView;

    open spec fn view(&self) -> MessageView {
        MessageView { tcp_ports: self.tcp_ports@, udp_ports: self.udp_ports@ }
    }
}

/// The given ports in the leading slots, in order, and 0 in every slot after them.
pub open spec fn padded_ports(ports: Seq<u16>) -> Seq<u16> {
    Seq::new(
        MAX_PORT_COUNT_PER_MESSAGE as nat,
        |i: int| if i < ports.len() { ports[i] } else { 0u16 },
    )
}

/// The message with every slot unused.
pub open spec fn empty_message() -> MessageView {
    MessageView { tcp_ports: padded_ports(Seq::empty()), udp_ports: padded_ports(Seq::empty()) }
}

fn fill_slots(ports: &[u16]) -> (slots: [u16; MAX_PORT_COUNT_PER_MESSAGE])
    requires
        ports@.len() <= MAX_PORT_COUNT_PER_MESSAGE,
    ensures
        slots@ == padded_ports(ports@),
{
    let mut slots: [u16; MAX_PORT_COUNT_PER_MESSAGE] = [0u16; MAX_PORT_COUNT_PER_MESSAGE];
    let mut i: usize = 0;
    while i < ports.len()
        invariant
            i <= ports@.len() <= MAX_PORT_COUNT_PER_MESSAGE,
            forall|k: int| 0 <= k < i ==> slots@[k] == ports@[k],
            forall|k: int| i <= k < MAX_PORT_COUNT_PER_MESSAGE ==> slots@[k] == 0,
        decreases ports@.len() - i,
    {
        slots[i] = ports[i];
        i += 1;
    }
    assert(slots@ =~= padded_ports(ports@));
    slots
}

impl IpEchoServerMessage {
    /// Builds a message from up to four TCP and four UDP ports. The ports
    /// keep their order and fill the leading slots; the rest stay unused.
    pub fn new(tcp_ports: &[u16], udp_ports: &[u16]) -> (msg: Self)
        requires
            tcp_ports@.len() <= MAX_PORT_COUNT_PER_MESSAGE,
            udp_ports@.len() <= MAX_PORT_COUNT_PER_MESSAGE,
        ensures
            msg@.tcp_ports == padded_ports(tcp_ports@),
            msg@.udp_ports == padded_ports(udp_ports@),
            msg@.wf(),
    {
        IpEchoServerMessage { tcp_ports: fill_slots(tcp_ports), udp_ports: fill_slots(udp_ports) }
    }

    /// The TCP slots, in order.
    pub fn tcp_ports(&self) -> (ports: [u16; MAX_PORT_COUNT_PER_MESSAGE])
        ensures
            ports@ == self@.tcp_ports,
    {
        self.tcp_ports
    }

    /// The UDP slots, in order.
    pub fn udp_ports(&self) -> (ports: [u16; MAX_PORT_COUNT_PER_MESSAGE])
        ensures
            ports@ == self@.udp_ports,
    {
        self.udp_ports
    }
}

impl Default for IpEchoServerMessage {
    /// The message with every slot unused.
    fn default() -> (msg: Self)
        ensures
            msg@ == empty_message(),
    {
        let msg = IpEchoServerMessage {
            tcp_ports: [0u16; MAX_PORT_COUNT_PER_MESSAGE],
            udp_ports: [0u16; MAX_PORT_COUNT_PER_MESSAGE],
        };
        assert(msg@.tcp_ports =~= padded_ports(Seq::empty()));
        assert(msg@.udp_ports =~= padded_ports(Seq::empty()));
        msg
    }
}

} // verus!
