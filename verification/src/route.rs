//! Forwarding: what becomes of a packet from the device or from a peer.
//!
//! Nothing here touches the network, the device or the packet.
//! [`Daemon::forward_packet`] gives the first [`Step`]. Whoever performs a step
//! that brings a [`ForwardEvent`] hands it to [`Daemon::next_step`], which
//! gives the next; a step that brings none is the last.
use crate::daemon::{Daemon, ForwardingMode, NodeId, RoutingMode};
use crate::mac::LearnAction;
use crate::pmtu::MTU;
use vstd::prelude::*;

verus! {

/// Length of an Ethernet header.
pub const ETHER_LEN: u16 = 14;

/// Ethertype of IPv4.
pub const ETH_P_IP: u16 = 0x0800;

/// Ethertype of ARP.
pub const ETH_P_ARP: u16 = 0x0806;

/// ICMP: destination unreachable.
pub const ICMP_DEST_UNREACH: u8 = 3;

/// ICMP: communication with the network is administratively prohibited.
pub const ICMP_NET_ANO: u8 = 9;

/// ICMPv6: destination unreachable.
pub const ICMP6_DST_UNREACH: u8 = 1;

/// ICMPv6: communication is administratively prohibited.
pub const ICMP6_DST_UNREACH_ADMIN: u8 = 1;

/// Route option: clamp the segment size of TCP connections.
pub const OPTION_CLAMP_MSS: u32 = 8;

/// No smaller frame is ever reported as too long for IPv4: 576 bytes, which
/// every host takes, and the Ethernet header.
pub const FLOOR_V4: u16 = 590;

/// No smaller frame is ever reported as too long for IPv6: 1280 bytes, which
/// every link takes, and the Ethernet header.
pub const FLOOR_V6: u16 = 1294;

/// What looking up a packet's destination found.
#[derive(Debug, Clone, Copy, PartialEq, Eq)]
pub enum RouteResult {
    /// A reachable node owns the destination.
    Forward { to: NodeId },
    /// Nobody does, or nobody reachable.
    Unreachable { icmp_type: u8, icmp_code: u8 },
    /// An IPv6 neighbour solicitation, to be answered here.
    NeighborSolicit,
    /// Not a kind of packet that can be routed, and why.
    Unsupported { reason: &'static str },
    /// For everybody.
    Broadcast,
    /// `have` bytes where at least `need` are wanted.
    TooShort { need: usize, have: usize },
}

/// What lowering a packet's time to live found.
#[derive(Debug, Clone, Copy, PartialEq, Eq, Structural)]
pub enum TtlResult {
    Decremented,
    /// Too short to have one, such as ARP.
    TooShort,
    /// It has run out, and nobody is to be told.
    DropSilent,
    /// It has run out, and the sender is to be told.
    SendIcmp { icmp_type: u8, icmp_code: u8 },
}

/// The ICMP errors that go back to a packet's sender.
#[derive(Debug, Clone, Copy, PartialEq, Eq, Structural)]
pub enum IcmpKind {
    /// Type and code. `discover_src`: send it from the address that faces the
    /// sender, not from the one the packet was for.
    Unreach { t: u8, c: u8, discover_src: bool },
    /// IPv4: too long, and not to be fragmented.
    FragNeeded { mtu: u16 },
    /// IPv6: too long.
    TooBigV6 { mtu: u32 },
}

/// Why a packet goes no further.
#[derive(Debug, Clone, Copy, PartialEq, Eq)]
pub enum DropReason {
    /// It cannot be routed.
    Unsupported { reason: &'static str },
    TooShort { need: usize, have: usize },
    /// Its sender owns its destination: two nodes claim the same subnet.
    LoopsBack { to: NodeId },
    /// It is not for this node, and this node is no relay.
    NotARelay { to: NodeId },
    /// The next node on its way is the one it came from.
    RoutingLoop,
    /// Its time to live has run out, or cannot be lowered.
    TtlExpired,
}

/// What to do next with a packet.
#[derive(Debug, Clone, Copy, PartialEq, Eq)]
pub enum Step {
    /// Copy it to those who watch, by [`Daemon::send_pcap`]. Brings `Copied`.
    CopyToWatchers,
    /// Take it for a DNS query, by [`Daemon::try_dns_intercept`]. Brings
    /// `DnsTried`.
    InterceptDns,
    /// Look up its IP destination. Brings `Routed`.
    RouteIp,
    /// Look up its Ethernet addresses. Brings `MacRouted`.
    RouteMac,
    /// Follow up on its source address, by [`Daemon::route_packet_mac`].
    /// Brings `Learned`, with the same `result`.
    Learn { learn: LearnAction, result: RouteResult },
    /// Clamp its segment size to what frames of `mtu` bytes carry. Brings
    /// `Clamped`.
    Clamp { to: NodeId, mtu: u16 },
    /// Lower its time to live. Brings `TtlLowered`.
    LowerTtl { to: NodeId },
    /// Lower the time to live of a broadcast. Brings `BroadcastTtlLowered`.
    LowerBroadcastTtl,
    /// Send it, by [`Daemon::send_forward`].
    Transmit { to: NodeId },
    /// Split it into frames of at most `limit` bytes, then [`send_fragments`].
    Fragment { to: NodeId, limit: u16 },
    /// Send it to everybody, by [`Daemon::broadcast_packet`].
    Broadcast,
    /// Write it to the device.
    DeliverLocal,
    /// Answer an ARP request.
    HandleArp,
    /// Answer a neighbour solicitation.
    HandleNdp,
    /// Tell the sender.
    EmitIcmp(IcmpKind),
    /// Log why it goes no further, and tell the sender.
    Reject { reason: DropReason, kind: IcmpKind },
    /// Log why it goes no further.
    Drop(DropReason),
    /// Nothing: it was answered here.
    Done,
}

/// What came of a step.
#[derive(Debug, Clone, Copy, PartialEq, Eq)]
pub enum ForwardEvent {
    /// Those who watch have their copies.
    Copied,
    /// Whether it was a DNS query to this node, by [`crate::dns::dns_hit`].
    DnsTried { hit: bool },
    /// Where its IP destination is.
    Routed(RouteResult),
    /// Where its Ethernet destination is, and what its source calls for.
    MacRouted { result: RouteResult, learn: LearnAction },
    /// Its source address was followed up on.
    Learned { result: RouteResult },
    /// The segment size of a packet for `to` was clamped.
    Clamped { to: NodeId },
    /// The time to live of a packet for `to` was to be lowered.
    TtlLowered { to: NodeId, ttl: TtlResult },
    /// The time to live of a broadcast was to be lowered.
    BroadcastTtlLowered(TtlResult),
}

/// One thing to do when a packet is sent.
#[derive(Debug, Clone, Copy, PartialEq, Eq, Structural)]
pub enum TxAction {
    /// Count one packet of that many bytes as sent to the node.
    CountOut { to: NodeId, bytes: usize },
    /// Drive path discovery for the node, which may change the transport.
    TryTx { to: NodeId },
    /// Send the packet.
    SendPacket { to: NodeId },
    /// Send the fragment with that index.
    SendFragment { to: NodeId, index: usize },
}

/// The ethertype of a frame.
pub open spec fn ethertype_of(data: Seq<u8>) -> int {
    data[12] * 256 + data[13]
}

/// The ethertype of a frame.
pub fn ethertype(data: &[u8]) -> (r: u16)
    requires
        data@.len() >= ETHER_LEN,
    ensures
        r == ethertype_of(data@),
{
    data[12] as u16 * 256 + data[13] as u16
}

/// The frame is ARP.
pub open spec fn is_arp(data: Seq<u8>) -> bool {
    data.len() >= ETHER_LEN && ethertype_of(data) == ETH_P_ARP
}

fn is_arp_frame(data: &[u8]) -> (r: bool)
    ensures
        r == is_arp(data@),
{
    data.len() >= ETHER_LEN as usize && ethertype(data) == ETH_P_ARP
}

/// What tells a sender that its packet may not go this way.
pub open spec fn prohibited(data: Seq<u8>) -> IcmpKind {
    if ethertype_of(data) == ETH_P_IP {
        IcmpKind::Unreach { t: ICMP_DEST_UNREACH, c: ICMP_NET_ANO, discover_src: false }
    } else {
        IcmpKind::Unreach {
            t: ICMP6_DST_UNREACH,
            c: ICMP6_DST_UNREACH_ADMIN,
            discover_src: false,
        }
    }
}

fn prohibited_kind(data: &[u8]) -> (r: IcmpKind)
    requires
        data@.len() >= ETHER_LEN,
    ensures
        r == prohibited(data@),
{
    if ethertype(data) == ETH_P_IP {
        IcmpKind::Unreach { t: ICMP_DEST_UNREACH, c: ICMP_NET_ANO, discover_src: false }
    } else {
        IcmpKind::Unreach {
            t: ICMP6_DST_UNREACH,
            c: ICMP6_DST_UNREACH_ADMIN,
            discover_src: false,
        }
    }
}

/// The longest frame that passes a hop with that path MTU.
pub open spec fn frame_limit(mtu: u16, ipv4: bool) -> u16 {
    let floor = if ipv4 {
        FLOOR_V4
    } else {
        FLOOR_V6
    };
    if mtu >= floor {
        mtu
    } else {
        floor
    }
}

/// The packet that fits into a frame of that length.
pub open spec fn packet_limit(frame: u16) -> u16 {
    (frame - ETHER_LEN) as u16
}

/// The same in 32 bits.
pub open spec fn packet_limit_wide(frame: u16) -> u32 {
    (frame - ETHER_LEN) as u32
}

fn packet_mtu_wide(frame: u16) -> (r: u32)
    requires
        frame >= ETHER_LEN,
    ensures
        r == packet_limit_wide(frame),
{
    (frame - ETHER_LEN) as u32
}

fn longer_than(len: usize, limit: u16) -> (r: bool)
    ensures
        r == (len > limit),
{
    len > limit as usize
}

/// The sender of an IPv4 packet wants it whole or not at all.
pub open spec fn dont_fragment(data: Seq<u8>) -> bool {
    data[20] & 0x40 != 0
}

/// A broadcast whose time to live was to be lowered. Nobody is told of one
/// that has run out.
pub open spec fn after_broadcast_ttl(ttl: TtlResult) -> Step {
    match ttl {
        TtlResult::Decremented | TtlResult::TooShort => Step::Broadcast,
        _ => Step::Drop(DropReason::TtlExpired),
    }
}

/// Goes on with a broadcast whose time to live was to be lowered.
pub fn broadcast_after_ttl(ttl: TtlResult) -> (r: Step)
    ensures
        r == after_broadcast_ttl(ttl),
{
    match ttl {
        TtlResult::Decremented | TtlResult::TooShort => Step::Broadcast,
        TtlResult::DropSilent | TtlResult::SendIcmp { .. } => Step::Drop(DropReason::TtlExpired),
    }
}

/// A packet for `to` whose time to live was to be lowered: it is sent, unless
/// that has run out.
pub open spec fn after_forward_ttl(to: NodeId, ttl: TtlResult) -> Step {
    match ttl {
        TtlResult::Decremented => Step::Transmit { to },
        TtlResult::TooShort | TtlResult::DropSilent => Step::Drop(DropReason::TtlExpired),
        TtlResult::SendIcmp { icmp_type, icmp_code } => Step::EmitIcmp(
            IcmpKind::Unreach { t: icmp_type, c: icmp_code, discover_src: true },
        ),
    }
}

/// Goes on with a packet for `to` whose time to live was to be lowered.
pub fn forward_after_ttl(to: NodeId, ttl: TtlResult) -> (r: Step)
    ensures
        r == after_forward_ttl(to, ttl),
{
    match ttl {
        TtlResult::Decremented => Step::Transmit { to },
        TtlResult::TooShort | TtlResult::DropSilent => Step::Drop(DropReason::TtlExpired),
        TtlResult::SendIcmp { icmp_type, icmp_code } => Step::EmitIcmp(
            IcmpKind::Unreach { t: icmp_type, c: icmp_code, discover_src: true },
        ),
    }
}

/// All fragments are counted, then discovery is driven once, then all are
/// sent.
pub open spec fn fragment_actions(to: NodeId, lens: Seq<usize>) -> Seq<TxAction> {
    Seq::new(lens.len(), |i: int| TxAction::CountOut { to, bytes: lens[i] }).push(
        TxAction::TryTx { to },
    ) + Seq::new(lens.len(), |i: int| TxAction::SendFragment { to, index: i as usize })
}

/// What becomes of a packet that was to be split: its fragments are sent, if
/// it could be.
pub open spec fn split_actions(to: NodeId, lens: Option<Seq<usize>>) -> Seq<TxAction> {
    match lens {
        Some(lens) => fragment_actions(to, lens),
        None => Seq::empty(),
    }
}

/// Sends a packet in fragments of the given lengths. `None`: it could not be
/// split, and is dropped.
pub fn send_fragments(to: NodeId, lens: Option<Vec<usize>>) -> (r: Vec<TxAction>)
    ensures
        r@ == split_actions(
            to,
            match lens {
                Some(lens) => Some(lens@),
                None => None,
            },
        ),
{
    let mut out: Vec<TxAction> = Vec::new();
    match lens {
        Some(lens) => {
            let n: usize = lens.len();
            let mut i: usize = 0;
            while i < n
                invariant
                    i <= n,
                    n == lens@.len(),
                    out@ == Seq::new(i as nat, |j: int| TxAction::CountOut { to, bytes: lens@[j] }),
                decreases n - i,
            {
                out.push(TxAction::CountOut { to, bytes: lens[i] });
                i = i + 1;
                assert(out@ == Seq::new(
                    i as nat,
                    |j: int| TxAction::CountOut { to, bytes: lens@[j] },
                ));
            }
            out.push(TxAction::TryTx { to });
            let ghost front = out@;
            let mut k: usize = 0;
            while k < n
                invariant
                    k <= n,
                    out@ == front + Seq::new(
                        k as nat,
                        |j: int| TxAction::SendFragment { to, index: j as usize },
                    ),
                decreases n - k,
            {
                out.push(TxAction::SendFragment { to, index: k });
                k = k + 1;
                assert(out@ == front + Seq::new(
                    k as nat,
                    |j: int| TxAction::SendFragment { to, index: j as usize },
                ));
            }
        },
        None => {},
    }
    out
}

impl Daemon {
    /// The node that a packet for `to` is sent through: the last one that UDP
    /// reaches directly, or the first one on the way if that is this node.
    pub open spec fn hop(&self, to: NodeId) -> NodeId {
        match self.route_to(to) {
            None => to,
            Some(route) => if route.via == self.myself {
                route.nexthop
            } else {
                route.via
            },
        }
    }

    fn next_hop(&self, to: NodeId) -> (r: NodeId)
        ensures
            r == self.hop(to),
    {
        match self.route_of(to) {
            None => to,
            Some(route) => if route.via == self.myself {
                route.nexthop
            } else {
                route.via
            },
        }
    }

    /// This node is told not to relay, and the packet is another's.
    pub open spec fn refuses_transit(&self, from: Option<NodeId>) -> bool {
        self.settings.forwarding_mode is Off && from is Some
    }

    /// Only direct connections are wanted, and `to` has none.
    pub open spec fn refuses_detour(&self, to: NodeId) -> bool {
        self.settings.directonly && self.hop(to) != to
    }

    /// The path MTU to the next hop is known.
    pub open spec fn hop_measured(&self, to: NodeId) -> bool {
        self.hop(to) != self.myself && self.mtu_of(self.hop(to)) != 0
    }

    /// The frame is longer than the next hop takes.
    pub open spec fn too_long(&self, to: NodeId, data: Seq<u8>) -> bool {
        self.hop_measured(to) && data.len() > frame_limit(
            self.mtu_of(self.hop(to)),
            ethertype_of(data) == ETH_P_IP,
        )
    }

    /// What becomes of a frame that is longer than the next hop takes.
    pub open spec fn over_length(&self, to: NodeId, data: Seq<u8>) -> Step {
        let ipv4 = ethertype_of(data) == ETH_P_IP;
        let limit = frame_limit(self.mtu_of(self.hop(to)), ipv4);
        if !ipv4 {
            // Nobody fragments IPv6 under way.
            Step::EmitIcmp(IcmpKind::TooBigV6 { mtu: packet_limit_wide(limit) })
        } else if dont_fragment(data) {
            Step::EmitIcmp(IcmpKind::FragNeeded { mtu: packet_limit(limit) })
        } else {
            Step::Fragment { to, limit }
        }
    }

    /// The segment size is to be clamped on the way to `to`: to what the next
    /// hop takes, and never to more than the link ceiling.
    pub open spec fn clamp_to(&self, to: NodeId) -> Option<u16> {
        let options = match self.route_to(to) {
            Some(route) => route.options,
            None => 0,
        };
        if options & OPTION_CLAMP_MSS != 0 {
            Some(crate::pmtu::clamped(self.mtu_of(self.hop(to))))
        } else {
            None
        }
    }

    /// What becomes of a packet for the peer `to`.
    pub open spec fn forward_step(&self, to: NodeId, data: Seq<u8>, from: Option<NodeId>) -> Step {
        if from == Some(to) {
            Step::Drop(DropReason::LoopsBack { to })
        } else if self.refuses_transit(from) {
            if self.settings.routing_mode is Router {
                Step::Reject { reason: DropReason::NotARelay { to }, kind: prohibited(data) }
            } else {
                Step::Drop(DropReason::NotARelay { to })
            }
        } else if from == Some(self.hop(to)) {
            Step::Drop(DropReason::RoutingLoop)
        } else if self.refuses_detour(to) {
            Step::EmitIcmp(prohibited(data))
        } else if self.too_long(to, data) {
            self.over_length(to, data)
        } else {
            match self.clamp_to(to) {
                Some(mtu) => Step::Clamp { to, mtu },
                None => self.after_clamp(to, from),
            }
        }
    }

    /// A packet for `to` whose segment size is settled: others' packets lose
    /// time to live before they are sent, if the settings say so.
    pub open spec fn after_clamp(&self, to: NodeId, from: Option<NodeId>) -> Step {
        if self.settings.decrement_ttl && from is Some {
            Step::LowerTtl { to }
        } else {
            Step::Transmit { to }
        }
    }

    /// Goes on with a packet for `to` whose segment size is settled.
    pub fn forward_after_clamp(&self, to: NodeId, from: Option<NodeId>) -> (r: Step)
        ensures
            r == self.after_clamp(to, from),
    {
        if self.settings.decrement_ttl && from.is_some() {
            Step::LowerTtl { to }
        } else {
            Step::Transmit { to }
        }
    }

    /// Deciding about a packet for `to` takes a look at its ethertype.
    pub open spec fn reads_ethertype(&self, to: NodeId, from: Option<NodeId>) -> bool {
        &&& from != Some(to)
        &&& if self.refuses_transit(from) {
            self.settings.routing_mode is Router
        } else {
            from != Some(self.hop(to)) && (self.refuses_detour(to) || self.hop_measured(to))
        }
    }

    /// Whether [`Daemon::dispatch_forward`] takes a look at the ethertype, and
    /// so needs the whole Ethernet header.
    pub fn needs_ethertype(&self, to: NodeId, from: Option<NodeId>) -> (r: bool)
        ensures
            r == self.reads_ethertype(to, from),
    {
        if from == Some(to) {
            return false;
        }
        if matches!(self.settings.forwarding_mode, ForwardingMode::Off) && from.is_some() {
            return matches!(self.settings.routing_mode, RoutingMode::Router);
        }
        let hop: NodeId = self.next_hop(to);
        from != Some(hop) && ((self.settings.directonly && hop != to) || (hop != self.myself
            && self.tunnel_mtu(hop) != 0))
    }

    /// Decides about a packet for the peer `to`. In this order: packets never
    /// go back to where they came from; a node that is no relay refuses to
    /// relay; nor does anything go to the node it came from as its next hop;
    /// `directonly` refuses detours; what is longer than the next hop takes is
    /// split or reported, once that length is known; the rest is sent, after
    /// its segment size was clamped and its time to live lowered where that
    /// is due.
    pub fn dispatch_forward(&self, to: NodeId, data: &[u8], from: Option<NodeId>) -> (r: Step)
        requires
            self.reads_ethertype(to, from) ==> data@.len() >= ETHER_LEN,
        ensures
            r == self.forward_step(to, data@, from),
    {
        if from == Some(to) {
            return Step::Drop(DropReason::LoopsBack { to });
        }
        if matches!(self.settings.forwarding_mode, ForwardingMode::Off) && from.is_some() {
            if matches!(self.settings.routing_mode, RoutingMode::Router) {
                return Step::Reject {
                    reason: DropReason::NotARelay { to },
                    kind: prohibited_kind(data),
                };
            }
            return Step::Drop(DropReason::NotARelay { to });
        }
        let hop: NodeId = self.next_hop(to);
        let options: u32 = match self.route_of(to) {
            None => 0,
            Some(route) => route.options,
        };
        if from == Some(hop) {
            return Step::Drop(DropReason::RoutingLoop);
        }
        if self.settings.directonly && hop != to {
            return Step::EmitIcmp(prohibited_kind(data));
        }
        let hop_mtu: u16 = self.tunnel_mtu(hop);
        if hop != self.myself && hop_mtu != 0 {
            let ipv4: bool = ethertype(data) == ETH_P_IP;
            let floor: u16 = if ipv4 {
                FLOOR_V4
            } else {
                FLOOR_V6
            };
            let limit: u16 = if hop_mtu >= floor {
                hop_mtu
            } else {
                floor
            };
            if longer_than(data.len(), limit) {
                if !ipv4 {
                    return Step::EmitIcmp(IcmpKind::TooBigV6 { mtu: packet_mtu_wide(limit) });
                }
                if data[20] & 0x40 != 0 {
                    return Step::EmitIcmp(IcmpKind::FragNeeded { mtu: limit - ETHER_LEN });
                }
                return Step::Fragment { to, limit };
            }
        }
        proof {
            assert(0u32 & OPTION_CLAMP_MSS == 0) by (bit_vector);
        }
        if options & OPTION_CLAMP_MSS != 0 {
            let mtu: u16 = if hop_mtu <= MTU {
                hop_mtu
            } else {
                MTU
            };
            return Step::Clamp { to, mtu };
        }
        self.forward_after_clamp(to, from)
    }

    /// What becomes of a packet whose destination was looked up.
    pub open spec fn result_step(
        &self,
        result: RouteResult,
        data: Seq<u8>,
        from: Option<NodeId>,
    ) -> Step {
        match result {
            RouteResult::Forward { to } => if to == self.myself {
                Step::DeliverLocal
            } else {
                self.forward_step(to, data, from)
            },
            RouteResult::Unreachable { icmp_type, icmp_code } => Step::EmitIcmp(
                IcmpKind::Unreach { t: icmp_type, c: icmp_code, discover_src: false },
            ),
            RouteResult::NeighborSolicit => Step::HandleNdp,
            RouteResult::Unsupported { reason } => Step::Drop(DropReason::Unsupported { reason }),
            RouteResult::Broadcast => if self.settings.decrement_ttl && from is Some {
                Step::LowerBroadcastTtl
            } else {
                Step::Broadcast
            },
            RouteResult::TooShort { need, have } => Step::Drop(DropReason::TooShort { need, have }),
        }
    }

    /// Decides about a packet whose destination was looked up.
    pub fn dispatch_route_result(
        &self,
        result: RouteResult,
        data: &[u8],
        from: Option<NodeId>,
    ) -> (r: Step)
        requires
            self.header_suffices(result, data@, from),
        ensures
            r == self.result_step(result, data@, from),
    {
        match result {
            RouteResult::Forward { to } => if to == self.myself {
                Step::DeliverLocal
            } else {
                self.dispatch_forward(to, data, from)
            },
            RouteResult::Unreachable { icmp_type, icmp_code } => Step::EmitIcmp(
                IcmpKind::Unreach { t: icmp_type, c: icmp_code, discover_src: false },
            ),
            RouteResult::NeighborSolicit => Step::HandleNdp,
            RouteResult::Unsupported { reason } => Step::Drop(DropReason::Unsupported { reason }),
            RouteResult::Broadcast => if self.settings.decrement_ttl && from.is_some() {
                Step::LowerBroadcastTtl
            } else {
                Step::Broadcast
            },
            RouteResult::TooShort { need, have } => Step::Drop(DropReason::TooShort { need, have }),
        }
    }

    /// What to do with a packet once watchers have seen it. `from`: the peer
    /// it came from; `None` for one from the device.
    pub open spec fn after_copies(&self, data: Seq<u8>, from: Option<NodeId>) -> Step {
        if self.settings.forwarding_mode is Kernel && from is Some {
            Step::DeliverLocal
        } else {
            match self.settings.routing_mode {
                RoutingMode::Switch => Step::RouteMac,
                RoutingMode::Hub => self.result_step(RouteResult::Broadcast, data, from),
                RoutingMode::Router => if is_arp(data) {
                    Step::HandleArp
                } else if from is None && self.dns is Some {
                    Step::InterceptDns
                } else {
                    Step::RouteIp
                },
            }
        }
    }

    fn forward_after_copies(&self, data: &[u8], from: Option<NodeId>) -> (r: Step)
        ensures
            r == self.after_copies(data@, from),
    {
        if matches!(self.settings.forwarding_mode, ForwardingMode::Kernel) && from.is_some() {
            return Step::DeliverLocal;
        }
        match self.settings.routing_mode {
            RoutingMode::Switch => Step::RouteMac,
            RoutingMode::Hub => self.dispatch_route_result(RouteResult::Broadcast, data, from),
            RoutingMode::Router => if is_arp_frame(data) {
                Step::HandleArp
            } else if from.is_none() && self.dns.is_some() {
                Step::InterceptDns
            } else {
                Step::RouteIp
            },
        }
    }

    /// The first step with a packet: copies for those who may be watching.
    pub open spec fn first_step(&self, data: Seq<u8>, from: Option<NodeId>) -> Step {
        if self.any_pcap {
            Step::CopyToWatchers
        } else {
            self.after_copies(data, from)
        }
    }

    /// Takes a packet in. Watchers see every packet, before anything is
    /// decided about it. When the kernel does the forwarding, all that peers
    /// send goes to the device as it is. A router answers ARP itself, and
    /// answers DNS queries from the device if told to.
    pub fn forward_packet(&self, data: &[u8], from: Option<NodeId>) -> (r: Step)
        ensures
            r == self.first_step(data@, from),
    {
        if self.any_pcap {
            Step::CopyToWatchers
        } else {
            self.forward_after_copies(data, from)
        }
    }

    /// The step that follows from what came of the last one.
    pub open spec fn step_after(
        &self,
        event: ForwardEvent,
        data: Seq<u8>,
        from: Option<NodeId>,
    ) -> Step {
        match event {
            ForwardEvent::Copied => self.after_copies(data, from),
            ForwardEvent::DnsTried { hit } => if hit {
                Step::Done
            } else {
                Step::RouteIp
            },
            ForwardEvent::Routed(result) => self.result_step(result, data, from),
            ForwardEvent::MacRouted { result, learn } => Step::Learn { learn, result },
            ForwardEvent::Learned { result } => self.result_step(result, data, from),
            ForwardEvent::Clamped { to } => self.after_clamp(to, from),
            ForwardEvent::TtlLowered { to, ttl } => after_forward_ttl(to, ttl),
            ForwardEvent::BroadcastTtlLowered(ttl) => after_broadcast_ttl(ttl),
        }
    }

    /// A packet with that destination can be decided about: its Ethernet
    /// header is whole, where the ethertype is looked at.
    pub open spec fn header_suffices(
        &self,
        result: RouteResult,
        data: Seq<u8>,
        from: Option<NodeId>,
    ) -> bool {
        result matches RouteResult::Forward { to } ==> to == self.myself || !self.reads_ethertype(
            to,
            from,
        ) || data.len() >= ETHER_LEN
    }

    /// The step that follows from what came of the last one. A packet that is
    /// no query is looked up; one that was looked up by its Ethernet addresses
    /// is learned from, and then goes its way in any case; one that is to be
    /// sent is clamped first, then loses time to live, then leaves.
    pub fn next_step(&self, event: ForwardEvent, data: &[u8], from: Option<NodeId>) -> (r: Step)
        requires
            event matches ForwardEvent::Routed(result) ==> self.header_suffices(
                result,
                data@,
                from,
            ),
            event matches ForwardEvent::Learned { result } ==> self.header_suffices(
                result,
                data@,
                from,
            ),
        ensures
            r == self.step_after(event, data@, from),
    {
        match event {
            ForwardEvent::Copied => self.forward_after_copies(data, from),
            ForwardEvent::DnsTried { hit } => if hit {
                Step::Done
            } else {
                Step::RouteIp
            },
            ForwardEvent::Routed(result) => self.dispatch_route_result(result, data, from),
            ForwardEvent::MacRouted { result, learn } => Step::Learn { learn, result },
            ForwardEvent::Learned { result } => self.dispatch_route_result(result, data, from),
            ForwardEvent::Clamped { to } => self.forward_after_clamp(to, from),
            ForwardEvent::TtlLowered { to, ttl } => forward_after_ttl(to, ttl),
            ForwardEvent::BroadcastTtlLowered(ttl) => broadcast_after_ttl(ttl),
        }
    }

    /// The type of service for a packet under way: the packet's own if it is
    /// to be inherited and has one.
    pub open spec fn priority_for(&self, tos: Option<u8>) -> u8 {
        if self.settings.priorityinheritance && tos is Some {
            tos->Some_0
        } else {
            0
        }
    }

    /// What sending a packet of `len` bytes takes.
    pub open spec fn forward_actions(to: NodeId, len: usize) -> Seq<TxAction> {
        seq![
            TxAction::CountOut { to, bytes: len },
            TxAction::TryTx { to },
            TxAction::SendPacket { to },
        ]
    }

    /// Sends a packet of `len` bytes to `to`, whose type of service is `tos`:
    /// it is counted, then discovery is driven, which may change the
    /// transport, then it is sent.
    pub fn send_forward(&mut self, to: NodeId, len: usize, tos: Option<u8>) -> (r: Vec<TxAction>)
        ensures
            *final(self) == (Daemon { tx_priority: old(self).priority_for(tos), ..*old(self) }),
            r@ == Daemon::forward_actions(to, len),
    {
        self.tx_priority = if self.settings.priorityinheritance {
            match tos {
                Some(value) => value,
                None => 0,
            }
        } else {
            0
        };
        let mut out: Vec<TxAction> = Vec::new();
        out.push(TxAction::CountOut { to, bytes: len });
        out.push(TxAction::TryTx { to });
        out.push(TxAction::SendPacket { to });
        out
    }
}

} // verus!
