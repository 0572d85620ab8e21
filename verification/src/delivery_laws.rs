//! Where packets go, in terms of the settings, the tables and the packet.
use crate::daemon::{Daemon, DnsConfig, NodeId, Route};
use crate::dns::{DnsEvent, DnsStep};
use crate::mac::LearnAction;
use crate::route::{DropReason, ForwardEvent, IcmpKind, RouteResult, Step, TtlResult, TxAction};
use vstd::prelude::*;

verus! {

/// Packets for `to` go by `h`: the node that its route reaches by UDP, unless
/// that is this one; then the first on the way. Without a route, `to` itself.
pub open spec fn goes_by(d: &Daemon, to: NodeId, h: NodeId) -> bool {
    if to.0 < d.last_routes@.len() && d.last_routes@[to.0 as int] is Some {
        let route = d.last_routes@[to.0 as int]->Some_0;
        &&& route.via != d.myself ==> h == route.via
        &&& route.via == d.myself ==> h == route.nexthop
    } else {
        h == to
    }
}

/// The tunnel to `h` carries frames of `m` bytes: as measured, or the link
/// ceiling where there is no tunnel yet.
pub open spec fn carries(d: &Daemon, h: NodeId, m: u16) -> bool {
    if d.tunnel_mtus@.contains_key(h.0) {
        m == d.tunnel_mtus@[h.0]
    } else {
        m == 1518
    }
}

/// This node takes it on itself to send a packet for `to` by `h`: it does not
/// go back, and this node is a relay or its source.
pub open spec fn taken_on(d: &Daemon, to: NodeId, from: Option<NodeId>, h: NodeId) -> bool {
    &&& from != Some(to)
    &&& from is None || !(d.settings.forwarding_mode is Off)
    &&& from != Some(h)
}

/// The frame is IPv4.
pub open spec fn is_ipv4(data: Seq<u8>) -> bool {
    data[12] == 8 && data[13] == 0
}

/// The ICMP error that says that a packet is not let through: type 3 code 9
/// for IPv4, type 1 code 1 for IPv6.
pub open spec fn says_prohibited(kind: IcmpKind, data: Seq<u8>) -> bool {
    if is_ipv4(data) {
        kind == (IcmpKind::Unreach { t: 3, c: 9, discover_src: false })
    } else {
        kind == (IcmpKind::Unreach { t: 1, c: 1, discover_src: false })
    }
}

/// For a node with a route whose `via` is not this node, everything goes by
/// `via`; only where `via` is this node does it go by `nexthop`.
pub proof fn law_packets_go_by_via(d: &Daemon, to: NodeId, route: Route)
    requires
        to.0 < d.last_routes@.len(),
        d.last_routes@[to.0 as int] == Some(route),
    ensures
        route.via != d.myself ==> d.hop(to) == route.via,
        route.via == d.myself ==> d.hop(to) == route.nexthop,
{
}

/// A packet is dropped as looping exactly if it came from its destination or
/// from the node that it would go by; a node that refuses to relay says so
/// first.
pub proof fn law_loops_are_cut(
    d: &Daemon,
    to: NodeId,
    data: Seq<u8>,
    from: Option<NodeId>,
    h: NodeId,
)
    requires
        goes_by(d, to, h),
    ensures
        d.forward_step(to, data, from) == Step::Drop(DropReason::LoopsBack { to }) <==> from
            == Some(to),
        d.forward_step(to, data, from) == Step::Drop(DropReason::RoutingLoop) <==> from == Some(h)
            && from != Some(to) && !(d.settings.forwarding_mode is Off),
{
}

/// A node with forwarding off passes nothing on from one peer to another. As a
/// router it tells the sender that this is prohibited; otherwise it does not.
/// With forwarding on, or for packets of its own, it never refuses like that.
pub proof fn law_endpoints_refuse_transit(
    d: &Daemon,
    to: NodeId,
    data: Seq<u8>,
    from: Option<NodeId>,
)
    ensures
        ({
            let step = d.forward_step(to, data, from);
            let refuses = d.settings.forwarding_mode is Off && from is Some && from != Some(to);
            &&& refuses && d.settings.routing_mode is Router ==> {
                step matches Step::Reject { reason, kind } && reason == (DropReason::NotARelay {
                    to,
                }) && says_prohibited(kind, data)
            }
            &&& refuses && !(d.settings.routing_mode is Router) ==> step == Step::Drop(
                DropReason::NotARelay { to },
            )
            &&& !refuses ==> !(step is Reject) && step != Step::Drop(DropReason::NotARelay { to })
        }),
{
}

/// With `directonly`, a packet that would go by another node than its
/// destination is refused as prohibited; one that goes straight there is not,
/// and without `directonly` none is.
pub proof fn law_detours_are_refused(
    d: &Daemon,
    to: NodeId,
    data: Seq<u8>,
    from: Option<NodeId>,
    h: NodeId,
)
    requires
        goes_by(d, to, h),
        taken_on(d, to, from, h),
    ensures
        d.settings.directonly && h != to ==> (d.forward_step(to, data, from) matches Step::EmitIcmp(
            kind,
        ) && says_prohibited(kind, data)),
        !d.settings.directonly || h == to ==> !(d.forward_step(to, data, from) matches
            Step::EmitIcmp(kind) && kind is Unreach),
{
}

/// A frame that is longer than the tunnel it goes by carries, and longer than
/// 590 bytes for IPv4 or 1294 for IPv6, is not sent as it is: IPv6, and IPv4
/// that is not to be split, is reported with what would fit; other IPv4 is
/// split. No other frame is, nor one whose tunnel is not measured.
pub proof fn law_long_frames_are_split_or_reported(
    d: &Daemon,
    to: NodeId,
    data: Seq<u8>,
    from: Option<NodeId>,
    h: NodeId,
    m: u16,
)
    requires
        goes_by(d, to, h),
        carries(d, h, m),
        taken_on(d, to, from, h),
        !d.settings.directonly || h == to,
    ensures
        ({
            let step = d.forward_step(to, data, from);
            let limit: u16 = if is_ipv4(data) {
                if m < 590 {
                    590
                } else {
                    m
                }
            } else {
                if m < 1294 {
                    1294
                } else {
                    m
                }
            };
            let long = h != d.myself && m != 0 && data.len() > limit;
            let whole = (data[20] / 64) % 2 == 1;
            &&& long && !is_ipv4(data) ==> (step matches Step::EmitIcmp(IcmpKind::TooBigV6 { mtu })
                && mtu + 14 == limit)
            &&& long && is_ipv4(data) && whole ==> (step matches Step::EmitIcmp(
                IcmpKind::FragNeeded { mtu },
            ) && mtu + 14 == limit)
            &&& long && is_ipv4(data) && !whole ==> step == (Step::Fragment { to, limit })
            &&& !long ==> step is Clamp || step is LowerTtl || step is Transmit
        }),
{
    let flags: u8 = data[20];
    assert(flags & 0x40 != 0 <==> (flags / 64) % 2 == 1) by (bit_vector);
}

/// A packet that is sent whole leaves for its own destination. It is clamped
/// exactly if its route has the option bit for that, to what the tunnel that
/// it goes by carries, and never to more than the link does. It loses time to
/// live exactly if the settings say so and it is another's.
pub proof fn law_whole_packets_are_clamped_and_aged(
    d: &Daemon,
    to: NodeId,
    data: Seq<u8>,
    from: Option<NodeId>,
    h: NodeId,
    m: u16,
)
    requires
        goes_by(d, to, h),
        carries(d, h, m),
    ensures
        ({
            let step = d.forward_step(to, data, from);
            let routed = to.0 < d.last_routes@.len() && d.last_routes@[to.0 as int] is Some;
            let clamps = routed && (d.last_routes@[to.0 as int]->Some_0.options / 8) % 2 == 1;
            let ages = d.settings.decrement_ttl && from is Some;
            let whole = step is Clamp || step is LowerTtl || step is Transmit;
            &&& whole && clamps ==> step == (Step::Clamp {
                to,
                mtu: if m < 1518 {
                    m
                } else {
                    1518
                },
            })
            &&& whole && !clamps && ages ==> step == (Step::LowerTtl { to })
            &&& whole && !clamps && !ages ==> step == (Step::Transmit { to })
            &&& d.step_after(ForwardEvent::Clamped { to }, data, from) == (if ages {
                Step::LowerTtl { to }
            } else {
                Step::Transmit { to }
            })
        }),
{
    if to.0 < d.last_routes@.len() && d.last_routes@[to.0 as int] is Some {
        let options: u32 = d.last_routes@[to.0 as int]->Some_0.options;
        assert(options & 8 != 0 <==> (options / 8) % 2 == 1) by (bit_vector);
    }
    assert(0u32 & 8 == 0) by (bit_vector);
}

/// Where nothing needs the ethertype, the decision is the same for every
/// packet, however short.
pub proof fn law_decisions_without_a_header(
    d: &Daemon,
    to: NodeId,
    a: Seq<u8>,
    b: Seq<u8>,
    from: Option<NodeId>,
)
    requires
        !d.reads_ethertype(to, from),
    ensures
        d.forward_step(to, a, from) == d.forward_step(to, b, from),
{
}

/// Where the ethertype is needed, it makes a difference: there are two frames
/// of the same length about which the decisions differ.
pub proof fn law_headers_are_needed_for_a_reason(
    d: &Daemon,
    to: NodeId,
    from: Option<NodeId>,
)
    requires
        d.reads_ethertype(to, from),
    ensures
        exists|a: Seq<u8>, b: Seq<u8>|
            a.len() == b.len() && #[trigger] d.forward_step(to, a, from) != #[trigger] d.forward_step(
                to,
                b,
                from,
            ),
{
    let a = Seq::new(65536, |i: int| 0u8);
    let b = Seq::new(
        65536,
        |i: int|
            if i == 12 {
                8u8
            } else {
                0u8
            },
    );
    assert(0u8 & 0x40 == 0) by (bit_vector);
    assert(d.forward_step(to, a, from) != d.forward_step(to, b, from));
}

/// A whole Ethernet header always suffices to decide, and none is needed for
/// what is not forwarded to a peer.
pub proof fn law_whole_headers_suffice(
    d: &Daemon,
    result: RouteResult,
    data: Seq<u8>,
    from: Option<NodeId>,
)
    ensures
        data.len() >= 14 ==> d.header_suffices(result, data, from),
        !(result is Forward) ==> d.header_suffices(result, data, from),
        result == (RouteResult::Forward { to: d.myself }) ==> d.header_suffices(result, data, from),
        result matches RouteResult::Forward { to } ==> (!d.reads_ethertype(to, from)
            ==> d.header_suffices(result, data, from)),
{
}

/// An ethertype is two bytes, the first the higher one.
pub proof fn law_ethertypes_are_two_bytes(data: Seq<u8>)
    ensures
        crate::route::ethertype_of(data) / 256 == data[12],
        crate::route::ethertype_of(data) % 256 == data[13],
{
}

/// A packet that could be split is counted and sent piece by piece, every
/// piece once; one that could not be is not sent at all.
pub proof fn law_split_packets_are_sent_in_pieces(to: NodeId, lens: Seq<usize>)
    requires
        lens.len() <= usize::MAX,
    ensures
        crate::route::split_actions(to, None).len() == 0,
        ({
            let actions = crate::route::split_actions(to, Some(lens));
            &&& actions.len() == 2 * lens.len() + 1
            &&& actions[lens.len() as int] == (TxAction::TryTx { to })
            &&& forall|i: int|
                0 <= i < lens.len() ==> actions[i] == (TxAction::CountOut {
                    to,
                    bytes: #[trigger] lens[i],
                })
            &&& forall|i: int|
                #![trigger lens[i]]
                0 <= i < lens.len() ==> actions[lens.len() + 1 + i] == (TxAction::SendFragment {
                    to,
                    index: i as usize,
                })
        }),
{
    crate::route_laws::law_fragments_are_counted_then_sent(to, lens);
}

/// What a lookup found decides what becomes of the packet: this node's own
/// mail is delivered, a peer's is sent on, what has no reachable owner is
/// reported with the type and code that the lookup gave, solicitations are
/// answered, broadcasts are spread, and the rest is dropped with its reason.
pub proof fn law_lookups_decide(
    d: &Daemon,
    to: NodeId,
    t: u8,
    c: u8,
    reason: &'static str,
    need: usize,
    have: usize,
    data: Seq<u8>,
    from: Option<NodeId>,
)
    ensures
        d.result_step(RouteResult::Forward { to: d.myself }, data, from) == Step::DeliverLocal,
        to != d.myself ==> d.result_step(RouteResult::Forward { to }, data, from) == d.forward_step(
            to,
            data,
            from,
        ),
        d.result_step(RouteResult::Unreachable { icmp_type: t, icmp_code: c }, data, from)
            == Step::EmitIcmp(IcmpKind::Unreach { t, c, discover_src: false }),
        d.result_step(RouteResult::NeighborSolicit, data, from) == Step::HandleNdp,
        d.result_step(RouteResult::Unsupported { reason }, data, from) == Step::Drop(
            DropReason::Unsupported { reason },
        ),
        d.result_step(RouteResult::TooShort { need, have }, data, from) == Step::Drop(
            DropReason::TooShort { need, have },
        ),
        from is Some && d.settings.decrement_ttl ==> d.result_step(
            RouteResult::Broadcast,
            data,
            from,
        ) == Step::LowerBroadcastTtl,
        from is None || !d.settings.decrement_ttl ==> d.result_step(
            RouteResult::Broadcast,
            data,
            from,
        ) == Step::Broadcast,
{
}

/// A packet that comes in is copied first if somebody may be watching. Then:
/// with a forwarding kernel, what peers send goes to the device; else a switch
/// looks up Ethernet addresses and a hub spreads everything; a router answers
/// ARP, takes packets from the device for queries where DNS is on, and looks
/// up the rest.
pub proof fn law_incoming_packets(d: &Daemon, data: Seq<u8>, from: Option<NodeId>)
    ensures
        ({
            let first = d.first_step(data, from);
            let step = d.step_after(ForwardEvent::Copied, data, from);
            let kernel = d.settings.forwarding_mode is Kernel && from is Some;
            let arp = data.len() >= 14 && data[12] == 8 && data[13] == 6;
            let router = !kernel && d.settings.routing_mode is Router;
            &&& d.any_pcap ==> first == Step::CopyToWatchers
            &&& !d.any_pcap ==> first == step
            &&& kernel ==> step == Step::DeliverLocal
            &&& !kernel && d.settings.routing_mode is Switch ==> step == Step::RouteMac
            &&& !kernel && d.settings.routing_mode is Hub ==> step == (if from is Some
                && d.settings.decrement_ttl {
                Step::LowerBroadcastTtl
            } else {
                Step::Broadcast
            })
            &&& router && arp ==> step == Step::HandleArp
            &&& router && !arp && from is None && d.dns is Some ==> step == Step::InterceptDns
            &&& router && !arp && (from is Some || d.dns is None) ==> step == Step::RouteIp
        }),
{
}

/// What follows from the outcome of a step: a query that was answered here
/// ends here, a miss is looked up; a looked-up frame is learned from; and an
/// expired packet ends with a word to its sender where one is due, an expired
/// broadcast without.
pub proof fn law_outcomes_lead_on(
    d: &Daemon,
    to: NodeId,
    result: RouteResult,
    learn: LearnAction,
    t: u8,
    c: u8,
    data: Seq<u8>,
    from: Option<NodeId>,
)
    ensures
        d.step_after(ForwardEvent::DnsTried { hit: true }, data, from) == Step::Done,
        d.step_after(ForwardEvent::DnsTried { hit: false }, data, from) == Step::RouteIp,
        d.step_after(ForwardEvent::Routed(result), data, from) == d.result_step(result, data, from),
        d.step_after(ForwardEvent::MacRouted { result, learn }, data, from) == (Step::Learn {
            learn,
            result,
        }),
        d.step_after(ForwardEvent::Learned { result }, data, from) == d.result_step(
            result,
            data,
            from,
        ),
        d.step_after(ForwardEvent::TtlLowered { to, ttl: TtlResult::Decremented }, data, from) == (
        Step::Transmit { to }),
        d.step_after(ForwardEvent::TtlLowered { to, ttl: TtlResult::TooShort }, data, from)
            == Step::Drop(DropReason::TtlExpired),
        d.step_after(ForwardEvent::TtlLowered { to, ttl: TtlResult::DropSilent }, data, from)
            == Step::Drop(DropReason::TtlExpired),
        d.step_after(
            ForwardEvent::TtlLowered {
                to,
                ttl: TtlResult::SendIcmp { icmp_type: t, icmp_code: c },
            },
            data,
            from,
        ) == Step::EmitIcmp(IcmpKind::Unreach { t, c, discover_src: true }),
        d.step_after(ForwardEvent::BroadcastTtlLowered(TtlResult::Decremented), data, from)
            == Step::Broadcast,
        d.step_after(ForwardEvent::BroadcastTtlLowered(TtlResult::TooShort), data, from)
            == Step::Broadcast,
        d.step_after(ForwardEvent::BroadcastTtlLowered(TtlResult::DropSilent), data, from)
            == Step::Drop(DropReason::TtlExpired),
        d.step_after(
            ForwardEvent::BroadcastTtlLowered(TtlResult::SendIcmp { icmp_type: t, icmp_code: c }),
            data,
            from,
        ) == Step::Drop(DropReason::TtlExpired),
{
}

/// A packet is counted with its length, then discovery is driven, then it is
/// sent: each once, and all for the same node.
pub proof fn law_sent_packets_are_counted(to: NodeId, len: usize)
    ensures
        ({
            let actions = Daemon::forward_actions(to, len);
            &&& actions.len() == 3
            &&& actions[0] == (TxAction::CountOut { to, bytes: len })
            &&& actions[1] == (TxAction::TryTx { to })
            &&& actions[2] == (TxAction::SendPacket { to })
        }),
{
}

/// The type of service is a packet's own exactly if it is to be inherited and
/// the packet has one; otherwise it is zero, whatever the packet before had.
pub proof fn law_priority_is_inherited(d: &Daemon, value: u8)
    ensures
        d.settings.priorityinheritance ==> d.priority_for(Some(value)) == value,
        !d.settings.priorityinheritance ==> d.priority_for(Some(value)) == 0,
        d.priority_for(None) == 0,
{
}

/// A packet is held against the configured addresses themselves, IPv4 first;
/// what matches is answered, and a missed IPv4 address leaves the IPv6 one to
/// try. Answers come from the address that was asked.
pub proof fn law_queries_are_matched_in_order(config: DnsConfig, v4: u32, v6: u128)
    ensures
        config.dns_addr4 == Some(v4) ==> {
            &&& crate::dns::dns_step(config, DnsEvent::Start) == DnsStep::MatchV4(v4)
            &&& crate::dns::dns_step(config, DnsEvent::AnsweredV4(true)) == DnsStep::WriteV4(v4)
        },
        config.dns_addr6 == Some(v6) ==> {
            &&& config.dns_addr4 is None ==> crate::dns::dns_step(config, DnsEvent::Start)
                == DnsStep::MatchV6(v6)
            &&& crate::dns::dns_step(config, DnsEvent::MatchedV4(false)) == DnsStep::MatchV6(v6)
            &&& crate::dns::dns_step(config, DnsEvent::AnsweredV6(true)) == DnsStep::WriteV6(v6)
        },
        config.dns_addr6 is None ==> {
            &&& config.dns_addr4 is None ==> crate::dns::dns_step(config, DnsEvent::Start)
                == DnsStep::Pass
            &&& crate::dns::dns_step(config, DnsEvent::MatchedV4(false)) == DnsStep::Pass
        },
        crate::dns::dns_step(config, DnsEvent::MatchedV4(true)) == DnsStep::AnswerV4,
        crate::dns::dns_step(config, DnsEvent::MatchedV6(true)) == DnsStep::AnswerV6,
        crate::dns::dns_step(config, DnsEvent::MatchedV6(false)) == DnsStep::Pass,
        crate::dns::dns_step(config, DnsEvent::AnsweredV4(false)) == DnsStep::Swallow,
        crate::dns::dns_step(config, DnsEvent::AnsweredV6(false)) == DnsStep::Swallow,
{
}

/// A packet is done with here exactly if its answer was written or it was
/// swallowed.
pub proof fn law_hits_end_here(step: DnsStep)
    ensures
        crate::dns::intercepted(step) <==> step is WriteV4 || step is WriteV6 || step is Swallow,
{
}

} // verus!
