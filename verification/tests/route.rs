//! What becomes of packets.
use std::collections::HashMap;
use tincd::broadcast::{
    send_broadcast, ActiveConn, BroadcastEvent, BroadcastStep, ReachedNode,
};
use tincd::clock::Instant;
use tincd::daemon::{
    BroadcastMode, Conn, ConnId, Daemon, DnsConfig, EdgeId, ForwardingMode, GraphNode, NamedNode,
    NodeId, NodeState, Route, RoutingMode, Settings,
};
use tincd::dns::{dns_hit, DnsEvent, DnsStep};
use tincd::mac::{mac_key, LearnAction, MacAction, MAX_MAC_LEASES};
use tincd::pcap::{pcap_header, PcapSend, PCAP_IDLE_NANOS};
use tincd::pmtu::MTU;
use tincd::route::{
    broadcast_after_ttl, ethertype, forward_after_ttl, send_fragments, DropReason, ForwardEvent,
    IcmpKind, RouteResult, Step, TtlResult, TxAction,
};

const ME: NodeId = NodeId(0);
const BOB: NodeId = NodeId(1);
const CAROL: NodeId = NodeId(2);
const DAVE: NodeId = NodeId(3);

const NOW: Instant = Instant { nanos: 1_000 };

fn node(name: &str, reachable: bool) -> Option<GraphNode> {
    Some(GraphNode { name: name.to_owned(), reachable })
}

fn named(name: &str, id: NodeId) -> NamedNode {
    NamedNode { name: name.to_owned(), id }
}

fn conn(id: u64, name: &str, active: bool) -> Conn {
    Conn {
        id: ConnId(id),
        name: name.to_owned(),
        active,
        pcap: false,
        pcap_snaplen: 0,
        last_ping_time: NOW,
    }
}

/// A node with two neighbours, Bob and Carol; Dave is behind Carol.
fn daemon() -> Daemon {
    let direct = |id| Some(Route { via: id, nexthop: id, options: 0 });
    let mut nodes = HashMap::new();
    nodes.insert(1, NodeState { conn: Some(ConnId(10)), edge: Some(EdgeId(5)) });
    nodes.insert(2, NodeState { conn: Some(ConnId(20)), edge: Some(EdgeId(6)) });
    nodes.insert(3, NodeState { conn: None, edge: None });
    Daemon {
        name: "alice".to_owned(),
        myself: ME,
        settings: Settings {
            forwarding_mode: ForwardingMode::Internal,
            routing_mode: RoutingMode::Router,
            broadcast_mode: BroadcastMode::Mst,
            tunnelserver: false,
            directonly: false,
            decrement_ttl: false,
            priorityinheritance: false,
        },
        any_pcap: false,
        conns: vec![conn(10, "bob", true), conn(20, "carol", true), conn(30, "eve", true)],
        node_ids: vec![
            named("alice", ME),
            named("bob", BOB),
            named("carol", CAROL),
            named("dave", DAVE),
        ],
        graph: vec![node("alice", true), node("bob", true), node("carol", false), None],
        nodes,
        last_routes: vec![
            direct(ME),
            direct(BOB),
            direct(CAROL),
            Some(Route { via: ME, nexthop: CAROL, options: 0 }),
        ],
        tunnel_mtus: HashMap::new(),
        mac_table: HashMap::new(),
        mac_cap_warned: false,
        age_timer_armed: false,
        dns: None,
        tx_priority: 7,
    }
}

/// An Ethernet frame.
fn frame(ethertype: u16, len: usize) -> Vec<u8> {
    let mut data = vec![0u8; len];
    data[12..14].copy_from_slice(&ethertype.to_be_bytes());
    data
}

fn v4(len: usize) -> Vec<u8> {
    frame(0x0800, len)
}

fn v6(len: usize) -> Vec<u8> {
    frame(0x86dd, len)
}

fn sent(to: NodeId) -> Step {
    Step::Transmit { to }
}

fn prohibited(t: u8, c: u8) -> Step {
    Step::EmitIcmp(IcmpKind::Unreach { t, c, discover_src: false })
}

#[test]
fn ethertypes_are_big_endian() {
    assert_eq!(ethertype(&v6(14)), 0x86dd);
    assert_eq!(ethertype(&v4(14)), 0x0800);
}

// forward_packet

#[test]
fn router_looks_up_the_destination() {
    let d = daemon();
    assert_eq!(d.forward_packet(&v4(60), None), Step::RouteIp);
    assert_eq!(d.forward_packet(&v4(60), Some(BOB)), Step::RouteIp);
    // Too short to tell.
    assert_eq!(d.forward_packet(&[8, 6], None), Step::RouteIp);
}

#[test]
fn router_answers_arp() {
    let mut d = daemon();
    d.dns = Some(DnsConfig { dns_addr4: Some(1), dns_addr6: None });
    assert_eq!(d.forward_packet(&frame(0x0806, 42), None), Step::HandleArp);
    d.settings.routing_mode = RoutingMode::Switch;
    assert_eq!(d.forward_packet(&frame(0x0806, 42), None), Step::RouteMac);
}

#[test]
fn queries_are_taken_from_the_device_only() {
    let mut d = daemon();
    d.dns = Some(DnsConfig { dns_addr4: Some(1), dns_addr6: None });
    assert_eq!(d.forward_packet(&v4(60), None), Step::InterceptDns);
    assert_eq!(d.forward_packet(&v4(60), Some(BOB)), Step::RouteIp);
}

#[test]
fn kernel_gets_what_peers_send() {
    let mut d = daemon();
    d.settings.forwarding_mode = ForwardingMode::Kernel;
    assert_eq!(d.forward_packet(&[1, 2, 3], Some(BOB)), Step::DeliverLocal);
    assert_eq!(d.forward_packet(&v4(60), None), Step::RouteIp);
}

#[test]
fn hubs_broadcast() {
    let mut d = daemon();
    d.settings.routing_mode = RoutingMode::Hub;
    assert_eq!(d.forward_packet(&v4(60), Some(BOB)), Step::Broadcast);
    d.settings.decrement_ttl = true;
    assert_eq!(d.forward_packet(&v4(60), Some(BOB)), Step::LowerBroadcastTtl);
    assert_eq!(d.forward_packet(&v4(60), None), Step::Broadcast);
}

#[test]
fn watchers_see_everything_first() {
    let mut d = daemon();
    d.settings.forwarding_mode = ForwardingMode::Kernel;
    d.conns[1].pcap = true;
    d.conns[1].pcap_snaplen = 64;
    d.conns[2].pcap = true;
    // Nobody watches until the flag is up.
    assert_eq!(d.forward_packet(&v4(100), Some(BOB)), Step::DeliverLocal);

    d.any_pcap = true;
    assert_eq!(d.forward_packet(&v4(100), Some(BOB)), Step::CopyToWatchers);
    assert_eq!(
        d.send_pcap(NOW, 100),
        vec![PcapSend { conn: ConnId(20), len: 64 }, PcapSend { conn: ConnId(30), len: 100 }]
    );
    assert!(d.any_pcap);
    assert_eq!(d.conns[0].last_ping_time, NOW);
    assert_eq!(d.conns[1].last_ping_time, Instant { nanos: 1_000 + PCAP_IDLE_NANOS });
    let next = d.next_step(ForwardEvent::Copied, &v4(100), Some(BOB));
    assert_eq!(next, Step::DeliverLocal);

    d.conns.truncate(1);
    assert_eq!(d.forward_packet(&v4(100), Some(BOB)), Step::CopyToWatchers);
    assert!(d.send_pcap(NOW, 100).is_empty());
    assert_eq!(d.forward_packet(&v4(100), Some(BOB)), Step::DeliverLocal);
}

#[test]
fn copies_are_clipped_and_announced() {
    let mut d = daemon();
    d.conns[0].pcap = true;
    d.conns[0].pcap_snaplen = 100;
    assert_eq!(d.send_pcap(NOW, 99), vec![PcapSend { conn: ConnId(10), len: 99 }]);
    assert_eq!(d.send_pcap(NOW, 101), vec![PcapSend { conn: ConnId(10), len: 100 }]);
    assert_eq!(pcap_header(1514), b"18 14 1514");
    assert_eq!(pcap_header(0), b"18 14 0");
    for len in [9, 10, 99, 100, 65_535, usize::MAX] {
        assert_eq!(pcap_header(len), format!("18 14 {len}").into_bytes());
    }
}

#[test]
fn time_may_run_out_when_nobody_watches() {
    let mut d = daemon();
    d.any_pcap = true;
    let end = Instant { nanos: u128::MAX };
    assert!(d.send_pcap(end, 60).is_empty());
    assert!(!d.any_pcap);
}

// dispatch_route_result

#[test]
fn results_are_dispatched() {
    let d = daemon();
    let data = v4(60);
    let step = |result| d.dispatch_route_result(result, &data, None);
    assert_eq!(step(RouteResult::Forward { to: ME }), Step::DeliverLocal);
    assert_eq!(step(RouteResult::Forward { to: BOB }), sent(BOB));
    assert_eq!(
        step(RouteResult::Unreachable { icmp_type: 3, icmp_code: 6 }),
        prohibited(3, 6)
    );
    assert_eq!(step(RouteResult::NeighborSolicit), Step::HandleNdp);
    assert_eq!(
        step(RouteResult::Unsupported { reason: "arp" }),
        Step::Drop(DropReason::Unsupported { reason: "arp" })
    );
    assert_eq!(step(RouteResult::Broadcast), Step::Broadcast);
    assert_eq!(
        step(RouteResult::TooShort { need: 34, have: 20 }),
        Step::Drop(DropReason::TooShort { need: 34, have: 20 })
    );
}

#[test]
fn own_mail_is_delivered_by_an_endpoint_too() {
    let mut d = daemon();
    d.settings.forwarding_mode = ForwardingMode::Off;
    let step = d.dispatch_route_result(RouteResult::Forward { to: ME }, &v4(60), Some(BOB));
    assert_eq!(step, Step::DeliverLocal);
}

#[test]
fn expiry_of_broadcasts_is_silent() {
    let expired = Step::Drop(DropReason::TtlExpired);
    assert_eq!(broadcast_after_ttl(TtlResult::Decremented), Step::Broadcast);
    assert_eq!(broadcast_after_ttl(TtlResult::TooShort), Step::Broadcast);
    assert_eq!(broadcast_after_ttl(TtlResult::DropSilent), expired);
    let icmp = TtlResult::SendIcmp { icmp_type: 11, icmp_code: 0 };
    assert_eq!(broadcast_after_ttl(icmp), expired);
}

// dispatch_forward

#[test]
fn packets_do_not_loop_back() {
    let d = daemon();
    let data = v4(60);
    assert_eq!(
        d.dispatch_forward(BOB, &data, Some(BOB)),
        Step::Drop(DropReason::LoopsBack { to: BOB })
    );
    // The way to Dave is by Carol.
    assert_eq!(
        d.dispatch_forward(DAVE, &data, Some(CAROL)),
        Step::Drop(DropReason::RoutingLoop)
    );
    assert_eq!(d.dispatch_forward(DAVE, &data, Some(BOB)), sent(DAVE));
    // Neither looks into the packet.
    assert_eq!(
        d.dispatch_forward(BOB, &[], Some(BOB)),
        Step::Drop(DropReason::LoopsBack { to: BOB })
    );
}

#[test]
fn endpoints_do_not_relay() {
    let mut d = daemon();
    d.settings.forwarding_mode = ForwardingMode::Off;
    let refused = |t, c| Step::Reject {
        reason: DropReason::NotARelay { to: CAROL },
        kind: IcmpKind::Unreach { t, c, discover_src: false },
    };
    assert_eq!(d.dispatch_forward(CAROL, &v4(60), Some(BOB)), refused(3, 9));
    assert_eq!(d.dispatch_forward(CAROL, &v6(60), Some(BOB)), refused(1, 1));
    assert_eq!(d.dispatch_forward(CAROL, &v4(60), None), sent(CAROL));
    d.settings.routing_mode = RoutingMode::Switch;
    assert_eq!(
        d.dispatch_forward(CAROL, &[], Some(BOB)),
        Step::Drop(DropReason::NotARelay { to: CAROL })
    );
}

#[test]
fn headers_are_needed_where_the_ethertype_is_read() {
    let mut d = daemon();
    assert!(!d.needs_ethertype(BOB, Some(BOB)));
    assert!(!d.needs_ethertype(DAVE, Some(CAROL)));
    assert!(d.needs_ethertype(BOB, None));
    d.tunnel_mtus.insert(1, 0);
    assert!(!d.needs_ethertype(BOB, None));
    assert_eq!(d.dispatch_forward(BOB, &[], None), sent(BOB));
    d.settings.forwarding_mode = ForwardingMode::Off;
    assert!(d.needs_ethertype(BOB, Some(CAROL)));
    d.settings.routing_mode = RoutingMode::Switch;
    assert!(!d.needs_ethertype(BOB, Some(CAROL)));
}

#[test]
fn direct_only_refuses_detours() {
    let mut d = daemon();
    d.settings.directonly = true;
    assert_eq!(d.dispatch_forward(DAVE, &v4(60), None), prohibited(3, 9));
    assert_eq!(d.dispatch_forward(DAVE, &v6(60), Some(BOB)), prohibited(1, 1));
    assert_eq!(d.dispatch_forward(CAROL, &v4(60), None), sent(CAROL));
    // A node without a route is taken for a neighbour.
    d.last_routes[3] = None;
    assert_eq!(d.dispatch_forward(DAVE, &v4(60), None), sent(DAVE));
}

#[test]
fn long_packets_are_reported_or_split() {
    let mut d = daemon();
    d.tunnel_mtus.insert(2, 1400);
    let mut data = v4(1401);
    assert_eq!(d.dispatch_forward(DAVE, &data, None), Step::Fragment { to: DAVE, limit: 1400 });
    data[20] = 0x40;
    assert_eq!(
        d.dispatch_forward(DAVE, &data, None),
        Step::EmitIcmp(IcmpKind::FragNeeded { mtu: 1386 })
    );
    assert_eq!(
        d.dispatch_forward(DAVE, &v6(1401), None),
        Step::EmitIcmp(IcmpKind::TooBigV6 { mtu: 1386 })
    );
    assert_eq!(d.dispatch_forward(DAVE, &v4(1400), None), sent(DAVE));
}

#[test]
fn floors_keep_reports_reasonable() {
    let mut d = daemon();
    d.tunnel_mtus.insert(1, 500);
    assert_eq!(d.dispatch_forward(BOB, &v4(590), None), sent(BOB));
    assert_eq!(d.dispatch_forward(BOB, &v6(1294), None), sent(BOB));
    let mut data = v4(591);
    data[20] = 0x40;
    assert_eq!(
        d.dispatch_forward(BOB, &data, None),
        Step::EmitIcmp(IcmpKind::FragNeeded { mtu: 576 })
    );
    assert_eq!(
        d.dispatch_forward(BOB, &v6(1295), None),
        Step::EmitIcmp(IcmpKind::TooBigV6 { mtu: 1280 })
    );
}

#[test]
fn unmeasured_hops_take_everything() {
    let mut d = daemon();
    d.tunnel_mtus.insert(1, 0);
    assert_eq!(d.dispatch_forward(BOB, &v4(9000), None), sent(BOB));
    // A tunnel that is not there yet has the link's MTU.
    d.tunnel_mtus.clear();
    assert_eq!(d.dispatch_forward(BOB, &v4(1518), None), sent(BOB));
    assert_eq!(
        d.dispatch_forward(BOB, &v4(1519), None),
        Step::Fragment { to: BOB, limit: MTU }
    );
}

#[test]
fn segments_are_clamped_where_the_way_asks_for_it() {
    let mut d = daemon();
    d.last_routes[1] = Some(Route { via: BOB, nexthop: BOB, options: 8 | 1 });
    d.tunnel_mtus.insert(1, 1400);
    let clamped = |mtu| Step::Clamp { to: BOB, mtu };
    assert_eq!(d.dispatch_forward(BOB, &v4(60), None), clamped(1400));
    d.tunnel_mtus.insert(1, 9000);
    assert_eq!(d.dispatch_forward(BOB, &v4(60), None), clamped(MTU));
    d.last_routes[1] = Some(Route { via: BOB, nexthop: BOB, options: 7 });
    assert_eq!(d.dispatch_forward(BOB, &v4(60), None), sent(BOB));
}

#[test]
fn time_to_live_is_lowered_for_others() {
    let mut d = daemon();
    d.settings.decrement_ttl = true;
    assert_eq!(d.dispatch_forward(CAROL, &v4(60), None), sent(CAROL));
    assert_eq!(
        d.dispatch_forward(CAROL, &v4(60), Some(BOB)),
        Step::LowerTtl { to: CAROL }
    );
    let expired = Step::Drop(DropReason::TtlExpired);
    assert_eq!(forward_after_ttl(CAROL, TtlResult::Decremented), sent(CAROL));
    assert_eq!(forward_after_ttl(CAROL, TtlResult::TooShort), expired);
    assert_eq!(forward_after_ttl(CAROL, TtlResult::DropSilent), expired);
    assert_eq!(
        forward_after_ttl(CAROL, TtlResult::SendIcmp { icmp_type: 11, icmp_code: 0 }),
        Step::EmitIcmp(IcmpKind::Unreach { t: 11, c: 0, discover_src: true })
    );
}

#[test]
fn steps_follow_each_other() {
    let mut d = daemon();
    let data = v4(60);
    let next = |d: &Daemon, event| d.next_step(event, &data, Some(BOB));

    assert_eq!(next(&d, ForwardEvent::DnsTried { hit: true }), Step::Done);
    assert_eq!(next(&d, ForwardEvent::DnsTried { hit: false }), Step::RouteIp);
    let result = RouteResult::Forward { to: CAROL };
    assert_eq!(next(&d, ForwardEvent::Routed(result)), sent(CAROL));
    let learn = LearnAction::New(MAC);
    assert_eq!(
        next(&d, ForwardEvent::MacRouted { result, learn }),
        Step::Learn { learn, result }
    );
    assert_eq!(next(&d, ForwardEvent::Learned { result }), sent(CAROL));

    d.settings.decrement_ttl = true;
    d.last_routes[2] = Some(Route { via: CAROL, nexthop: CAROL, options: 8 });
    assert_eq!(
        next(&d, ForwardEvent::Routed(result)),
        Step::Clamp { to: CAROL, mtu: MTU }
    );
    assert_eq!(next(&d, ForwardEvent::Clamped { to: CAROL }), Step::LowerTtl { to: CAROL });
    let ttl = TtlResult::Decremented;
    assert_eq!(next(&d, ForwardEvent::TtlLowered { to: CAROL, ttl }), sent(CAROL));
    assert_eq!(next(&d, ForwardEvent::BroadcastTtlLowered(ttl)), Step::Broadcast);
    assert_eq!(
        next(&d, ForwardEvent::BroadcastTtlLowered(TtlResult::DropSilent)),
        Step::Drop(DropReason::TtlExpired)
    );
    assert_eq!(d.next_step(ForwardEvent::Clamped { to: CAROL }, &data, None), sent(CAROL));
}

#[test]
fn sending_counts_then_probes_then_sends() {
    let mut d = daemon();
    let actions = vec![
        TxAction::CountOut { to: BOB, bytes: 60 },
        TxAction::TryTx { to: BOB },
        TxAction::SendPacket { to: BOB },
    ];
    assert_eq!(d.send_forward(BOB, 60, Some(184)), actions);
    assert_eq!(d.tx_priority, 0);
    d.settings.priorityinheritance = true;
    assert_eq!(d.send_forward(BOB, 60, Some(184)), actions);
    assert_eq!(d.tx_priority, 184);
    assert_eq!(d.send_forward(BOB, 60, None), actions);
    assert_eq!(d.tx_priority, 0);
}

#[test]
fn fragments_are_counted_then_sent() {
    assert_eq!(
        send_fragments(BOB, Some(vec![590, 400])),
        vec![
            TxAction::CountOut { to: BOB, bytes: 590 },
            TxAction::CountOut { to: BOB, bytes: 400 },
            TxAction::TryTx { to: BOB },
            TxAction::SendFragment { to: BOB, index: 0 },
            TxAction::SendFragment { to: BOB, index: 1 },
        ]
    );
    assert!(send_fragments(BOB, None).is_empty());
}

// broadcasts

#[test]
fn tree_broadcasts_offer_the_active_edges() {
    let mut d = daemon();
    let both = vec![
        ActiveConn { conn: ConnId(10), edge: EdgeId(5) },
        ActiveConn { conn: ConnId(20), edge: EdgeId(6) },
    ];
    assert_eq!(
        d.broadcast_packet(BroadcastEvent::Start, 99, None),
        BroadcastStep::ChooseTree { active: both, from_conn: None }
    );
    d.conns[0].active = false;
    let carol = vec![ActiveConn { conn: ConnId(20), edge: EdgeId(6) }];
    // What comes from Dave comes by Carol.
    assert_eq!(d.broadcast_packet(BroadcastEvent::Start, 99, Some(DAVE)), BroadcastStep::Echo);
    assert_eq!(
        d.broadcast_packet(BroadcastEvent::Echoed, 99, Some(DAVE)),
        BroadcastStep::ChooseTree { active: carol, from_conn: Some(ConnId(20)) }
    );
}

#[test]
fn chosen_receivers_are_sent_to() {
    let d = daemon();
    let conns = BroadcastEvent::ChosenConns(vec![ConnId(20), ConnId(99)]);
    assert_eq!(
        d.broadcast_packet(conns, 99, Some(BOB)),
        BroadcastStep::Send(send_broadcast(&vec![CAROL], 99))
    );
    let nodes = BroadcastEvent::ChosenNodes(vec![DAVE, BOB]);
    assert_eq!(
        d.broadcast_packet(nodes, 99, None),
        BroadcastStep::Send(send_broadcast(&vec![DAVE, BOB], 99))
    );
}

#[test]
fn tree_targets_are_the_nodes_at_the_other_end() {
    let d = daemon();
    let chosen = vec![ConnId(20), ConnId(30), ConnId(99), ConnId(10)];
    assert_eq!(d.tree_targets(&chosen), vec![CAROL, BOB]);
}

#[test]
fn direct_broadcasts_offer_the_nodes_with_a_route() {
    let mut d = daemon();
    d.settings.broadcast_mode = BroadcastMode::Direct;
    d.last_routes[1] = None;
    d.last_routes.truncate(3);
    let nodes = vec![
        ReachedNode { id: ME, via: ME, nexthop: ME },
        ReachedNode { id: CAROL, via: CAROL, nexthop: CAROL },
    ];
    assert_eq!(
        d.broadcast_packet(BroadcastEvent::Start, 99, None),
        BroadcastStep::ChooseOneHop { nodes, from_is_self: true }
    );
}

#[test]
fn broadcasts_stay_where_they_must() {
    let mut d = daemon();
    d.settings.tunnelserver = true;
    assert_eq!(d.broadcast_packet(BroadcastEvent::Start, 99, Some(BOB)), BroadcastStep::Echo);
    assert_eq!(d.broadcast_packet(BroadcastEvent::Echoed, 99, Some(BOB)), BroadcastStep::Done);
    assert_eq!(d.broadcast_packet(BroadcastEvent::Start, 99, None), BroadcastStep::Done);
    d.settings.tunnelserver = false;
    d.settings.broadcast_mode = BroadcastMode::Never;
    assert_eq!(d.broadcast_packet(BroadcastEvent::Echoed, 99, Some(BOB)), BroadcastStep::Done);
}

#[test]
fn every_receiver_gets_one_copy() {
    assert_eq!(
        send_broadcast(&vec![CAROL, BOB], 99),
        vec![
            TxAction::CountOut { to: CAROL, bytes: 99 },
            TxAction::SendPacket { to: CAROL },
            TxAction::TryTx { to: CAROL },
            TxAction::CountOut { to: BOB, bytes: 99 },
            TxAction::SendPacket { to: BOB },
            TxAction::TryTx { to: BOB },
        ]
    );
}

// DNS

#[test]
fn queries_are_tried_in_order() {
    let mut d = daemon();
    d.dns = Some(DnsConfig { dns_addr4: Some(0x0a00_0001), dns_addr6: Some(99) });
    assert_eq!(d.try_dns_intercept(DnsEvent::Start), DnsStep::MatchV4(0x0a00_0001));
    assert_eq!(d.try_dns_intercept(DnsEvent::MatchedV4(false)), DnsStep::MatchV6(99));
    assert_eq!(d.try_dns_intercept(DnsEvent::MatchedV6(false)), DnsStep::Pass);
    assert_eq!(d.try_dns_intercept(DnsEvent::MatchedV4(true)), DnsStep::AnswerV4);
    assert_eq!(d.try_dns_intercept(DnsEvent::MatchedV6(true)), DnsStep::AnswerV6);
    assert_eq!(d.try_dns_intercept(DnsEvent::AnsweredV4(true)), DnsStep::WriteV4(0x0a00_0001));
    assert_eq!(d.try_dns_intercept(DnsEvent::AnsweredV6(true)), DnsStep::WriteV6(99));
    assert_eq!(d.try_dns_intercept(DnsEvent::AnsweredV4(false)), DnsStep::Swallow);
    assert_eq!(d.try_dns_intercept(DnsEvent::AnsweredV6(false)), DnsStep::Swallow);
}

#[test]
fn addresses_that_are_not_set_match_nothing() {
    let mut d = daemon();
    d.dns = Some(DnsConfig { dns_addr4: None, dns_addr6: Some(99) });
    assert_eq!(d.try_dns_intercept(DnsEvent::Start), DnsStep::MatchV6(99));
    d.dns = Some(DnsConfig { dns_addr4: Some(1), dns_addr6: None });
    assert_eq!(d.try_dns_intercept(DnsEvent::MatchedV4(false)), DnsStep::Pass);
    d.dns = Some(DnsConfig { dns_addr4: None, dns_addr6: None });
    assert_eq!(d.try_dns_intercept(DnsEvent::Start), DnsStep::Pass);
}

#[test]
fn queries_are_never_routed() {
    assert!(dns_hit(DnsStep::WriteV4(1)));
    assert!(dns_hit(DnsStep::WriteV6(1)));
    assert!(dns_hit(DnsStep::Swallow));
    assert!(!dns_hit(DnsStep::Pass));
    assert!(!dns_hit(DnsStep::AnswerV4));
}

// addresses

const MAC: [u8; 6] = [2, 0, 0, 0, 0, 0x17];

fn learned() -> Vec<MacAction> {
    vec![
        MacAction::LogLearned { mac: MAC },
        MacAction::AddSubnet { mac: MAC, weight: 10 },
        MacAction::RefreshSnapshot,
        MacAction::RunSubnetScript { mac: MAC },
        MacAction::StartLease { mac: MAC },
    ]
}

#[test]
fn address_keys_are_big_endian() {
    assert_eq!(mac_key(&[0x12, 0x34, 0x56, 0x78, 0x9a, 0xbc]), 0x1234_5678_9abc);
    assert_ne!(mac_key(&[0, 1, 0, 0, 0, 0]), mac_key(&[1, 0, 0, 0, 0, 0]));
}

#[test]
fn new_addresses_are_learned() {
    let mut d = daemon();
    assert!(d.route_packet_mac(LearnAction::NotOurs, 0).is_empty());
    assert!(d.mac_table.is_empty());
    assert_eq!(d.route_packet_mac(LearnAction::New(MAC), 4095), learned());
    assert_eq!(d.mac_table.get(&mac_key(&MAC)).unwrap(), "alice");
    assert_eq!(
        d.route_packet_mac(LearnAction::Refresh(MAC), 4096),
        vec![MacAction::RefreshLease { mac: MAC }]
    );
}

#[test]
fn addresses_move_here() {
    let mut d = daemon();
    d.mac_table.insert(mac_key(&MAC), "bob".to_owned());
    d.mac_table.insert(5, "bob".to_owned());
    assert_eq!(d.route_packet_mac(LearnAction::Refresh(MAC), 0), learned());
    assert_eq!(d.mac_table.get(&mac_key(&MAC)).unwrap(), "alice");
    assert_eq!(d.mac_table.get(&5).unwrap(), "bob");
}

#[test]
fn full_tables_are_mentioned_once() {
    let mut d = daemon();
    assert_eq!(d.learn_mac(MAC, MAX_MAC_LEASES), vec![MacAction::WarnTableFull]);
    assert!(d.learn_mac(MAC, MAX_MAC_LEASES + 1).is_empty());
    assert!(d.mac_table.is_empty());
}

#[test]
fn learned_addresses_are_announced() {
    let mut d = daemon();
    let tell = |id| MacAction::SendAddSubnet { conn: ConnId(id), mac: MAC, weight: 10 };
    let targets = vec![ConnId(10), ConnId(20)];
    assert_eq!(d.mac_lease_started(MAC, false, &targets), vec![tell(10), tell(20)]);
    assert!(!d.age_timer_armed);
    assert_eq!(
        d.mac_lease_started(MAC, true, &targets),
        vec![tell(10), tell(20), MacAction::ArmAgeTimer]
    );
    assert!(d.age_timer_armed);
    assert_eq!(d.mac_lease_started(MAC, true, &targets), vec![tell(10), tell(20)]);
}

#[test]
fn frames_have_a_source() {
    let d = daemon();
    assert_eq!(d.mac_source_name(None), "alice");
    assert_eq!(d.mac_source_name(Some(BOB)), "bob");
    assert_eq!(d.mac_source_name(Some(DAVE)), "<unknown>");
    assert_eq!(d.mac_source_name(Some(NodeId(77))), "<unknown>");
}

#[test]
fn only_reachable_nodes_receive() {
    let d = daemon();
    assert_eq!(d.reachable_node(&"alice".to_owned()), Some(ME));
    assert_eq!(d.reachable_node(&"bob".to_owned()), Some(BOB));
    assert_eq!(d.reachable_node(&"carol".to_owned()), None);
    assert_eq!(d.reachable_node(&"dave".to_owned()), None);
    assert_eq!(d.reachable_node(&"eve".to_owned()), None);
    assert_eq!(d.node_named(&"carol".to_owned()), Some(CAROL));
}
