//! Who is told what: broadcasts, copies for watchers, learned addresses, in
//! terms of the tables.
use crate::broadcast::{ActiveConn, BroadcastEvent, BroadcastStep, ReachedNode};
use crate::clock::Instant;
use crate::daemon::{Conn, ConnId, Daemon, EdgeId, NamedNode, NodeId};
use crate::mac::{LearnAction, MacAction};
use crate::pcap::PcapSend;
use crate::route::TxAction;
use vstd::prelude::*;

verus! {

/// Nothing about the network or the settings differs.
pub open spec fn same_network(a: &Daemon, b: &Daemon) -> bool {
    &&& a.name == b.name && a.myself == b.myself
    &&& a.settings == b.settings && a.dns == b.dns
    &&& a.node_ids == b.node_ids && a.graph == b.graph && a.nodes == b.nodes
    &&& a.last_routes == b.last_routes && a.tunnel_mtus == b.tunnel_mtus
    &&& a.tx_priority == b.tx_priority
}

/// A node has a way to it, with that `via` and that `nexthop`.
pub open spec fn has_route(d: &Daemon, id: NodeId, via: NodeId, nexthop: NodeId) -> bool {
    &&& id.0 < d.last_routes@.len()
    &&& d.last_routes@[id.0 as int] is Some
    &&& d.last_routes@[id.0 as int]->Some_0.via == via
    &&& d.last_routes@[id.0 as int]->Some_0.nexthop == nexthop
}

/// The entry bears that name for that node.
pub open spec fn bears(entry: NamedNode, name: Seq<char>, id: NodeId) -> bool {
    entry.name@ == name && entry.id == id
}

/// The node that bears a name.
pub open spec fn known_as(d: &Daemon, name: Seq<char>, id: NodeId) -> bool {
    exists|i: int| 0 <= i < d.node_ids@.len() && bears(#[trigger] d.node_ids@[i], name, id)
}

proof fn lemma_known_as(d: &Daemon, name: Seq<char>, id: NodeId)
    requires
        d.wf(),
    ensures
        d.named(name) == Some(id) <==> known_as(d, name, id),
{
    crate::route_laws::law_names_are_found(d, name, id);
    if known_as(d, name, id) {
        let i = choose|i: int|
            0 <= i < d.node_ids@.len() && bears(#[trigger] d.node_ids@[i], name, id);
        assert(d.node_ids@[i].name@ == name && d.node_ids@[i].id == id);
    }
    if d.named(name) == Some(id) {
        let i = choose|i: int|
            0 <= i < d.node_ids@.len() && (#[trigger] d.node_ids@[i]).name@ == name
                && d.node_ids@[i].id == id;
        assert(bears(d.node_ids@[i], name, id));
    }
}

/// The tables are read by the number of the node: its route if the table has
/// one, its state if the map has one, the MTU of its tunnel or else the link
/// ceiling.
pub proof fn law_tables_are_read_by_number(d: &Daemon, id: NodeId)
    ensures
        id.0 < d.last_routes@.len() ==> d.route_to(id) == d.last_routes@[id.0 as int],
        id.0 >= d.last_routes@.len() ==> d.route_to(id) is None,
        d.nodes@.contains_key(id.0) ==> d.state_of(id) == Some(d.nodes@[id.0]),
        !d.nodes@.contains_key(id.0) ==> d.state_of(id) is None,
        d.tunnel_mtus@.contains_key(id.0) ==> d.mtu_of(id) == d.tunnel_mtus@[id.0],
        !d.tunnel_mtus@.contains_key(id.0) ==> d.mtu_of(id) == 1518,
{
}

/// A node is found as reachable under a name exactly if it bears that name and
/// the graph holds it as reachable.
pub proof fn law_reachable_nodes_are_found(d: &Daemon, name: Seq<char>, id: NodeId)
    requires
        d.wf(),
    ensures
        d.reachable_named(name) == Some(id) <==> known_as(d, name, id) && id.0 < d.graph@.len()
            && d.graph@[id.0 as int] is Some && d.graph@[id.0 as int]->Some_0.reachable,
{
    lemma_known_as(d, name, id);
}

/// A node is offered to the one-hop choice exactly if it has a known name and
/// a route; the offer has the `via` and the `nexthop` of that route.
pub proof fn law_one_hop_offers_are_the_routes(
    d: &Daemon,
    entries: Seq<NamedNode>,
    offer: ReachedNode,
)
    ensures
        d.reached_nodes(entries).contains(offer) <==> has_route(
            d,
            offer.id,
            offer.via,
            offer.nexthop,
        ) && exists|i: int| 0 <= i < entries.len() && (#[trigger] entries[i]).id == offer.id,
    decreases entries.len(),
{
    if entries.len() > 0 {
        let front = entries.drop_last();
        let list = d.reached_nodes(front);
        let all = d.reached_nodes(entries);
        law_one_hop_offers_are_the_routes(d, front, offer);
        if all.contains(offer) {
            let k = choose|k: int| 0 <= k < all.len() && all[k] == offer;
            if k < list.len() {
                assert(list[k] == offer);
                let i = choose|i: int|
                    0 <= i < front.len() && (#[trigger] front[i]).id == offer.id;
                assert(entries[i] == front[i]);
            } else {
                assert(entries[entries.len() - 1].id == offer.id);
            }
        }
        if has_route(d, offer.id, offer.via, offer.nexthop) && exists|i: int|
            0 <= i < entries.len() && (#[trigger] entries[i]).id == offer.id {
            let i = choose|i: int| 0 <= i < entries.len() && (#[trigger] entries[i]).id == offer.id;
            if i < front.len() {
                assert(front[i] == entries[i]);
                let k = choose|k: int| 0 <= k < list.len() && list[k] == offer;
                assert(all[k] == offer);
            } else {
                assert(all.last() == offer);
            }
        }
    }
}

/// Each known node is offered once for its entry, in the order of the entries,
/// if it has a route.
pub proof fn law_one_hop_offers_add_up(d: &Daemon, entries: Seq<NamedNode>, more: NamedNode)
    ensures
        d.reached_nodes(Seq::empty()).len() == 0,
        forall|via: NodeId, nexthop: NodeId| #[trigger]
            has_route(d, more.id, via, nexthop) ==> d.reached_nodes(entries.push(more))
                == d.reached_nodes(entries).push(ReachedNode { id: more.id, via, nexthop }),
        (forall|via: NodeId, nexthop: NodeId| !#[trigger] has_route(d, more.id, via, nexthop))
            ==> d.reached_nodes(entries.push(more)) == d.reached_nodes(entries),
{
    assert(entries.push(more).drop_last() == entries);
    match d.route_to(more.id) {
        Some(route) => {
            assert(has_route(d, more.id, route.via, route.nexthop));
        },
        None => {},
    }
}

/// A connection stands for an edge exactly if it is active and the node that
/// bears the name at its other end has that edge.
pub proof fn law_connections_stand_for_edges(d: &Daemon, conn: Conn, id: NodeId, edge: EdgeId)
    requires
        d.wf(),
        known_as(d, conn.name@, id),
    ensures
        d.edge_of(conn) == Some(edge) <==> conn.active && d.nodes@.contains_key(id.0)
            && d.nodes@[id.0].edge == Some(edge),
{
    lemma_known_as(d, conn.name@, id);
}

/// A connection to a node that nobody knows stands for no edge.
pub proof fn law_strangers_stand_for_no_edge(d: &Daemon, conn: Conn)
    requires
        d.wf(),
        forall|id: NodeId| !#[trigger] known_as(d, conn.name@, id),
    ensures
        d.edge_of(conn) is None,
{
    match d.named(conn.name@) {
        Some(id) => {
            lemma_known_as(d, conn.name@, id);
        },
        None => {},
    }
}

/// Each connection that stands for an edge is offered once, with that edge, in
/// the order of the connections.
pub proof fn law_tree_offers_add_up(d: &Daemon, conns: Seq<Conn>, more: Conn)
    ensures
        d.active_conns(Seq::empty()).len() == 0,
        d.edge_of(more) matches Some(edge) ==> d.active_conns(conns.push(more)) == d.active_conns(
            conns,
        ).push(ActiveConn { conn: more.id, edge }),
        d.edge_of(more) is None ==> d.active_conns(conns.push(more)) == d.active_conns(conns),
{
    assert(conns.push(more).drop_last() == conns);
}

/// A packet from a node came by the connection of the first node on the way to
/// it, if there is one.
pub proof fn law_packets_came_by_the_first_hop(
    d: &Daemon,
    id: NodeId,
    via: NodeId,
    nexthop: NodeId,
)
    requires
        has_route(d, id, via, nexthop),
    ensures
        d.nodes@.contains_key(nexthop.0) ==> d.conn_towards(id) == d.nodes@[nexthop.0].conn,
        !d.nodes@.contains_key(nexthop.0) ==> d.conn_towards(id) is None,
{
}

/// A packet from a node without a route came by no known connection.
pub proof fn law_unrouted_packets_came_by_nothing(d: &Daemon, id: NodeId)
    requires
        id.0 >= d.last_routes@.len() || d.last_routes@[id.0 as int] is None,
    ensures
        d.conn_towards(id) is None,
{
}

/// How receivers are chosen goes by the settings alone: not at all with
/// `tunnelserver` or broadcasts off; else from all connections by the tree,
/// but not the one it came by, or from all known nodes by distance, told
/// whether it comes from here. Whoever was chosen before the echo is chosen
/// after it.
pub proof fn law_receivers_are_chosen_by_the_settings(
    d: &Daemon,
    len: usize,
    from: Option<NodeId>,
    step: BroadcastStep,
)
    requires
        d.broadcast_follows(BroadcastEvent::Echoed, len, from, step),
    ensures
        d.settings.tunnelserver || d.settings.broadcast_mode is Never <==> step is Done,
        !d.settings.tunnelserver && d.settings.broadcast_mode is Mst ==> (
        step matches BroadcastStep::ChooseTree { active, from_conn } && active@ == d.active_conns(
            d.conns@,
        ) && (from is None ==> from_conn is None) && (from matches Some(id) ==> from_conn
            == d.conn_towards(id))),
        !d.settings.tunnelserver && d.settings.broadcast_mode is Direct ==> (
        step matches BroadcastStep::ChooseOneHop { nodes, from_is_self } && nodes@
            == d.reached_nodes(d.node_ids@) && (from_is_self <==> from is None)),
        from is None ==> d.broadcast_follows(BroadcastEvent::Start, len, from, step),
{
}

/// A broadcast from a peer is echoed first, one from the device never.
pub proof fn law_only_peers_broadcasts_are_echoed(
    d: &Daemon,
    event: BroadcastEvent,
    len: usize,
    from: Option<NodeId>,
    step: BroadcastStep,
)
    requires
        d.broadcast_follows(event, len, from, step),
    ensures
        step is Echo <==> event is Start && from is Some,
{
}

/// The step sends three things for each of the nodes and nothing more; those
/// for the node at `i` count, send and drive its copy, in its place.
pub open spec fn serves(step: BroadcastStep, nodes: Seq<NodeId>, len: usize, i: int) -> bool {
    &&& step is Send
    &&& step->Send_0@.len() == 3 * nodes.len()
    &&& i < nodes.len() ==> {
        &&& step->Send_0@[3 * i] == (TxAction::CountOut { to: nodes[i], bytes: len })
        &&& step->Send_0@[3 * i + 1] == (TxAction::SendPacket { to: nodes[i] })
        &&& step->Send_0@[3 * i + 2] == (TxAction::TryTx { to: nodes[i] })
    }
}

/// Whoever is chosen gets a copy: nodes as they are, connections by the node
/// at their other end. All copies have the packet's length.
pub proof fn law_chosen_receivers_are_served(
    d: &Daemon,
    len: usize,
    from: Option<NodeId>,
    chosen: BroadcastEvent,
    step: BroadcastStep,
    i: int,
)
    requires
        d.broadcast_follows(chosen, len, from, step),
        0 <= i,
    ensures
        chosen matches BroadcastEvent::ChosenNodes(nodes) ==> serves(step, nodes@, len, i),
        chosen matches BroadcastEvent::ChosenConns(conns) ==> serves(
            step,
            d.peers_of(conns@),
            len,
            i,
        ),
{
    match chosen {
        BroadcastEvent::ChosenNodes(nodes) => {
            crate::route_laws::law_every_receiver_gets_one_copy(nodes@, len);
            if i < nodes@.len() {
                assert(nodes@[i] == nodes@[i]);
            }
        },
        BroadcastEvent::ChosenConns(conns) => {
            let peers = d.peers_of(conns@);
            crate::route_laws::law_every_receiver_gets_one_copy(peers, len);
            if i < peers.len() {
                assert(peers[i] == peers[i]);
            }
        },
        _ => {},
    }
}

/// Each chosen connection stands for the node that bears the name at its other
/// end, in order; one that is gone, or whose node nobody knows, for none.
pub proof fn law_chosen_connections_stand_for_nodes(
    d: &Daemon,
    chosen: Seq<ConnId>,
    at: int,
    id: NodeId,
)
    requires
        d.wf(),
        0 <= at < d.conns@.len(),
    ensures
        d.peers_of(Seq::empty()).len() == 0,
        known_as(d, d.conns@[at].name@, id) ==> d.peers_of(chosen.push(d.conns@[at].id))
            == d.peers_of(chosen).push(id),
        (forall|other: NodeId| !#[trigger] known_as(d, d.conns@[at].name@, other)) ==> d.peers_of(
            chosen.push(d.conns@[at].id),
        ) == d.peers_of(chosen),
{
    let conn = d.conns@[at];
    assert(chosen.push(conn.id).drop_last() == chosen);
    crate::route_laws::law_connections_are_found(d, at);
    lemma_known_as(d, conn.name@, id);
    match d.named(conn.name@) {
        Some(other) => {
            lemma_known_as(d, conn.name@, other);
        },
        None => {},
    }
}

/// A connection that is gone stands for no node.
pub proof fn law_gone_connections_stand_for_nobody(d: &Daemon, chosen: Seq<ConnId>, gone: ConnId)
    requires
        forall|i: int| 0 <= i < d.conns@.len() ==> (#[trigger] d.conns@[i]).id != gone,
    ensures
        d.peers_of(chosen.push(gone)) == d.peers_of(chosen),
{
    assert(chosen.push(gone).drop_last() == chosen);
    lemma_not_found(d.conns@, gone);
}

proof fn lemma_not_found(conns: Seq<Conn>, gone: ConnId)
    requires
        forall|i: int| 0 <= i < conns.len() ==> (#[trigger] conns[i]).id != gone,
    ensures
        crate::daemon::find_conn(conns, gone) is None,
    decreases conns.len(),
{
    if conns.len() > 0 {
        assert(conns.last() == conns[conns.len() - 1]);
        assert forall|i: int| 0 <= i < conns.drop_last().len() implies (
        #[trigger] conns.drop_last()[i]).id != gone by {
            assert(conns.drop_last()[i] == conns[i]);
        }
        lemma_not_found(conns.drop_last(), gone);
    }
}

/// Each watcher gets one copy, in the order of the connections: the whole
/// packet, or its first `pcap_snaplen` bytes where it asked for fewer than it
/// has. Nobody else gets one.
pub proof fn law_watchers_get_their_copies(conns: Seq<Conn>, more: Conn, len: usize)
    ensures
        crate::pcap::pcap_sends(Seq::empty(), len as nat).len() == 0,
        !more.pcap ==> crate::pcap::pcap_sends(conns.push(more), len as nat)
            == crate::pcap::pcap_sends(conns, len as nat),
        more.pcap && (more.pcap_snaplen == 0 || more.pcap_snaplen >= len)
            ==> crate::pcap::pcap_sends(conns.push(more), len as nat) == crate::pcap::pcap_sends(
            conns,
            len as nat,
        ).push(PcapSend { conn: more.id, len }),
        more.pcap && 0 < more.pcap_snaplen < len ==> crate::pcap::pcap_sends(
            conns.push(more),
            len as nat,
        ) == crate::pcap::pcap_sends(conns, len as nat).push(
            PcapSend { conn: more.id, len: more.pcap_snaplen as usize },
        ),
{
    assert(conns.push(more).drop_last() == conns);
}

/// Copying packets makes every watcher count as busy for an hour from now and
/// leaves the other connections as they are. Afterwards somebody may be
/// watching exactly if somebody is.
pub proof fn law_watchers_count_as_busy(
    before: &Daemon,
    after: &Daemon,
    now: Instant,
    i: int,
)
    requires
        after.pcap_updated(before, now),
        now.nanos + 3_600_000_000_000 <= u128::MAX,
    ensures
        after.conns@.len() == before.conns@.len(),
        0 <= i < before.conns@.len() ==> {
            &&& before.conns@[i].pcap ==> after.conns@[i].last_ping_time.nanos == now.nanos
                + 3_600_000_000_000
            &&& before.conns@[i].pcap ==> after.any_pcap
            &&& !before.conns@[i].pcap ==> after.conns@[i] == before.conns@[i]
            &&& after.conns@[i].id == before.conns@[i].id
            &&& after.conns@[i].name == before.conns@[i].name
            &&& after.conns@[i].active == before.conns@[i].active
            &&& after.conns@[i].pcap == before.conns@[i].pcap
            &&& after.conns@[i].pcap_snaplen == before.conns@[i].pcap_snaplen
        },
        after.any_pcap ==> exists|j: int|
            0 <= j < before.conns@.len() && (#[trigger] before.conns@[j]).pcap,
        same_network(before, after),
        after.mac_table == before.mac_table && after.mac_cap_warned == before.mac_cap_warned,
        after.age_timer_armed == before.age_timer_armed,
{
}

/// A header is `18 14 `, then the length in decimal without leading zeros.
pub proof fn law_headers_are_lines(len: nat)
    ensures
        crate::pcap::header_line(len).len() == 6 + crate::pcap::decimal(len).len(),
        crate::pcap::header_line(len).take(6) == seq![49u8, 56, 32, 49, 52, 32],
        crate::pcap::header_line(len).skip(6) == crate::pcap::decimal(len),
        len < 10 ==> crate::pcap::decimal(len).len() == 1,
        len >= 10 ==> crate::pcap::decimal(len)[0] != 48,
{
    reveal_strlit("18 14 ");
    vstd::utf8::is_ascii_chars_encode_utf8("18 14 "@);
    let head = vstd::utf8::encode_utf8("18 14 "@);
    assert(head == seq![49u8, 56, 32, 49, 52, 32]);
    assert(crate::pcap::header_line(len).take(6) == head);
    assert(crate::pcap::header_line(len).skip(6) == crate::pcap::decimal(len));
    if len >= 10 {
        lemma_no_leading_zero(len);
    }
}

proof fn lemma_no_leading_zero(n: nat)
    requires
        n >= 1,
    ensures
        crate::pcap::decimal(n).len() >= 1,
        crate::pcap::decimal(n)[0] != 48,
    decreases n,
{
    if n >= 10 {
        lemma_no_leading_zero(n / 10);
        assert(crate::pcap::decimal(n)[0] == crate::pcap::decimal(n / 10)[0]);
    }
}

/// The key of an address holds its bytes, the first in the highest place.
pub proof fn law_mac_keys_hold_the_bytes(mac: [u8; 6], i: int)
    requires
        0 <= i < 6,
    ensures
        0 <= crate::mac::mac_value(mac) < 0x1_0000_0000_0000,
        i == 0 ==> (crate::mac::mac_value(mac) / 0x100_0000_0000) % 256 == mac@[0],
        i == 1 ==> (crate::mac::mac_value(mac) / 0x1_0000_0000) % 256 == mac@[1],
        i == 2 ==> (crate::mac::mac_value(mac) / 0x100_0000) % 256 == mac@[2],
        i == 3 ==> (crate::mac::mac_value(mac) / 0x1_0000) % 256 == mac@[3],
        i == 4 ==> (crate::mac::mac_value(mac) / 0x100) % 256 == mac@[4],
        i == 5 ==> crate::mac::mac_value(mac) % 256 == mac@[5],
{
}

/// An address is this node's exactly if the table has it under this node's
/// name.
pub proof fn law_owners_are_in_the_table(d: &Daemon, mac: [u8; 6], key: u64)
    requires
        key == crate::mac::mac_value(mac),
    ensures
        d.owns_mac(mac) <==> d.mac_table@.contains_key(key) && d.mac_table@[key]@ == d.name@,
{
}

/// A learned address is under this node's name afterwards, every other keeps
/// its owner, and nothing but the table changes.
pub proof fn law_learning_writes_one_owner(
    before: &Daemon,
    after: &Daemon,
    mac: [u8; 6],
    key: u64,
    other: u64,
)
    requires
        after.mac_taken_over(before, mac),
        key == crate::mac::mac_value(mac),
        other != key,
    ensures
        after.mac_table@.contains_key(key) && after.mac_table@[key]@ == before.name@,
        after.mac_table@.contains_key(other) <==> before.mac_table@.contains_key(other),
        before.mac_table@.contains_key(other) ==> after.mac_table@[other]
            == before.mac_table@[other],
        same_network(before, after),
        after.conns == before.conns && after.any_pcap == before.any_pcap,
        after.mac_cap_warned == before.mac_cap_warned && after.age_timer_armed
            == before.age_timer_armed,
{
}

/// With room for it, an address is learned: logged, added to this node's
/// subnets with weight 10, shown to the senders and to the script, and its
/// lease started, in this order. With 4096 learned already it is not, which is
/// logged unless it was before.
pub proof fn law_addresses_are_learned_while_there_is_room(
    before: &Daemon,
    after: &Daemon,
    mac: [u8; 6],
    leases: usize,
    actions: Seq<MacAction>,
)
    requires
        after.learned(before, mac, leases, actions),
    ensures
        leases < 4096 ==> {
            &&& after.mac_taken_over(before, mac)
            &&& actions.len() == 5
            &&& actions[0] == (MacAction::LogLearned { mac })
            &&& actions[1] == (MacAction::AddSubnet { mac, weight: 10 })
            &&& actions[2] == MacAction::RefreshSnapshot
            &&& actions[3] == (MacAction::RunSubnetScript { mac })
            &&& actions[4] == (MacAction::StartLease { mac })
        },
        leases >= 4096 ==> {
            &&& same_network(before, after)
            &&& after.conns == before.conns && after.any_pcap == before.any_pcap
            &&& after.mac_table == before.mac_table
            &&& after.age_timer_armed == before.age_timer_armed
            &&& after.mac_cap_warned
            &&& before.mac_cap_warned ==> actions.len() == 0
            &&& !before.mac_cap_warned ==> actions.len() == 1 && actions[0]
                == MacAction::WarnTableFull
        },
{
}

/// A frame's source is followed up on by who has it: not at all if the frame
/// is not from the device; an address that this node has is kept alive and
/// nothing else; one that it has not, new or another's, is learned.
pub proof fn law_sources_are_followed_up(
    before: &Daemon,
    after: &Daemon,
    learn: LearnAction,
    mac: [u8; 6],
    leases: usize,
    actions: Seq<MacAction>,
)
    requires
        after.followed_up(before, learn, leases, actions),
    ensures
        learn is NotOurs ==> *after == *before && actions.len() == 0,
        learn == LearnAction::New(mac) ==> after.learned(before, mac, leases, actions),
        learn == LearnAction::Refresh(mac) && before.owns_mac(mac) ==> *after == *before
            && actions.len() == 1 && actions[0] == (MacAction::RefreshLease { mac }),
        learn == LearnAction::Refresh(mac) && !before.owns_mac(mac) ==> after.learned(
            before,
            mac,
            leases,
            actions,
        ),
{
}

/// A started lease is announced to each connection once, in order, with weight
/// 10. The sweep is armed last, exactly if this is the only lease and no sweep
/// runs; afterwards one runs if it did before or if this is the only lease.
pub proof fn law_leases_are_announced(
    d: Daemon,
    mac: [u8; 6],
    targets: Seq<ConnId>,
    was_empty: bool,
)
    ensures
        ({
            let arms = was_empty && !d.age_timer_armed;
            let actions = d.lease_actions(mac, targets, was_empty);
            &&& actions.len() == targets.len() + (if arms {
                1int
            } else {
                0int
            })
            &&& forall|i: int|
                0 <= i < targets.len() ==> actions[i] == (MacAction::SendAddSubnet {
                    conn: #[trigger] targets[i],
                    mac,
                    weight: 10,
                })
            &&& arms ==> actions.last() == MacAction::ArmAgeTimer
            &&& d.lease_running(was_empty).age_timer_armed <==> d.age_timer_armed || was_empty
            &&& d.lease_running(was_empty).mac_table == d.mac_table
            &&& d.lease_running(was_empty).mac_cap_warned == d.mac_cap_warned
            &&& same_network(&d, &d.lease_running(was_empty))
            &&& d.lease_running(was_empty).conns == d.conns
            &&& d.lease_running(was_empty).any_pcap == d.any_pcap
        }),
{
}

/// A frame's source goes by this node's name for frames from the device, by
/// the name in the graph for those from a peer, and is unknown otherwise.
pub proof fn law_sources_have_names(d: &Daemon, id: NodeId)
    ensures
        d.source_name(None) == d.name@,
        id.0 < d.graph@.len() && d.graph@[id.0 as int] is Some ==> d.source_name(Some(id))
            == d.graph@[id.0 as int]->Some_0.name@,
        id.0 >= d.graph@.len() || d.graph@[id.0 as int] is None ==> d.source_name(Some(id))
            == "<unknown>"@,
{
}

} // verus!
