//! What holds of forwarding as a whole, whatever the tables say.
use crate::broadcast::{ActiveConn, BroadcastEvent, BroadcastStep};
use crate::clock::Instant;
use crate::daemon::{Conn, Daemon, NamedNode, NodeId};
use crate::mac::LearnAction;
use crate::route::{DropReason, ForwardEvent, IcmpKind, RouteResult, Step, TtlResult, TxAction};
use vstd::prelude::*;

verus! {

/// The packet is on its way to a peer as a whole.
pub open spec fn leaves_whole(step: Step) -> bool {
    step is Clamp || step is LowerTtl || step is Transmit
}

/// The packet leaves for a peer, whole or in pieces.
pub open spec fn leaves(step: Step) -> bool {
    leaves_whole(step) || step is Fragment
}

/// What the steps with one packet bring, as far as they are taken.
pub struct Answers {
    pub dns_hit: bool,
    pub routed: RouteResult,
    pub mac_routed: RouteResult,
    pub learn: LearnAction,
    pub ttl: TtlResult,
}

/// What a step brings; nothing if it is the last.
pub open spec fn brings(step: Step, answers: Answers) -> Option<ForwardEvent> {
    match step {
        Step::CopyToWatchers => Some(ForwardEvent::Copied),
        Step::InterceptDns => Some(ForwardEvent::DnsTried { hit: answers.dns_hit }),
        Step::RouteIp => Some(ForwardEvent::Routed(answers.routed)),
        Step::RouteMac => Some(
            ForwardEvent::MacRouted { result: answers.mac_routed, learn: answers.learn },
        ),
        Step::Learn { result, .. } => Some(ForwardEvent::Learned { result }),
        Step::Clamp { to, .. } => Some(ForwardEvent::Clamped { to }),
        Step::LowerTtl { to } => Some(ForwardEvent::TtlLowered { to, ttl: answers.ttl }),
        Step::LowerBroadcastTtl => Some(ForwardEvent::BroadcastTtlLowered(answers.ttl)),
        _ => None,
    }
}

/// The steps with a packet from the given one on, at most `more` after it.
pub open spec fn steps_from(
    d: &Daemon,
    step: Step,
    data: Seq<u8>,
    from: Option<NodeId>,
    answers: Answers,
    more: nat,
) -> Seq<Step>
    decreases more,
{
    match brings(step, answers) {
        Some(event) if more > 0 => seq![step] + steps_from(
            d,
            d.step_after(event, data, from),
            data,
            from,
            answers,
            (more - 1) as nat,
        ),
        _ => seq![step],
    }
}

/// All steps with a packet.
pub open spec fn packet_steps(
    d: &Daemon,
    data: Seq<u8>,
    from: Option<NodeId>,
    answers: Answers,
) -> Seq<Step> {
    steps_from(d, d.first_step(data, from), data, from, answers, 5)
}

/// Every packet comes to an end, after six steps at most.
pub proof fn law_every_packet_comes_to_an_end(
    d: &Daemon,
    data: Seq<u8>,
    from: Option<NodeId>,
    answers: Answers,
)
    ensures
        1 <= packet_steps(d, data, from, answers).len() <= 6,
        brings(packet_steps(d, data, from, answers).last(), answers) is None,
{
    reveal_with_fuel(steps_from, 6);
}

/// No step that follows another copies the packet.
proof fn lemma_no_more_copies(
    d: &Daemon,
    step: Step,
    data: Seq<u8>,
    from: Option<NodeId>,
    answers: Answers,
    more: nat,
)
    requires
        step != Step::CopyToWatchers,
    ensures
        !steps_from(d, step, data, from, answers, more).contains(Step::CopyToWatchers),
    decreases more,
{
    match brings(step, answers) {
        Some(event) if more > 0 => {
            let next = d.step_after(event, data, from);
            lemma_no_more_copies(d, next, data, from, answers, (more - 1) as nat);
            let rest = steps_from(d, next, data, from, answers, (more - 1) as nat);
            let all = seq![step] + rest;
            assert forall|i: int| 0 <= i < all.len() implies all[i] != Step::CopyToWatchers by {
                if i > 0 {
                    assert(rest.contains(all[i])) by {
                        assert(rest[i - 1] == all[i]);
                    }
                }
            }
        },
        _ => {},
    }
}

/// Watchers get their copies before anything else, and once only.
pub proof fn law_copies_come_first(
    d: &Daemon,
    data: Seq<u8>,
    from: Option<NodeId>,
    answers: Answers,
)
    ensures
        ({
            let rest = |more: nat|
                steps_from(d, d.after_copies(data, from), data, from, answers, more);
            &&& packet_steps(d, data, from, answers) == (if d.any_pcap {
                seq![Step::CopyToWatchers] + rest(4)
            } else {
                rest(5)
            })
            &&& forall|more: nat| !(#[trigger] rest(more)).contains(Step::CopyToWatchers)
        }),
{
    assert forall|more: nat|
        !(#[trigger] steps_from(
            d,
            d.after_copies(data, from),
            data,
            from,
            answers,
            more,
        )).contains(Step::CopyToWatchers) by {
        lemma_no_more_copies(d, d.after_copies(data, from), data, from, answers, more);
    }
}

/// A packet from the device that is no DNS query to this node is looked up
/// like any other; one that is goes no further.
pub proof fn law_missed_queries_are_routed(
    d: &Daemon,
    data: Seq<u8>,
    from: Option<NodeId>,
    answers: Answers,
    more: nat,
)
    requires
        more >= 2,
    ensures
        answers.dns_hit ==> steps_from(d, Step::InterceptDns, data, from, answers, more) == seq![
            Step::InterceptDns,
            Step::Done,
        ],
        !answers.dns_hit ==> steps_from(d, Step::InterceptDns, data, from, answers, more) == seq![
            Step::InterceptDns,
        ] + steps_from(d, Step::RouteIp, data, from, answers, (more - 1) as nat),
{
    reveal_with_fuel(steps_from, 3);
}

/// A switch follows up on a frame's source and then sends the frame its way:
/// always both, in this order, and the one does not touch the other.
pub proof fn law_switches_learn_then_dispatch(
    d: &Daemon,
    data: Seq<u8>,
    from: Option<NodeId>,
    answers: Answers,
    more: nat,
)
    requires
        more >= 2,
    ensures
        steps_from(d, Step::RouteMac, data, from, answers, more) == seq![
            Step::RouteMac,
            Step::Learn { learn: answers.learn, result: answers.mac_routed },
        ] + steps_from(
            d,
            d.result_step(answers.mac_routed, data, from),
            data,
            from,
            answers,
            (more - 2) as nat,
        ),
{
    reveal_with_fuel(steps_from, 3);
}

/// Copying packets and learning addresses change nothing about where packets
/// go: the step after any event is the same before and afterwards.
pub proof fn law_bookkeeping_changes_no_step(
    before: &Daemon,
    after: &Daemon,
    now: Instant,
    mac: [u8; 6],
    event: ForwardEvent,
    data: Seq<u8>,
    from: Option<NodeId>,
)
    requires
        after.pcap_updated(before, now) || after.mac_taken_over(before, mac) || *after == (Daemon {
            mac_cap_warned: true,
            ..*before
        }),
    ensures
        after.step_after(event, data, from) == before.step_after(event, data, from),
{
}

/// A packet that is sent whole is clamped where the way asks for it, then
/// loses time to live where that is due, then is sent: in this order, each at
/// most once.
pub proof fn law_clamped_then_aged_then_sent(
    d: &Daemon,
    to: NodeId,
    data: Seq<u8>,
    from: Option<NodeId>,
    answers: Answers,
)
    requires
        leaves_whole(d.forward_step(to, data, from)),
        answers.ttl == TtlResult::Decremented,
    ensures
        steps_from(d, d.forward_step(to, data, from), data, from, answers, 2) == (
        match d.clamp_to(to) {
            Some(mtu) => seq![Step::Clamp { to, mtu }],
            None => seq![],
        }) + (if d.settings.decrement_ttl && from is Some {
            seq![Step::LowerTtl { to }]
        } else {
            seq![]
        }) + seq![Step::Transmit { to }],
{
    reveal_with_fuel(steps_from, 3);
}

/// A packet whose time to live has run out is not sent.
pub proof fn law_expired_packets_are_not_sent(
    d: &Daemon,
    to: NodeId,
    data: Seq<u8>,
    from: Option<NodeId>,
    answers: Answers,
)
    requires
        d.settings.decrement_ttl,
        from is Some,
        answers.ttl != TtlResult::Decremented,
        leaves_whole(d.forward_step(to, data, from)),
    ensures
        !(steps_from(d, d.forward_step(to, data, from), data, from, answers, 2).last() is Transmit),
        brings(
            steps_from(d, d.forward_step(to, data, from), data, from, answers, 2).last(),
            answers,
        ) is None,
{
    reveal_with_fuel(steps_from, 3);
}

/// A broadcast from a peer is echoed before receivers are chosen; one from the
/// device is not echoed. Receivers are chosen the same way for both, and
/// whoever is chosen is sent to.
pub proof fn law_broadcasts_echo_then_choose_then_send(
    d: &Daemon,
    len: usize,
    from: Option<NodeId>,
    first: BroadcastStep,
    echoed: BroadcastStep,
    chosen: BroadcastEvent,
    last: BroadcastStep,
)
    requires
        d.broadcast_follows(BroadcastEvent::Start, len, from, first),
        d.broadcast_follows(BroadcastEvent::Echoed, len, from, echoed),
        chosen is ChosenConns || chosen is ChosenNodes,
        d.broadcast_follows(chosen, len, from, last),
    ensures
        from is Some <==> first is Echo,
        from is None ==> d.chooses(from, first),
        d.chooses(from, echoed),
        !(echoed is Echo) && !(echoed is Send),
        last is Send,
{
}

/// A node that is no relay sends nothing on from one peer to another. A
/// router says so to the sender; otherwise nobody tells them.
pub proof fn law_no_relay_without_consent(
    d: &Daemon,
    to: NodeId,
    data: Seq<u8>,
    from: Option<NodeId>,
)
    requires
        d.settings.forwarding_mode is Off,
        from is Some,
    ensures
        !leaves(d.forward_step(to, data, from)),
        to != d.myself ==> !leaves(d.result_step(RouteResult::Forward { to }, data, from)),
        from != Some(to) ==> d.forward_step(to, data, from) == (
        if d.settings.routing_mode is Router {
            Step::Reject {
                reason: DropReason::NotARelay { to },
                kind: crate::route::prohibited(data),
            }
        } else {
            Step::Drop(DropReason::NotARelay { to })
        }),
{
}

/// A packet never goes back to the peer it came from, neither as its
/// destination nor as its next hop.
pub proof fn law_packets_never_go_back(
    d: &Daemon,
    to: NodeId,
    data: Seq<u8>,
    from: Option<NodeId>,
)
    requires
        leaves(d.forward_step(to, data, from)),
    ensures
        from != Some(to),
        from != Some(d.hop(to)),
{
}

/// With `directonly`, whatever leaves goes to its destination without a
/// detour.
pub proof fn law_direct_only_means_direct(
    d: &Daemon,
    to: NodeId,
    data: Seq<u8>,
    from: Option<NodeId>,
)
    requires
        d.settings.directonly,
        leaves(d.forward_step(to, data, from)),
    ensures
        d.hop(to) == to,
{
}

/// A sender is told of a path MTU only for a frame that exceeds it, only once
/// it is measured, and never of one below what every IPv4 host or IPv6 link
/// takes.
pub proof fn law_reported_mtu_is_measured(
    d: &Daemon,
    to: NodeId,
    data: Seq<u8>,
    from: Option<NodeId>,
)
    ensures
        d.forward_step(to, data, from) matches Step::EmitIcmp(IcmpKind::FragNeeded { mtu }) ==> {
            &&& mtu >= 576
            &&& data.len() > mtu + 14
            &&& d.mtu_of(d.hop(to)) != 0
            &&& d.mtu_of(d.hop(to)) <= mtu + 14
            &&& crate::route::dont_fragment(data)
        },
        d.forward_step(to, data, from) matches Step::EmitIcmp(IcmpKind::TooBigV6 { mtu }) ==> {
            &&& mtu >= 1280
            &&& data.len() > mtu + 14
            &&& d.mtu_of(d.hop(to)) != 0
            &&& d.mtu_of(d.hop(to)) <= mtu + 14
            &&& crate::route::ethertype_of(data) != crate::route::ETH_P_IP
        },
        d.forward_step(to, data, from) matches Step::Fragment { to: peer, limit } ==> {
            &&& peer == to
            &&& limit >= 590
            &&& data.len() > limit
            &&& !crate::route::dont_fragment(data)
        },
{
}

/// Before discovery has measured the next hop, no packet is too long for it.
pub proof fn law_unmeasured_hops_take_everything(
    d: &Daemon,
    to: NodeId,
    data: Seq<u8>,
    from: Option<NodeId>,
)
    requires
        d.mtu_of(d.hop(to)) == 0,
    ensures
        !(d.forward_step(to, data, from) is Fragment),
        d.forward_step(to, data, from) matches Step::EmitIcmp(kind) ==> kind is Unreach,
        d.forward_step(to, data, from) matches Step::Reject { kind, .. } ==> kind is Unreach,
{
}

/// A frame that is sent whole fits the next hop, or the floor below which
/// none is split.
pub proof fn law_whole_frames_fit(d: &Daemon, to: NodeId, data: Seq<u8>, from: Option<NodeId>)
    requires
        leaves_whole(d.forward_step(to, data, from)),
        d.hop_measured(to),
    ensures
        data.len() <= crate::route::frame_limit(
            d.mtu_of(d.hop(to)),
            crate::route::ethertype_of(data) == crate::route::ETH_P_IP,
        ),
{
}

/// Packets from the device keep their time to live: this node is their first
/// hop. Those from peers lose one, if the settings say so.
pub proof fn law_own_packets_keep_their_ttl(
    d: &Daemon,
    to: NodeId,
    data: Seq<u8>,
    from: Option<NodeId>,
)
    ensures
        d.after_clamp(to, from) == (if d.settings.decrement_ttl && from is Some {
            Step::LowerTtl { to }
        } else {
            Step::Transmit { to }
        }),
        from is None ==> !(d.forward_step(to, data, from) is LowerTtl),
        from is None ==> d.result_step(RouteResult::Broadcast, data, from) == Step::Broadcast,
{
}

/// When the kernel forwards, everything from peers goes to the device, even
/// what could not be parsed, and only packets from the device are routed.
pub proof fn law_kernel_gets_all_from_peers(d: &Daemon, data: Seq<u8>, from: Option<NodeId>)
    requires
        d.settings.forwarding_mode is Kernel,
        from is Some,
    ensures
        d.after_copies(data, from) == Step::DeliverLocal,
{
}

/// DNS queries are taken from the device only, never from peers, and only by
/// a router.
pub proof fn law_only_own_queries_are_taken(d: &Daemon, data: Seq<u8>, from: Option<NodeId>)
    requires
        d.after_copies(data, from) == Step::InterceptDns,
    ensures
        from is None,
        d.dns is Some,
        d.settings.routing_mode is Router,
        !crate::route::is_arp(data),
{
}

/// A hub sends everything to everybody and learns nothing.
pub proof fn law_hubs_broadcast_everything(d: &Daemon, data: Seq<u8>, from: Option<NodeId>)
    requires
        d.settings.routing_mode is Hub,
        !(d.settings.forwarding_mode is Kernel && from is Some),
    ensures
        d.after_copies(data, from) == Step::Broadcast || d.after_copies(data, from)
            == Step::LowerBroadcastTtl,
{
}

/// What is for this node is delivered, whatever forwarding is set to.
pub proof fn law_own_mail_is_delivered(d: &Daemon, data: Seq<u8>, from: Option<NodeId>)
    ensures
        d.result_step(RouteResult::Forward { to: d.myself }, data, from) == Step::DeliverLocal,
{
}

/// Nobody is told that a broadcast has run out of time to live; the sender of
/// a packet with one destination is.
pub proof fn law_expired_broadcasts_are_silent(to: NodeId, ttl: TtlResult)
    ensures
        crate::route::after_broadcast_ttl(ttl) is Drop || crate::route::after_broadcast_ttl(ttl)
            == Step::Broadcast,
        ttl matches TtlResult::SendIcmp { icmp_type, icmp_code } ==> {
            &&& crate::route::after_broadcast_ttl(ttl) is Drop
            &&& crate::route::after_forward_ttl(to, ttl) == Step::EmitIcmp(
                IcmpKind::Unreach { t: icmp_type, c: icmp_code, discover_src: true },
            )
        },
{
}

/// Every receiver of a broadcast gets one copy, in order, counted before it
/// is sent.
pub proof fn law_every_receiver_gets_one_copy(targets: Seq<NodeId>, len: usize)
    ensures
        crate::broadcast::broadcast_actions(targets, len).len() == 3 * targets.len(),
        forall|i: int|
            0 <= i < targets.len() ==> {
                &&& crate::broadcast::broadcast_actions(targets, len)[3 * i]
                    == (TxAction::CountOut { to: #[trigger] targets[i], bytes: len })
                &&& crate::broadcast::broadcast_actions(targets, len)[3 * i + 1]
                    == (TxAction::SendPacket { to: targets[i] })
                &&& crate::broadcast::broadcast_actions(targets, len)[3 * i + 2]
                    == (TxAction::TryTx { to: targets[i] })
            },
    decreases targets.len(),
{
    if targets.len() > 0 {
        let front = targets.drop_last();
        law_every_receiver_gets_one_copy(front, len);
        let all = crate::broadcast::broadcast_actions(targets, len);
        let rest = crate::broadcast::broadcast_actions(front, len);
        assert forall|i: int| 0 <= i < targets.len() implies {
            &&& all[3 * i] == (TxAction::CountOut { to: #[trigger] targets[i], bytes: len })
            &&& all[3 * i + 1] == (TxAction::SendPacket { to: targets[i] })
            &&& all[3 * i + 2] == (TxAction::TryTx { to: targets[i] })
        } by {
            if i < front.len() {
                assert(front[i] == targets[i]);
                assert(all[3 * i] == rest[3 * i]);
                assert(all[3 * i + 1] == rest[3 * i + 1]);
                assert(all[3 * i + 2] == rest[3 * i + 2]);
            }
        }
    }
}

/// A split packet is counted and sent piece by piece, and discovery is driven
/// once, between the two.
pub proof fn law_fragments_are_counted_then_sent(to: NodeId, lens: Seq<usize>)
    requires
        lens.len() <= usize::MAX,
    ensures
        crate::route::fragment_actions(to, lens).len() == 2 * lens.len() + 1,
        crate::route::fragment_actions(to, lens)[lens.len() as int] == (TxAction::TryTx { to }),
        forall|i: int|
            0 <= i < lens.len() ==> {
                &&& crate::route::fragment_actions(to, lens)[i] == (TxAction::CountOut {
                    to,
                    bytes: #[trigger] lens[i],
                })
                &&& crate::route::fragment_actions(to, lens)[lens.len() + 1 + i]
                    == (TxAction::SendFragment { to, index: i as usize })
            },
{
}

/// What the spanning tree chooses from is exactly the active connections to
/// known nodes with an edge.
pub proof fn law_tree_candidates_are_the_active_edges(
    d: &Daemon,
    conns: Seq<Conn>,
    candidate: ActiveConn,
)
    ensures
        d.active_conns(conns).contains(candidate) <==> exists|i: int|
            0 <= i < conns.len() && (#[trigger] conns[i]).id == candidate.conn && d.edge_of(conns[i])
                == Some(candidate.edge),
    decreases conns.len(),
{
    if conns.len() > 0 {
        let front = conns.drop_last();
        let list = d.active_conns(front);
        law_tree_candidates_are_the_active_edges(d, front, candidate);
        let all = d.active_conns(conns);
        if all.contains(candidate) {
            let k = choose|k: int| 0 <= k < all.len() && all[k] == candidate;
            if k < list.len() {
                assert(list[k] == candidate);
                let i = choose|i: int|
                    0 <= i < front.len() && (#[trigger] front[i]).id == candidate.conn && d.edge_of(
                        front[i],
                    ) == Some(candidate.edge);
                assert(conns[i] == front[i]);
            } else {
                assert(conns[conns.len() - 1].id == candidate.conn);
            }
        }
        if exists|i: int|
            0 <= i < conns.len() && (#[trigger] conns[i]).id == candidate.conn && d.edge_of(conns[i])
                == Some(candidate.edge) {
            let i = choose|i: int|
                0 <= i < conns.len() && (#[trigger] conns[i]).id == candidate.conn && d.edge_of(
                    conns[i],
                ) == Some(candidate.edge);
            if i < front.len() {
                assert(front[i] == conns[i]);
                assert(list.contains(candidate));
                let k = choose|k: int| 0 <= k < list.len() && list[k] == candidate;
                assert(all[k] == candidate);
            } else {
                assert(all.last() == candidate);
            }
        }
    }
}

/// An address that was learned is this node's, and no other changes hands.
pub proof fn law_learned_addresses_are_ours(
    before: &Daemon,
    after: &Daemon,
    mac: [u8; 6],
    other: [u8; 6],
)
    requires
        after.mac_taken_over(before, mac),
    ensures
        after.owns_mac(mac),
        other@ != mac@ ==> after.owns_mac(other) == before.owns_mac(other),
{
    if other@ != mac@ {
        if crate::mac::mac_value(other) == crate::mac::mac_value(mac) {
            crate::mac::law_mac_keys_are_distinct(other, mac);
        }
    }
}

/// A node goes by its name: where no name occurs twice, looking one up finds
/// the node that bears it, wherever it stands, and finds nothing else.
pub proof fn law_names_are_found(d: &Daemon, name: Seq<char>, id: NodeId)
    requires
        d.wf(),
    ensures
        d.named(name) == Some(id) <==> exists|i: int|
            0 <= i < d.node_ids@.len() && (#[trigger] d.node_ids@[i]).name@ == name
                && d.node_ids@[i].id == id,
{
    lemma_found_by_name(d.node_ids@, name);
}

proof fn lemma_found_by_name(entries: Seq<NamedNode>, name: Seq<char>)
    ensures
        match crate::daemon::find_name(entries, name) {
            Some(id) => exists|i: int|
                0 <= i < entries.len() && (#[trigger] entries[i]).name@ == name && entries[i].id
                    == id,
            None => forall|i: int| 0 <= i < entries.len() ==> (#[trigger] entries[i]).name@ != name,
        },
    decreases entries.len(),
{
    if entries.len() > 0 && entries[0].name@ != name {
        let rest = entries.drop_first();
        lemma_found_by_name(rest, name);
        match crate::daemon::find_name(rest, name) {
            Some(id) => {
                let i = choose|i: int|
                    0 <= i < rest.len() && (#[trigger] rest[i]).name@ == name && rest[i].id == id;
                assert(entries[i + 1] == rest[i]);
            },
            None => {
                assert forall|i: int| 0 <= i < entries.len() implies (
                #[trigger] entries[i]).name@ != name by {
                    if i > 0 {
                        assert(rest[i - 1] == entries[i]);
                    }
                }
            },
        }
    }
}

/// Where no connection occurs twice, looking one up finds its place.
pub proof fn law_connections_are_found(d: &Daemon, at: int)
    requires
        d.wf(),
        0 <= at < d.conns@.len(),
    ensures
        crate::daemon::find_conn(d.conns@, d.conns@[at].id) == Some(at),
{
    lemma_found_by_id(d.conns@, at);
}

proof fn lemma_found_by_id(conns: Seq<Conn>, at: int)
    requires
        0 <= at < conns.len(),
        forall|i: int, j: int| 0 <= i < j < conns.len() ==> conns[i].id != conns[j].id,
    ensures
        crate::daemon::find_conn(conns, conns[at].id) == Some(at),
    decreases conns.len(),
{
    if at < conns.len() - 1 {
        lemma_found_by_id(conns.drop_last(), at);
    }
}

/// Neither copying packets nor learning addresses makes a name or a
/// connection occur twice.
pub proof fn law_tables_stay_free_of_doubles(
    before: &Daemon,
    after: &Daemon,
    now: Instant,
    mac: [u8; 6],
)
    requires
        before.wf(),
        after.pcap_updated(before, now) || after.mac_taken_over(before, mac),
    ensures
        after.wf(),
{
    if after.pcap_updated(before, now) {
        assert forall|i: int, j: int| 0 <= i < j < after.conns@.len() implies after.conns@[i].id
            != after.conns@[j].id by {
            assert(before.conns@[i].id != before.conns@[j].id);
        }
    }
}

} // verus!
