//! Broadcasts: who gets a copy.
//!
//! Which of the offered connections and nodes are taken is for the spanning
//! tree and the routing table to say; here it is decided what they are
//! offered, and what is done with those that they name.
use crate::daemon::{BroadcastMode, Conn, ConnId, Daemon, EdgeId, NamedNode, NodeId, Route};
use crate::route::TxAction;
use vstd::prelude::*;

verus! {

/// A connection with the edge that it stands for.
#[derive(Debug, Clone, Copy, PartialEq, Eq, Structural)]
pub struct ActiveConn {
    pub conn: ConnId,
    pub edge: EdgeId,
}

/// A reachable node with the way to it.
#[derive(Debug, Clone, Copy, PartialEq, Eq, Structural)]
pub struct ReachedNode {
    pub id: NodeId,
    pub via: NodeId,
    pub nexthop: NodeId,
}

/// What happened since the last step with a broadcast.
#[derive(Debug, PartialEq, Eq)]
pub enum BroadcastEvent {
    /// Nothing yet.
    Start,
    /// It was written to the device.
    Echoed,
    /// The connections whose edges are in the spanning tree, but not the one
    /// it came by.
    ChosenConns(Vec<ConnId>),
    /// The nodes that are one hop away.
    ChosenNodes(Vec<NodeId>),
}

/// What to do next with a broadcast.
#[derive(Debug, PartialEq, Eq)]
pub enum BroadcastStep {
    /// Write it to the device. Brings `Echoed`.
    Echo,
    /// Choose from these connections by the spanning tree. Brings
    /// `ChosenConns`.
    ChooseTree { active: Vec<ActiveConn>, from_conn: Option<ConnId> },
    /// Choose from these nodes by their distance. Brings `ChosenNodes`.
    ChooseOneHop { nodes: Vec<ReachedNode>, from_is_self: bool },
    /// Do this in order. That ends it.
    Send(Vec<TxAction>),
    /// It goes no further.
    Done,
}

/// Each receiver in turn: its copy is counted and sent, then discovery is
/// driven.
pub open spec fn broadcast_actions(targets: Seq<NodeId>, len: usize) -> Seq<TxAction>
    decreases targets.len(),
{
    if targets.len() == 0 {
        seq![]
    } else {
        let to = targets.last();
        broadcast_actions(targets.drop_last(), len) + seq![
            TxAction::CountOut { to, bytes: len },
            TxAction::SendPacket { to },
            TxAction::TryTx { to },
        ]
    }
}

/// Sends a broadcast of `len` bytes to the receivers. Broadcasts bypass all
/// that is decided about packets with one destination.
pub fn send_broadcast(targets: &Vec<NodeId>, len: usize) -> (r: Vec<TxAction>)
    ensures
        r@ == broadcast_actions(targets@, len),
{
    let mut out: Vec<TxAction> = Vec::new();
    let mut i: usize = 0;
    while i < targets.len()
        invariant
            i <= targets@.len(),
            out@ == broadcast_actions(targets@.take(i as int), len),
        decreases targets@.len() - i,
    {
        let to: NodeId = targets[i];
        let ghost before = out@;
        out.push(TxAction::CountOut { to, bytes: len });
        out.push(TxAction::SendPacket { to });
        out.push(TxAction::TryTx { to });
        proof {
            assert(targets@.take(i + 1).drop_last() == targets@.take(i as int));
            assert(targets@.take(i + 1).last() == to);
            assert(out@ == before + seq![
                TxAction::CountOut { to, bytes: len },
                TxAction::SendPacket { to },
                TxAction::TryTx { to },
            ]);
        }
        i = i + 1;
    }
    assert(targets@.take(i as int) == targets@);
    out
}

impl Daemon {
    /// The edge that a connection stands for: that of the node at its other
    /// end, once it is active.
    pub open spec fn edge_of(&self, conn: Conn) -> Option<EdgeId> {
        if !conn.active {
            None
        } else {
            match self.named(conn.name@) {
                Some(id) => match self.state_of(id) {
                    Some(state) => state.edge,
                    None => None,
                },
                None => None,
            }
        }
    }

    /// The connections that stand for an edge, in order.
    pub open spec fn active_conns(&self, conns: Seq<Conn>) -> Seq<ActiveConn>
        decreases conns.len(),
    {
        if conns.len() == 0 {
            seq![]
        } else {
            let front = self.active_conns(conns.drop_last());
            match self.edge_of(conns.last()) {
                Some(edge) => front.push(ActiveConn { conn: conns.last().id, edge }),
                None => front,
            }
        }
    }

    /// The connection that a packet from a node came by: that of the first
    /// node on the way to it.
    pub open spec fn conn_towards(&self, id: NodeId) -> Option<ConnId> {
        match self.route_to(id) {
            Some(route) => match self.state_of(route.nexthop) {
                Some(state) => state.conn,
                None => None,
            },
            None => None,
        }
    }

    /// The nodes with a route, in order.
    pub open spec fn reached_nodes(&self, entries: Seq<NamedNode>) -> Seq<ReachedNode>
        decreases entries.len(),
    {
        if entries.len() == 0 {
            seq![]
        } else {
            let front = self.reached_nodes(entries.drop_last());
            let id = entries.last().id;
            match self.route_to(id) {
                Some(route) => front.push(
                    ReachedNode { id, via: route.via, nexthop: route.nexthop },
                ),
                None => front,
            }
        }
    }

    fn active_list(&self) -> (r: Vec<ActiveConn>)
        ensures
            r@ == self.active_conns(self.conns@),
    {
        let mut out: Vec<ActiveConn> = Vec::new();
        let mut i: usize = 0;
        while i < self.conns.len()
            invariant
                i <= self.conns@.len(),
                out@ == self.active_conns(self.conns@.take(i as int)),
            decreases self.conns@.len() - i,
        {
            assert(self.conns@.take(i + 1).drop_last() == self.conns@.take(i as int));
            assert(self.conns@.take(i + 1).last() == self.conns@[i as int]);
            if self.conns[i].active {
                match self.node_named(&self.conns[i].name) {
                    Some(id) => match self.node_state(id) {
                        Some(state) => match state.edge {
                            Some(edge) => {
                                out.push(ActiveConn { conn: self.conns[i].id, edge });
                            },
                            None => {},
                        },
                        None => {},
                    },
                    None => {},
                }
            }
            i = i + 1;
        }
        assert(self.conns@.take(i as int) == self.conns@);
        out
    }

    fn reached_list(&self) -> (r: Vec<ReachedNode>)
        ensures
            r@ == self.reached_nodes(self.node_ids@),
    {
        let mut out: Vec<ReachedNode> = Vec::new();
        let mut i: usize = 0;
        while i < self.node_ids.len()
            invariant
                i <= self.node_ids@.len(),
                out@ == self.reached_nodes(self.node_ids@.take(i as int)),
            decreases self.node_ids@.len() - i,
        {
            assert(self.node_ids@.take(i + 1).drop_last() == self.node_ids@.take(i as int));
            assert(self.node_ids@.take(i + 1).last() == self.node_ids@[i as int]);
            let id: NodeId = self.node_ids[i].id;
            let route: Option<Route> = self.route_of(id);
            match route {
                Some(way) => {
                    out.push(ReachedNode { id, via: way.via, nexthop: way.nexthop });
                },
                None => {},
            }
            i = i + 1;
        }
        assert(self.node_ids@.take(i as int) == self.node_ids@);
        out
    }

    /// Broadcasts do not go to other nodes.
    pub open spec fn broadcasts_stay(&self) -> bool {
        self.settings.tunnelserver || self.settings.broadcast_mode is Never
    }

    /// The step in which receivers are chosen: from the active connections or
    /// from the nodes with a route, or not at all.
    pub open spec fn chooses(&self, from: Option<NodeId>, step: BroadcastStep) -> bool {
        if self.broadcasts_stay() {
            step is Done
        } else if self.settings.broadcast_mode is Mst {
            step matches BroadcastStep::ChooseTree { active, from_conn } && active@
                == self.active_conns(self.conns@) && from_conn == (match from {
                Some(id) => self.conn_towards(id),
                None => None,
            })
        } else {
            step matches BroadcastStep::ChooseOneHop { nodes, from_is_self } && nodes@
                == self.reached_nodes(self.node_ids@) && from_is_self == from is None
        }
    }

    fn choice(&self, from: Option<NodeId>) -> (r: BroadcastStep)
        ensures
            self.chooses(from, r),
    {
        if self.settings.tunnelserver {
            return BroadcastStep::Done;
        }
        match self.settings.broadcast_mode {
            BroadcastMode::Never => BroadcastStep::Done,
            BroadcastMode::Mst => {
                let from_conn: Option<ConnId> = match from {
                    Some(id) => match self.route_of(id) {
                        Some(route) => match self.node_state(route.nexthop) {
                            Some(state) => state.conn,
                            None => None,
                        },
                        None => None,
                    },
                    None => None,
                };
                BroadcastStep::ChooseTree { active: self.active_list(), from_conn }
            },
            BroadcastMode::Direct => BroadcastStep::ChooseOneHop {
                nodes: self.reached_list(),
                from_is_self: from.is_none(),
            },
        }
    }

    /// The step with a broadcast of `len` bytes that follows from an event:
    /// one from a peer is echoed first; then receivers are chosen; then each
    /// of them gets its copy.
    pub open spec fn broadcast_follows(
        &self,
        event: BroadcastEvent,
        len: usize,
        from: Option<NodeId>,
        step: BroadcastStep,
    ) -> bool {
        match event {
            BroadcastEvent::Start => if from is Some {
                step is Echo
            } else {
                self.chooses(from, step)
            },
            BroadcastEvent::Echoed => self.chooses(from, step),
            BroadcastEvent::ChosenConns(chosen) => step matches BroadcastStep::Send(actions)
                && actions@ == broadcast_actions(self.peers_of(chosen@), len),
            BroadcastEvent::ChosenNodes(chosen) => step matches BroadcastStep::Send(actions)
                && actions@ == broadcast_actions(chosen@, len),
        }
    }

    /// One step with a broadcast of `len` bytes. One from a peer is for this
    /// node too. It goes no further if that is switched off, or if only direct
    /// edges are known here.
    pub fn broadcast_packet(&self, event: BroadcastEvent, len: usize, from: Option<NodeId>) -> (r:
        BroadcastStep)
        ensures
            self.broadcast_follows(event, len, from, r),
    {
        match event {
            BroadcastEvent::Start => if from.is_some() {
                BroadcastStep::Echo
            } else {
                self.choice(from)
            },
            BroadcastEvent::Echoed => self.choice(from),
            BroadcastEvent::ChosenConns(chosen) => BroadcastStep::Send(
                send_broadcast(&self.tree_targets(&chosen), len),
            ),
            BroadcastEvent::ChosenNodes(chosen) => BroadcastStep::Send(
                send_broadcast(&chosen, len),
            ),
        }
    }

    /// The node at the other end of a connection.
    pub open spec fn peer_of(&self, conn: ConnId) -> Option<NodeId> {
        match crate::daemon::find_conn(self.conns@, conn) {
            Some(i) => self.named(self.conns@[i].name@),
            None => None,
        }
    }

    /// The nodes at the other ends of the connections, in order, as far as
    /// they are known.
    pub open spec fn peers_of(&self, conns: Seq<ConnId>) -> Seq<NodeId>
        decreases conns.len(),
    {
        if conns.len() == 0 {
            seq![]
        } else {
            let front = self.peers_of(conns.drop_last());
            match self.peer_of(conns.last()) {
                Some(id) => front.push(id),
                None => front,
            }
        }
    }

    /// The nodes at the other ends of the connections that the spanning tree
    /// has chosen.
    pub fn tree_targets(&self, chosen: &Vec<ConnId>) -> (r: Vec<NodeId>)
        ensures
            r@ == self.peers_of(chosen@),
    {
        let mut out: Vec<NodeId> = Vec::new();
        let mut i: usize = 0;
        while i < chosen.len()
            invariant
                i <= chosen@.len(),
                out@ == self.peers_of(chosen@.take(i as int)),
            decreases chosen@.len() - i,
        {
            assert(chosen@.take(i + 1).drop_last() == chosen@.take(i as int));
            assert(chosen@.take(i + 1).last() == chosen@[i as int]);
            match self.conn_index(chosen[i]) {
                Some(at) => match self.node_named(&self.conns[at].name) {
                    Some(id) => {
                        out.push(id);
                    },
                    None => {},
                },
                None => {},
            }
            i = i + 1;
        }
        assert(chosen@.take(i as int) == chosen@);
        out
    }
}

} // verus!
