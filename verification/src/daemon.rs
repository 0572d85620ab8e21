//! What the daemon knows of the network, as far as forwarding goes by it.
use crate::clock::Instant;
use std::collections::HashMap;
use vstd::prelude::*;

verus! {

/// A node of the mesh, by its place in the graph.
#[derive(Debug, Clone, Copy, PartialEq, Eq, Structural)]
pub struct NodeId(pub u32);

/// An edge of the graph.
#[derive(Debug, Clone, Copy, PartialEq, Eq, Structural)]
pub struct EdgeId(pub u32);

/// A meta connection.
#[derive(Debug, Clone, Copy, PartialEq, Eq, Structural)]
pub struct ConnId(pub u64);

/// What to do with packets between two other nodes.
#[derive(Debug, Clone, Copy, PartialEq, Eq, Structural)]
pub enum ForwardingMode {
    /// Refuse them.
    Off,
    /// Forward them.
    Internal,
    /// Hand them to the kernel.
    Kernel,
}

/// By what packets are routed.
#[derive(Debug, Clone, Copy, PartialEq, Eq, Structural)]
pub enum RoutingMode {
    /// By nothing: every packet goes everywhere.
    Hub,
    /// By Ethernet address.
    Switch,
    /// By IP address.
    Router,
}

/// How broadcasts spread.
#[derive(Debug, Clone, Copy, PartialEq, Eq, Structural)]
pub enum BroadcastMode {
    /// Not at all.
    Never,
    /// Along the minimum spanning tree.
    Mst,
    /// From the source to every node one hop away.
    Direct,
}

/// The settings that forwarding goes by.
#[derive(Debug, Clone, Copy, PartialEq, Eq, Structural)]
pub struct Settings {
    pub forwarding_mode: ForwardingMode,
    pub routing_mode: RoutingMode,
    pub broadcast_mode: BroadcastMode,
    /// Only direct edges are known here: the spanning tree may have loops.
    pub tunnelserver: bool,
    /// Send to no node through another.
    pub directonly: bool,
    pub decrement_ttl: bool,
    /// Copy the type of service of a packet to the one that carries it.
    pub priorityinheritance: bool,
}

/// How a node is reached.
#[derive(Debug, Clone, Copy, PartialEq, Eq, Structural)]
pub struct Route {
    /// The last node on the way that UDP reaches directly.
    pub via: NodeId,
    /// The first node on the way.
    pub nexthop: NodeId,
    /// Option bits of the way.
    pub options: u32,
}

/// A node in the graph.
#[derive(Debug)]
pub struct GraphNode {
    pub name: String,
    pub reachable: bool,
}

/// A known node name.
#[derive(Debug)]
pub struct NamedNode {
    pub name: String,
    pub id: NodeId,
}

/// What ties a node to this one.
#[derive(Debug, Clone, Copy, PartialEq, Eq, Structural)]
pub struct NodeState {
    pub conn: Option<ConnId>,
    pub edge: Option<EdgeId>,
}

/// A meta connection.
#[derive(Debug)]
pub struct Conn {
    pub id: ConnId,
    /// Name of the node at the other end.
    pub name: String,
    /// The other end is authenticated and its edge known.
    pub active: bool,
    /// A control connection that watches packets.
    pub pcap: bool,
    /// Bytes that the watcher wants of each packet; `0` for all.
    pub pcap_snaplen: u16,
    pub last_ping_time: Instant,
}

/// The addresses at which DNS queries are answered.
#[derive(Debug, Clone, Copy, PartialEq, Eq, Structural)]
pub struct DnsConfig {
    pub dns_addr4: Option<u32>,
    pub dns_addr6: Option<u128>,
}

/// The daemon's state.
#[derive(Debug)]
pub struct Daemon {
    /// This node's name.
    pub name: String,
    pub myself: NodeId,
    pub settings: Settings,
    /// Some connection may be watching packets.
    pub any_pcap: bool,
    pub conns: Vec<Conn>,
    /// Every known name, once.
    pub node_ids: Vec<NamedNode>,
    /// The graph, by [`NodeId`].
    pub graph: Vec<Option<GraphNode>>,
    /// By number of the [`NodeId`].
    pub nodes: HashMap<u32, NodeState>,
    /// The way to each node, by [`NodeId`]; none to unreachable nodes.
    pub last_routes: Vec<Option<Route>>,
    /// The path MTU to each node with a tunnel, by number of the [`NodeId`];
    /// `0` before discovery has measured it.
    pub tunnel_mtus: HashMap<u32, u16>,
    /// Owner of each Ethernet address, by [`crate::mac::mac_key`].
    pub mac_table: HashMap<u64, String>,
    /// It was logged that no more addresses are learned.
    pub mac_cap_warned: bool,
    /// Learned addresses are swept for age.
    pub age_timer_armed: bool,
    pub dns: Option<DnsConfig>,
    /// Type of service for the UDP socket, for the packet under way.
    pub tx_priority: u8,
}

/// The node of that name.
pub open spec fn find_name(entries: Seq<NamedNode>, name: Seq<char>) -> Option<NodeId>
    decreases entries.len(),
{
    if entries.len() == 0 {
        None
    } else if entries[0].name@ == name {
        Some(entries[0].id)
    } else {
        find_name(entries.drop_first(), name)
    }
}

/// The place of the connection with that id.
pub open spec fn find_conn(conns: Seq<Conn>, id: ConnId) -> Option<int>
    decreases conns.len(),
{
    if conns.len() == 0 {
        None
    } else if conns.last().id == id {
        Some(conns.len() - 1)
    } else {
        find_conn(conns.drop_last(), id)
    }
}

impl Daemon {
    /// No name and no connection occurs twice.
    pub open spec fn wf(&self) -> bool {
        &&& forall|i: int, j: int|
            0 <= i < j < self.node_ids@.len() ==> self.node_ids@[i].name@
                != self.node_ids@[j].name@
        &&& forall|i: int, j: int|
            0 <= i < j < self.conns@.len() ==> self.conns@[i].id != self.conns@[j].id
    }

    /// The way to a node.
    pub open spec fn route_to(&self, id: NodeId) -> Option<Route> {
        if id.0 < self.last_routes@.len() {
            self.last_routes@[id.0 as int]
        } else {
            None
        }
    }

    /// The way to a node.
    pub fn route_of(&self, id: NodeId) -> (r: Option<Route>)
        ensures
            r == self.route_to(id),
    {
        let i: usize = id.0 as usize;
        if i < self.last_routes.len() {
            self.last_routes[i]
        } else {
            None
        }
    }

    /// The node of that name.
    pub open spec fn named(&self, name: Seq<char>) -> Option<NodeId> {
        find_name(self.node_ids@, name)
    }

    /// The node of that name.
    pub fn node_named(&self, name: &String) -> (r: Option<NodeId>)
        ensures
            r == self.named(name@),
    {
        let mut i: usize = 0;
        assert(self.node_ids@.skip(0) == self.node_ids@);
        while i < self.node_ids.len()
            invariant
                i <= self.node_ids@.len(),
                find_name(self.node_ids@, name@) == find_name(
                    self.node_ids@.skip(i as int),
                    name@,
                ),
            decreases self.node_ids@.len() - i,
        {
            if self.node_ids[i].name == *name {
                return Some(self.node_ids[i].id);
            }
            assert(self.node_ids@.skip(i as int).drop_first() == self.node_ids@.skip(i + 1));
            i = i + 1;
        }
        None
    }

    /// A node is in the graph and reachable. This node always is.
    pub open spec fn reachable(&self, id: NodeId) -> bool {
        id.0 < self.graph@.len() && self.graph@[id.0 as int] is Some
            && self.graph@[id.0 as int]->Some_0.reachable
    }

    /// The node of that name, if it can be reached.
    pub open spec fn reachable_named(&self, name: Seq<char>) -> Option<NodeId> {
        match self.named(name) {
            Some(id) => if self.reachable(id) {
                Some(id)
            } else {
                None
            },
            None => None,
        }
    }

    /// The node of that name, if it can be reached. Packets for an owner that
    /// cannot be reached are unreachable rather than forwarded.
    pub fn reachable_node(&self, name: &String) -> (r: Option<NodeId>)
        ensures
            r == self.reachable_named(name@),
    {
        match self.node_named(name) {
            Some(id) => {
                let i: usize = id.0 as usize;
                if i < self.graph.len() {
                    match &self.graph[i] {
                        Some(node) => if node.reachable {
                            Some(id)
                        } else {
                            None
                        },
                        None => None,
                    }
                } else {
                    None
                }
            },
            None => None,
        }
    }

    /// The place of the connection with that id.
    pub fn conn_index(&self, id: ConnId) -> (r: Option<usize>)
        ensures
            r is Some <==> find_conn(self.conns@, id) is Some,
            r is Some ==> find_conn(self.conns@, id) == Some(r->Some_0 as int)
                && r->Some_0 < self.conns@.len(),
    {
        let mut i: usize = self.conns.len();
        assert(self.conns@.take(i as int) == self.conns@);
        while i > 0
            invariant
                i <= self.conns@.len(),
                find_conn(self.conns@, id) == find_conn(self.conns@.take(i as int), id),
            decreases i,
        {
            i = i - 1;
            assert(self.conns@.take(i + 1).last() == self.conns@[i as int]);
            assert(self.conns@.take(i + 1).drop_last() == self.conns@.take(i as int));
            if self.conns[i].id == id {
                return Some(i);
            }
        }
        None
    }

    /// The path MTU of a node's tunnel: the link ceiling until there is one.
    pub open spec fn mtu_of(&self, id: NodeId) -> u16 {
        if self.tunnel_mtus@.dom().contains(id.0) {
            self.tunnel_mtus@[id.0]
        } else {
            crate::pmtu::MTU
        }
    }

    /// The path MTU of a node's tunnel.
    pub fn tunnel_mtu(&self, id: NodeId) -> (r: u16)
        ensures
            r == self.mtu_of(id),
    {
        broadcast use vstd::std_specs::hash::group_hash_axioms;

        match self.tunnel_mtus.get(&id.0) {
            Some(mtu) => *mtu,
            None => crate::pmtu::MTU,
        }
    }

    /// What ties a node to this one.
    pub open spec fn state_of(&self, id: NodeId) -> Option<NodeState> {
        if self.nodes@.dom().contains(id.0) {
            Some(self.nodes@[id.0])
        } else {
            None
        }
    }

    /// What ties a node to this one.
    pub fn node_state(&self, id: NodeId) -> (r: Option<NodeState>)
        ensures
            r == self.state_of(id),
    {
        broadcast use vstd::std_specs::hash::group_hash_axioms;

        match self.nodes.get(&id.0) {
            Some(state) => Some(*state),
            None => None,
        }
    }
}

} // verus!
