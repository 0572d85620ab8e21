//! Switching: Ethernet addresses that were seen on the device.
use crate::daemon::{ConnId, Daemon, NodeId};
use vstd::prelude::*;

verus! {

/// Addresses that are learned at most.
pub const MAX_MAC_LEASES: usize = 4096;

/// Weight of the subnet that a learned address becomes.
pub const MAC_SUBNET_WEIGHT: i32 = 10;

/// What the source address of a frame calls for.
#[derive(Debug, Clone, Copy, PartialEq, Eq)]
pub enum LearnAction {
    /// Nothing: the frame is not from the device.
    NotOurs,
    /// The address has no owner yet.
    New([u8; 6]),
    /// The address has an owner, this node or another.
    Refresh([u8; 6]),
}

/// One thing to do about a learned address.
#[derive(Debug, Clone, Copy, PartialEq, Eq)]
pub enum MacAction {
    /// It is known here already: put off its expiry.
    RefreshLease { mac: [u8; 6] },
    /// Log that no more addresses are learned.
    WarnTableFull,
    /// Log that it is new.
    LogLearned { mac: [u8; 6] },
    /// Add it to this node's subnets.
    AddSubnet { mac: [u8; 6], weight: i32 },
    /// Show the senders the changed subnets.
    RefreshSnapshot,
    /// Run the script for a subnet that came up.
    RunSubnetScript { mac: [u8; 6] },
    /// Start its lease, then [`Daemon::mac_lease_started`].
    StartLease { mac: [u8; 6] },
    /// Tell a connection of the new subnet.
    SendAddSubnet { conn: ConnId, mac: [u8; 6], weight: i32 },
    /// Start sweeping for old addresses.
    ArmAgeTimer,
}

/// The number that an address stands for, as a key.
pub open spec fn mac_value(mac: [u8; 6]) -> int {
    ((((mac@[0] * 256 + mac@[1]) * 256 + mac@[2]) * 256 + mac@[3]) * 256 + mac@[4]) * 256 + mac@[5]
}

/// The key of an address in [`Daemon::mac_table`].
pub fn mac_key(mac: &[u8; 6]) -> (r: u64)
    ensures
        r == mac_value(*mac),
{
    ((((mac[0] as u64 * 256 + mac[1] as u64) * 256 + mac[2] as u64) * 256 + mac[3] as u64) * 256
        + mac[4] as u64) * 256 + mac[5] as u64
}

/// Two addresses never share a key.
pub proof fn law_mac_keys_are_distinct(a: [u8; 6], b: [u8; 6])
    requires
        mac_value(a) == mac_value(b),
    ensures
        a@ == b@,
{
    assert(a@[5] == b@[5] && a@[4] == b@[4] && a@[3] == b@[3] && a@[2] == b@[2] && a@[1] == b@[1]
        && a@[0] == b@[0]);
    assert(a@ =~= b@);
}

/// What is done when an address is learned, up to its lease.
pub open spec fn learn_actions(mac: [u8; 6]) -> Seq<MacAction> {
    seq![
        MacAction::LogLearned { mac },
        MacAction::AddSubnet { mac, weight: MAC_SUBNET_WEIGHT },
        MacAction::RefreshSnapshot,
        MacAction::RunSubnetScript { mac },
        MacAction::StartLease { mac },
    ]
}

/// What is done once the lease of a learned address runs: everybody is told,
/// then the sweep is started if it is not running.
pub open spec fn announce_actions(mac: [u8; 6], targets: Seq<ConnId>, arm: bool) -> Seq<MacAction> {
    let told = Seq::new(
        targets.len(),
        |i: int|
            MacAction::SendAddSubnet { conn: targets[i], mac, weight: MAC_SUBNET_WEIGHT },
    );
    if arm {
        told.push(MacAction::ArmAgeTimer)
    } else {
        told
    }
}

impl Daemon {
    /// An address belongs to this node.
    pub open spec fn owns_mac(&self, mac: [u8; 6]) -> bool {
        let key = mac_value(mac) as u64;
        self.mac_table@.dom().contains(key) && self.mac_table@[key]@ == self.name@
    }

    /// The table of addresses as it was, but for one that is now this node's.
    pub open spec fn mac_taken_over(&self, before: &Daemon, mac: [u8; 6]) -> bool {
        let key = mac_value(mac) as u64;
        &&& self.mac_table@.dom() == before.mac_table@.dom().insert(key)
        &&& self.mac_table@[key]@ == before.name@
        &&& forall|k: u64|
            k != key && #[trigger] before.mac_table@.dom().contains(k) ==> self.mac_table@[k]
                == before.mac_table@[k]
        &&& *self == (Daemon { mac_table: self.mac_table, ..*before })
    }

    /// The state after an address was to be learned, while `leases` addresses
    /// were learned already, and what is done about it.
    pub open spec fn learned(
        &self,
        before: &Daemon,
        mac: [u8; 6],
        leases: usize,
        actions: Seq<MacAction>,
    ) -> bool {
        &&& leases >= MAX_MAC_LEASES ==> {
            &&& *self == (Daemon { mac_cap_warned: true, ..*before })
            &&& actions == (if before.mac_cap_warned {
                Seq::empty()
            } else {
                seq![MacAction::WarnTableFull]
            })
        }
        &&& leases < MAX_MAC_LEASES ==> {
            &&& self.mac_taken_over(before, mac)
            &&& actions == learn_actions(mac)
        }
    }

    /// The state after a frame's source address was followed up on, and what
    /// is done about it.
    pub open spec fn followed_up(
        &self,
        before: &Daemon,
        learn: LearnAction,
        leases: usize,
        actions: Seq<MacAction>,
    ) -> bool {
        match learn {
            LearnAction::NotOurs => *self == *before && actions.len() == 0,
            LearnAction::Refresh(mac) if before.owns_mac(mac) => *self == *before && actions
                == seq![MacAction::RefreshLease { mac }],
            LearnAction::New(mac) | LearnAction::Refresh(mac) => self.learned(
                before,
                mac,
                leases,
                actions,
            ),
        }
    }

    /// What is done once a lease was started: the connections are told, and
    /// the sweep is armed for the first one.
    pub open spec fn lease_actions(
        self,
        mac: [u8; 6],
        targets: Seq<ConnId>,
        was_empty: bool,
    ) -> Seq<MacAction> {
        announce_actions(mac, targets, was_empty && !self.age_timer_armed)
    }

    /// The state after a lease was started.
    pub open spec fn lease_running(self, was_empty: bool) -> Daemon {
        Daemon { age_timer_armed: self.age_timer_armed || was_empty, ..self }
    }

    /// The name of a frame's source: this node's for frames from the device.
    pub open spec fn source_name(&self, from: Option<NodeId>) -> Seq<char> {
        match from {
            None => self.name@,
            Some(id) => if id.0 < self.graph@.len() && self.graph@[id.0 as int] is Some {
                self.graph@[id.0 as int]->Some_0.name@
            } else {
                "<unknown>"@
            },
        }
    }

    /// The name of a frame's source, by which its addresses are looked up.
    pub fn mac_source_name(&self, from: Option<NodeId>) -> (r: String)
        ensures
            r@ == self.source_name(from),
    {
        match from {
            None => self.name.clone(),
            Some(id) => {
                let i: usize = id.0 as usize;
                if i < self.graph.len() {
                    match &self.graph[i] {
                        Some(node) => node.name.clone(),
                        None => "<unknown>".to_owned(),
                    }
                } else {
                    "<unknown>".to_owned()
                }
            },
        }
    }

    /// Learns a source address, while `leases` addresses are learned already.
    /// With a full table it is not learned, which is logged once.
    pub fn learn_mac(&mut self, mac: [u8; 6], leases: usize) -> (r: Vec<MacAction>)
        ensures
            final(self).learned(old(self), mac, leases, r@),
    {
        broadcast use vstd::std_specs::hash::group_hash_axioms;

        let mut out: Vec<MacAction> = Vec::new();
        if leases >= MAX_MAC_LEASES {
            if !self.mac_cap_warned {
                self.mac_cap_warned = true;
                out.push(MacAction::WarnTableFull);
            }
            return out;
        }
        let name: String = self.name.clone();
        self.mac_table.insert(mac_key(&mac), name);
        out.push(MacAction::LogLearned { mac });
        out.push(MacAction::AddSubnet { mac, weight: MAC_SUBNET_WEIGHT });
        out.push(MacAction::RefreshSnapshot);
        out.push(MacAction::RunSubnetScript { mac });
        out.push(MacAction::StartLease { mac });
        assert(out@ == learn_actions(mac));
        out
    }

    /// The lease of a learned address runs. `was_empty`: it is the only one.
    /// `targets`: the connections to tell.
    pub fn mac_lease_started(&mut self, mac: [u8; 6], was_empty: bool, targets: &Vec<ConnId>) -> (r:
        Vec<MacAction>)
        ensures
            *final(self) == old(self).lease_running(was_empty),
            r@ == old(self).lease_actions(mac, targets@, was_empty),
    {
        let mut out: Vec<MacAction> = Vec::new();
        let mut i: usize = 0;
        while i < targets.len()
            invariant
                i <= targets@.len(),
                out@ == Seq::new(
                    i as nat,
                    |j: int|
                        MacAction::SendAddSubnet {
                            conn: targets@[j],
                            mac,
                            weight: MAC_SUBNET_WEIGHT,
                        },
                ),
            decreases targets@.len() - i,
        {
            out.push(
                MacAction::SendAddSubnet { conn: targets[i], mac, weight: MAC_SUBNET_WEIGHT },
            );
            i = i + 1;
            assert(out@ == Seq::new(
                i as nat,
                |j: int|
                    MacAction::SendAddSubnet { conn: targets@[j], mac, weight: MAC_SUBNET_WEIGHT },
            ));
        }
        if was_empty && !self.age_timer_armed {
            out.push(MacAction::ArmAgeTimer);
            self.age_timer_armed = true;
        }
        out
    }

    /// Follows up on a frame's source address. An address that this node has
    /// already is kept alive; one that another node has was moved here, and
    /// is learned like a new one. Where the frame itself goes does not depend
    /// on this.
    pub fn route_packet_mac(&mut self, learn: LearnAction, leases: usize) -> (r: Vec<MacAction>)
        ensures
            final(self).followed_up(old(self), learn, leases, r@),
    {
        broadcast use vstd::std_specs::hash::group_hash_axioms;

        match learn {
            LearnAction::NotOurs => Vec::new(),
            LearnAction::New(mac) => self.learn_mac(mac, leases),
            LearnAction::Refresh(mac) => {
                let key: u64 = mac_key(&mac);
                let ours: bool = match self.mac_table.get(&key) {
                    Some(owner) => *owner == self.name,
                    None => false,
                };
                if ours {
                    let mut out: Vec<MacAction> = Vec::new();
                    out.push(MacAction::RefreshLease { mac });
                    out
                } else {
                    self.learn_mac(mac, leases)
                }
            },
        }
    }
}

} // verus!
