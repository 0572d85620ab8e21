//! DNS queries from the device that are answered here.
//!
//! No socket is bound: a query to a configured address is taken from the
//! device and its answer written back. Recognising and answering queries
//! happens elsewhere; here it is decided in which order that is tried and
//! what becomes of the packet.
use crate::daemon::{Daemon, DnsConfig};
use vstd::prelude::*;

verus! {

/// What happened since the last step with a packet that may be a query.
#[derive(Debug, Clone, Copy, PartialEq, Eq, Structural)]
pub enum DnsEvent {
    /// Nothing yet.
    Start,
    /// Whether it is a query to the IPv4 address.
    MatchedV4(bool),
    /// Whether it is a query to the IPv6 address.
    MatchedV6(bool),
    /// Whether the query to the IPv4 address has an answer.
    AnsweredV4(bool),
    /// Whether the query to the IPv6 address has an answer.
    AnsweredV6(bool),
}

/// What to do next with it.
#[derive(Debug, Clone, Copy, PartialEq, Eq, Structural)]
pub enum DnsStep {
    /// See whether it is a query to this IPv4 address.
    MatchV4(u32),
    /// See whether it is a query to this IPv6 address.
    MatchV6(u128),
    /// Look for the answer to the IPv4 query.
    AnswerV4,
    /// Look for the answer to the IPv6 query.
    AnswerV6,
    /// Write the answer to the device, from this IPv4 address. That ends it.
    WriteV4(u32),
    /// Write the answer to the device, from this IPv6 address. That ends it.
    WriteV6(u128),
    /// Drop it: a query, but one without an answer. Were it routed, the
    /// kernel would report the port as closed and show that something is
    /// there.
    Swallow,
    /// Not a query to either address: route it.
    Pass,
}

/// The step that tries the IPv6 address, if there is one.
pub open spec fn try_v6(config: DnsConfig) -> DnsStep {
    match config.dns_addr6 {
        Some(addr) => DnsStep::MatchV6(addr),
        None => DnsStep::Pass,
    }
}

/// The next step with a packet that may be a query.
pub open spec fn dns_step(config: DnsConfig, event: DnsEvent) -> DnsStep {
    match event {
        DnsEvent::Start => match config.dns_addr4 {
            Some(addr) => DnsStep::MatchV4(addr),
            None => try_v6(config),
        },
        DnsEvent::MatchedV4(hit) => if hit {
            DnsStep::AnswerV4
        } else {
            try_v6(config)
        },
        DnsEvent::MatchedV6(hit) => if hit {
            DnsStep::AnswerV6
        } else {
            DnsStep::Pass
        },
        DnsEvent::AnsweredV4(found) => match config.dns_addr4 {
            Some(addr) if found => DnsStep::WriteV4(addr),
            _ => DnsStep::Swallow,
        },
        DnsEvent::AnsweredV6(found) => match config.dns_addr6 {
            Some(addr) if found => DnsStep::WriteV6(addr),
            _ => DnsStep::Swallow,
        },
    }
}

/// The packet is not routed.
pub open spec fn intercepted(step: DnsStep) -> bool {
    step is WriteV4 || step is WriteV6 || step is Swallow
}

/// Whether a last step means that the packet is not to be routed.
pub fn dns_hit(step: DnsStep) -> (r: bool)
    ensures
        r == intercepted(step),
{
    matches!(step, DnsStep::WriteV4(_) | DnsStep::WriteV6(_) | DnsStep::Swallow)
}

impl Daemon {
    /// One step with a packet from the device that may be a DNS query, when
    /// queries are answered at all. The IPv4 address is tried first.
    pub fn try_dns_intercept(&self, event: DnsEvent) -> (r: DnsStep)
        requires
            self.dns is Some,
            event is AnsweredV4 ==> self.dns->Some_0.dns_addr4 is Some,
            event is AnsweredV6 ==> self.dns->Some_0.dns_addr6 is Some,
        ensures
            r == dns_step(self.dns->Some_0, event),
    {
        let config: DnsConfig = match self.dns {
            Some(config) => config,
            None => DnsConfig { dns_addr4: None, dns_addr6: None },
        };
        let v6: DnsStep = match config.dns_addr6 {
            Some(addr) => DnsStep::MatchV6(addr),
            None => DnsStep::Pass,
        };
        match event {
            DnsEvent::Start => match config.dns_addr4 {
                Some(addr) => DnsStep::MatchV4(addr),
                None => v6,
            },
            DnsEvent::MatchedV4(hit) => if hit {
                DnsStep::AnswerV4
            } else {
                v6
            },
            DnsEvent::MatchedV6(hit) => if hit {
                DnsStep::AnswerV6
            } else {
                DnsStep::Pass
            },
            DnsEvent::AnsweredV4(found) => match config.dns_addr4 {
                Some(addr) => if found {
                    DnsStep::WriteV4(addr)
                } else {
                    DnsStep::Swallow
                },
                None => DnsStep::Swallow,
            },
            DnsEvent::AnsweredV6(found) => match config.dns_addr6 {
                Some(addr) => if found {
                    DnsStep::WriteV6(addr)
                } else {
                    DnsStep::Swallow
                },
                None => DnsStep::Swallow,
            },
        }
    }
}

/// The last step with a packet, if it is a query to the IPv4 address or not,
/// to the IPv6 address or not, and has an answer or not.
pub open spec fn dns_outcome(config: DnsConfig, v4: bool, v6: bool, answer: bool) -> DnsStep {
    dns_run(config, DnsEvent::Start, v4, v6, answer, 4)
}

/// The last of at most `steps` steps from an event on.
pub open spec fn dns_run(
    config: DnsConfig,
    event: DnsEvent,
    v4: bool,
    v6: bool,
    answer: bool,
    steps: nat,
) -> DnsStep
    decreases steps,
{
    let step = dns_step(config, event);
    if steps == 0 {
        step
    } else {
        match step {
            DnsStep::MatchV4(_) => dns_run(
                config,
                DnsEvent::MatchedV4(v4),
                v4,
                v6,
                answer,
                (steps - 1) as nat,
            ),
            DnsStep::MatchV6(_) => dns_run(
                config,
                DnsEvent::MatchedV6(v6),
                v4,
                v6,
                answer,
                (steps - 1) as nat,
            ),
            DnsStep::AnswerV4 => dns_run(
                config,
                DnsEvent::AnsweredV4(answer),
                v4,
                v6,
                answer,
                (steps - 1) as nat,
            ),
            DnsStep::AnswerV6 => dns_run(
                config,
                DnsEvent::AnsweredV6(answer),
                v4,
                v6,
                answer,
                (steps - 1) as nat,
            ),
            _ => step,
        }
    }
}

/// Every packet comes to an end: a query to a configured address is answered
/// from that address or swallowed, and never routed; anything else is routed.
/// A query to both addresses counts as one to the IPv4 address.
pub proof fn law_queries_end_here(config: DnsConfig, v4: bool, v6: bool, answer: bool)
    ensures
        ({
            let hit4 = config.dns_addr4 is Some && v4;
            let hit6 = config.dns_addr6 is Some && v6;
            let last = dns_outcome(config, v4, v6, answer);
            &&& last == DnsStep::Pass <==> !hit4 && !hit6
            &&& intercepted(last) <==> hit4 || hit6
            &&& last == DnsStep::Swallow <==> (hit4 || hit6) && !answer
            &&& hit4 && answer ==> last == DnsStep::WriteV4(config.dns_addr4->Some_0)
            &&& !hit4 && hit6 && answer ==> last == DnsStep::WriteV6(config.dns_addr6->Some_0)
        }),
{
    reveal_with_fuel(dns_run, 5);
}

} // verus!
