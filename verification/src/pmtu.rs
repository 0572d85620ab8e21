//! Path MTU discovery.
//!
//! Per-node search for the largest UDP datagram that fits without
//! fragmentation. The probe sizes follow an exponential that front-loads
//! sizes near the usual MTU.
//!
//! | [`PmtuPhase`] | What a tick does |
//! |---|---|
//! | `Discovery { sent }` | one probe, exponential offset |
//! | `Fix` | `mtu := minmtu`, then `Steady` |
//! | `Steady` | probes `maxmtu` and `maxmtu + 1` every `pinginterval` |
//! | `Revalidate { misses }` | one `maxmtu` probe a second |
//! | `Lost` | back to `Discovery { sent: 0 }` |
//!
//! Nothing here sends: [`PmtuState::tick`] returns what to send, and the
//! outcome comes back as an event. What the socket reports about a probe
//! (`on_emsgsize`) moves the bounds for the next tick.
use crate::clock::{Duration, Instant};
use crate::rounding::nearest_power;
use vstd::prelude::*;

verus! {

/// 1500 bytes of payload, 14 of Ethernet header, 4 of VLAN tag.
pub const MTU: u16 = 1518;

/// Below this UDP does not count as working.
///
/// [`PmtuState::minmtu`] is always `0` or in `MINMTU..=MTU`. Smaller replies
/// (18-byte keepalives) show that the path is alive but never feed the
/// search, so a dead path cannot settle at a tiny "usable" value.
pub const MINMTU: u16 = 512;

/// Ethernet header (14) and 4 random bytes.
pub const MIN_PROBE_SIZE: u16 = 18;

/// Discovery probes before the search gives up.
pub const DISCOVERY_PROBES: u8 = 20;

/// Between two discovery probes: 333 ms.
pub const PMTU_PROBE_TICK_NANOS: u128 = 333_000_000;

/// Between two revalidation probes: 1 s.
pub const PMTU_REVALIDATE_TICK_NANOS: u128 = 1_000_000_000;

const PROBES_PER_CYCLE: u8 = 8;

/// Phase of the search.
#[derive(Debug, Clone, Copy, PartialEq, Eq, Structural)]
pub enum PmtuPhase {
    /// `sent` probes are out so far; `sent % 8` is the position in the cycle
    /// of probe sizes.
    Discovery { sent: u8 },
    /// Discovery has used up its probes: the next tick locks the MTU in.
    Fix,
    /// The MTU is fixed and confirmed.
    Steady,
    /// `misses` (1 or 2) submitted `maxmtu` probes went unanswered.
    Revalidate { misses: u8 },
    /// Too many misses: the next tick starts over.
    Lost,
}

/// What the daemon has to do.
#[derive(Debug, Clone, Copy, PartialEq, Eq, Structural)]
pub enum PmtuAction {
    /// Send a UDP probe of `len` bytes, at least [`MIN_PROBE_SIZE`].
    /// `counts_miss`: a `maxmtu` probe whose submission is reported by
    /// `on_counted_probe_sent`.
    SendProbe { len: u16, counts_miss: bool },
    /// Log that the MTU was fixed after that many discovery probes.
    LogFixed { mtu: u16, probes: u8 },
    /// Log a decrease of the path MTU.
    LogReset,
    /// Log an increase of the path MTU.
    LogIncrease,
}

/// State of the search for one node.
#[derive(Debug, Clone, Copy, PartialEq, Eq, Structural)]
pub struct PmtuState {
    pub mtu: u16,
    pub minmtu: u16,
    pub maxmtu: u16,
    pub phase: PmtuPhase,
    pub udp_confirmed: bool,
    /// A keepalive probe is outstanding: the next reply measures the RTT.
    pub ping_sent: bool,
    /// A probe was tried in this discovery cycle, submitted or not.
    pub udp_probe_attempted: bool,
    /// The last try, submitted or not.
    pub udp_probe_attempted_at: Instant,
    /// The last keepalive that was submitted.
    pub udp_ping_sent: Instant,
    /// The last authenticated sign that our UDP reached the peer.
    pub udp_reply_rx: Instant,
    pub mtu_ping_sent: Instant,
    pub maxrecentlen: u16,
    /// Round trip in microseconds, once measured.
    pub udp_ping_rtt: Option<u32>,
}

/// A path that carries `len` bytes counts from `MINMTU` on; below, it is
/// unusable.
pub open spec fn usable_size(len: u16) -> u16 {
    if len >= MINMTU {
        len
    } else {
        0
    }
}

/// No peer confirms more than the link can carry.
pub open spec fn clamped(len: u16) -> u16 {
    if len <= MTU {
        len
    } else {
        MTU
    }
}

/// The smallest size that discovery probes.
pub open spec fn probe_floor(minmtu: u16) -> u16 {
    if minmtu >= MINMTU {
        minmtu
    } else {
        MINMTU
    }
}

/// The exponent of a probe, as a fraction: it falls from one to zero over a
/// cycle of eight. While `maxmtu` is the link ceiling it is shortened by 3 %,
/// which puts the first two probes just below the usual MTUs.
pub open spec fn probe_exponent(maxmtu: u16, sent: u8) -> (nat, nat) {
    let position = (7 - sent % 8) as nat;
    if maxmtu == MTU {
        (97 * position, 700)
    } else {
        (position, 7)
    }
}

/// The size of a discovery probe: the floor plus the width of the open
/// interval raised to the probe's exponent.
pub open spec fn probe_len(minmtu: u16, maxmtu: u16, sent: u8) -> int {
    let floor = probe_floor(minmtu);
    let (num, den) = probe_exponent(maxmtu, sent);
    if maxmtu <= floor {
        floor as int
    } else {
        floor + crate::rounding::rounded_power(maxmtu - floor, num, den)
    }
}

/// Probes carry at least their own header.
pub open spec fn probe_sized(len: u16) -> u16 {
    if len >= MIN_PROBE_SIZE {
        len
    } else {
        MIN_PROBE_SIZE
    }
}

fn at_least_probe(len: u16) -> (r: u16)
    ensures
        r == probe_sized(len),
{
    if len >= MIN_PROBE_SIZE {
        len
    } else {
        MIN_PROBE_SIZE
    }
}

/// Size of the next discovery probe.
///
/// Exponential, not linear: probes that are too large vanish silently, so
/// most of them stay near `minmtu`, where replies happen. The last probe of a
/// cycle is one byte above the floor.
pub fn probe_size(minmtu: u16, maxmtu: u16, sent: u8) -> (r: u16)
    ensures
        r == probe_len(minmtu, maxmtu, sent),
        maxmtu <= probe_floor(minmtu) ==> r == probe_floor(minmtu),
        maxmtu > probe_floor(minmtu) ==> probe_floor(minmtu) < r <= maxmtu,
{
    let floor: u16 = if minmtu >= MINMTU {
        minmtu
    } else {
        MINMTU
    };
    if maxmtu <= floor {
        return floor;
    }
    let position: u32 = (PROBES_PER_CYCLE - 1 - sent % PROBES_PER_CYCLE) as u32;
    let offset: u16 = if maxmtu == MTU {
        nearest_power(maxmtu - floor, 97 * position, 700)
    } else {
        nearest_power(maxmtu - floor, position, 7)
    };
    floor + offset
}

impl PmtuPhase {
    /// No discovery probe is out yet.
    pub open spec fn starting(self) -> bool {
        self == PmtuPhase::Discovery { sent: 0 }
    }

    /// No discovery probe is out yet.
    #[must_use]
    pub fn is_discovery_start(self) -> (r: bool)
        ensures
            r == self.starting(),
    {
        matches!(self, PmtuPhase::Discovery { sent: 0 })
    }

    /// The MTU was fixed before.
    pub open spec fn fixed(self) -> bool {
        self is Steady || self is Revalidate || self is Lost
    }

    /// The MTU was fixed before.
    #[must_use]
    pub fn is_fixed(self) -> (r: bool)
        ensures
            r == self.fixed(),
    {
        matches!(self, PmtuPhase::Steady | PmtuPhase::Revalidate { .. } | PmtuPhase::Lost)
    }

    /// The counters are in range.
    pub open spec fn wf(self) -> bool {
        match self {
            PmtuPhase::Discovery { sent } => sent < DISCOVERY_PROBES,
            PmtuPhase::Revalidate { misses } => misses == 1 || misses == 2,
            _ => true,
        }
    }

    /// Nanoseconds that must pass between two ticks.
    pub open spec fn cadence(self, pinginterval: Duration) -> int {
        match self {
            PmtuPhase::Discovery { sent } => if sent == 0 {
                0
            } else {
                PMTU_PROBE_TICK_NANOS as int
            },
            PmtuPhase::Fix => PMTU_PROBE_TICK_NANOS as int,
            PmtuPhase::Steady => pinginterval.nanos as int,
            PmtuPhase::Revalidate { .. } | PmtuPhase::Lost => PMTU_REVALIDATE_TICK_NANOS as int,
        }
    }
}

impl PmtuState {
    /// The search is over: its probes are used up, or the bounds have met.
    pub open spec fn converged(self) -> bool {
        self.phase is Fix || (self.phase is Discovery && self.minmtu >= self.maxmtu)
    }

    /// The MTU that a finished search settles at: what was confirmed, as far
    /// as the upper bound still allows it.
    pub open spec fn settled_mtu(self) -> u16 {
        if self.minmtu <= self.maxmtu {
            self.minmtu
        } else {
            usable_size(self.maxmtu)
        }
    }

    /// The state with the MTU locked in, if the search is over.
    pub open spec fn settled(self) -> PmtuState {
        if self.converged() {
            PmtuState {
                mtu: self.settled_mtu(),
                minmtu: self.settled_mtu(),
                maxmtu: self.settled_mtu(),
                phase: PmtuPhase::Steady,
                ..self
            }
        } else {
            self
        }
    }

    /// What locking the MTU in logs.
    pub open spec fn settled_log(self) -> Seq<PmtuAction> {
        if self.converged() {
            let probes = match self.phase {
                PmtuPhase::Discovery { sent } => sent,
                _ => DISCOVERY_PROBES,
            };
            seq![PmtuAction::LogFixed { mtu: self.settled_mtu(), probes }]
        } else {
            seq![]
        }
    }

    /// Locks the MTU in if the search is over.
    pub fn try_fix_mtu(&mut self, out: &mut Vec<PmtuAction>)
        ensures
            *final(self) == old(self).settled(),
            final(out)@ == old(out)@ + old(self).settled_log(),
    {
        let probes: u8 = match self.phase {
            PmtuPhase::Discovery { sent } => sent,
            PmtuPhase::Fix => DISCOVERY_PROBES,
            PmtuPhase::Steady | PmtuPhase::Revalidate { .. } | PmtuPhase::Lost => {
                return;
            },
        };
        if matches!(self.phase, PmtuPhase::Fix) || self.minmtu >= self.maxmtu {
            if self.minmtu > self.maxmtu {
                self.minmtu = if self.maxmtu >= MINMTU {
                    self.maxmtu
                } else {
                    0
                };
            }
            self.maxmtu = self.minmtu;
            self.mtu = self.minmtu;
            out.push(PmtuAction::LogFixed { mtu: self.mtu, probes });
            self.phase = PmtuPhase::Steady;
        }
    }

    /// The state before anything has happened.
    pub open spec fn fresh(now: Instant, initial_maxmtu: u16) -> PmtuState {
        PmtuState {
            mtu: 0,
            minmtu: 0,
            maxmtu: initial_maxmtu,
            phase: PmtuPhase::Discovery { sent: 0 },
            udp_confirmed: false,
            ping_sent: false,
            udp_probe_attempted: false,
            udp_probe_attempted_at: now,
            udp_ping_sent: now,
            udp_reply_rx: now,
            mtu_ping_sent: now,
            maxrecentlen: 0,
            udp_ping_rtt: None,
        }
    }

    /// Fresh state at the start of discovery. `initial_maxmtu` is what the
    /// kernel knows of the path, or [`MTU`].
    #[must_use]
    pub fn new(now: Instant, initial_maxmtu: u16) -> (r: PmtuState)
        ensures
            r == PmtuState::fresh(now, initial_maxmtu),
    {
        PmtuState {
            mtu: 0,
            minmtu: 0,
            maxmtu: initial_maxmtu,
            phase: PmtuPhase::Discovery { sent: 0 },
            udp_confirmed: false,
            ping_sent: false,
            udp_probe_attempted: false,
            udp_probe_attempted_at: now,
            udp_ping_sent: now,
            udp_reply_rx: now,
            mtu_ping_sent: now,
            maxrecentlen: 0,
            udp_ping_rtt: None,
        }
    }

    /// A keepalive is owed: at once on a path that was never probed, and at
    /// the given interval otherwise.
    pub open spec fn probe_owed(self, now: Instant, interval: Duration) -> bool {
        ||| !self.udp_confirmed && !self.udp_probe_attempted && self.phase
            == PmtuPhase::Discovery { sent: 0 }
        ||| crate::clock::elapsed_nanos(now, self.udp_probe_attempted_at) >= interval.nanos
    }

    /// Whether the UDP-discovery sender should emit a probe now.
    #[must_use]
    pub fn udp_probe_due(&self, now: Instant, interval: Duration) -> (r: bool)
        ensures
            r == self.probe_owed(now, interval),
    {
        let discovery_start: bool = !self.udp_confirmed && !self.udp_probe_attempted
            && self.phase.is_discovery_start();
        discovery_start || now.saturating_duration_since(self.udp_probe_attempted_at).nanos
            >= interval.nanos
    }

    /// The state after one try to submit a keepalive.
    pub open spec fn attempted(self, now: Instant, sent: bool) -> PmtuState {
        let tried = PmtuState {
            udp_probe_attempted: true,
            udp_probe_attempted_at: now,
            ..self
        };
        if sent {
            PmtuState { udp_ping_sent: now, ping_sent: true, ..tried }
        } else {
            tried
        }
    }

    /// Records one try to submit a keepalive. A failed one paces retries but
    /// leaves nothing outstanding.
    pub fn on_udp_probe_attempt(&mut self, now: Instant, sent: bool)
        ensures
            *final(self) == old(self).attempted(now, sent),
    {
        self.udp_probe_attempted = true;
        self.udp_probe_attempted_at = now;
        if sent {
            self.udp_ping_sent = now;
            self.ping_sent = true;
        }
    }

    /// A confirmed path without a keepalive outstanding has not been heard of
    /// for `timeout`.
    pub open spec fn cold(self, now: Instant, timeout: Duration) -> bool {
        self.udp_confirmed && !self.ping_sent && crate::clock::elapsed_nanos(
            now,
            self.udp_reply_rx,
        ) >= timeout.nanos
    }

    /// A confirmed path has left a keepalive unanswered for `timeout`.
    pub open spec fn unanswered(self, now: Instant, timeout: Duration) -> bool {
        self.udp_confirmed && self.ping_sent && crate::clock::elapsed_nanos(
            now,
            self.udp_ping_sent,
        ) >= timeout.nanos
    }

    /// Whether a path that was confirmed once must be confirmed again before
    /// it carries data: nothing is outstanding and the last sign of life is
    /// `timeout` old.
    #[must_use]
    pub fn udp_needs_cold_revalidation(&self, now: Instant, timeout: Duration) -> (r: bool)
        ensures
            r == self.cold(now, timeout),
    {
        self.udp_confirmed && !self.ping_sent && now.saturating_duration_since(
            self.udp_reply_rx,
        ).nanos >= timeout.nanos
    }

    /// Whether an outstanding keepalive is `timeout` old. The age of the last
    /// reply alone would trip after an idle gap in which nothing was asked.
    #[must_use]
    pub fn udp_timed_out(&self, now: Instant, timeout: Duration) -> (r: bool)
        ensures
            r == self.unanswered(now, timeout),
    {
        self.udp_confirmed && self.ping_sent && now.saturating_duration_since(
            self.udp_ping_sent,
        ).nanos >= timeout.nanos
    }

    /// The state with discovery about to start over; the bounds stay.
    pub open spec fn rediscovering(self) -> PmtuState {
        PmtuState { phase: PmtuPhase::Discovery { sent: 0 }, ..self }
    }

    /// Restarts discovery from scratch.
    pub fn start_discovery(&mut self)
        ensures
            *final(self) == old(self).rediscovering(),
    {
        self.phase = PmtuPhase::Discovery { sent: 0 };
    }

    /// Enough time has passed for a tick to act.
    pub open spec fn tick_due(self, now: Instant, pinginterval: Duration) -> bool {
        crate::clock::elapsed_nanos(now, self.mtu_ping_sent) >= self.phase.cadence(pinginterval)
    }

    /// A lost path starts over with nothing confirmed; the upper bound stays.
    pub open spec fn restarted(self) -> PmtuState {
        if self.phase is Lost {
            PmtuState { phase: PmtuPhase::Discovery { sent: 0 }, minmtu: 0, ..self }
        } else {
            self
        }
    }

    /// What starting over logs.
    pub open spec fn restarted_log(self) -> Seq<PmtuAction> {
        if self.phase is Lost {
            seq![PmtuAction::LogReset]
        } else {
            seq![]
        }
    }

    /// The probes that the phase calls for.
    pub open spec fn probes(self) -> Seq<PmtuAction> {
        let top = PmtuAction::SendProbe { len: probe_sized(self.maxmtu), counts_miss: true };
        match self.phase {
            PmtuPhase::Discovery { sent } => seq![
                PmtuAction::SendProbe {
                    len: probe_sized(probe_len(self.minmtu, self.maxmtu, sent) as u16),
                    counts_miss: false,
                },
            ],
            PmtuPhase::Steady => if self.maxmtu + 1 < MTU {
                seq![
                    top,
                    PmtuAction::SendProbe {
                        len: probe_sized((self.maxmtu + 1) as u16),
                        counts_miss: false,
                    },
                ]
            } else {
                seq![top]
            },
            PmtuPhase::Revalidate { .. } => seq![top],
            _ => seq![],
        }
    }

    /// Discovery counts the probe it has just sent; the last one ends it.
    pub open spec fn counted(self) -> PmtuState {
        match self.phase {
            PmtuPhase::Discovery { sent } => PmtuState {
                phase: if sent + 1 >= DISCOVERY_PROBES {
                    PmtuPhase::Fix
                } else {
                    PmtuPhase::Discovery { sent: (sent + 1) as u8 }
                },
                ..self
            },
            _ => self,
        }
    }

    /// The state in which a tick that acts picks its probes.
    pub open spec fn ready_to_probe(self, now: Instant) -> PmtuState {
        PmtuState { mtu_ping_sent: now, ..self }.settled().restarted()
    }

    /// The state after a tick.
    pub open spec fn ticked(self, now: Instant, pinginterval: Duration) -> PmtuState {
        if self.tick_due(now, pinginterval) {
            self.ready_to_probe(now).counted()
        } else {
            self
        }
    }

    /// What a tick asks for, in order: logs first, then probes.
    pub open spec fn tick_actions(self, now: Instant, pinginterval: Duration) -> Seq<PmtuAction> {
        if self.tick_due(now, pinginterval) {
            self.settled_log() + self.restarted_log() + self.ready_to_probe(now).probes()
        } else {
            seq![]
        }
    }

    /// Advances the state machine by one tick. Every 333 ms in discovery (the
    /// first probe at once), every `pinginterval` when steady, every second
    /// while a fixed MTU is in doubt; a tick before that does nothing.
    pub fn tick(&mut self, now: Instant, pinginterval: Duration) -> (out: Vec<PmtuAction>)
        requires
            old(self).phase == (PmtuPhase::Discovery { sent: u8::MAX }) ==> !old(self).tick_due(
                now,
                pinginterval,
            ) || old(self).converged(),
        ensures
            *final(self) == old(self).ticked(now, pinginterval),
            out@ == old(self).tick_actions(now, pinginterval),
    {
        let elapsed: Duration = now.saturating_duration_since(self.mtu_ping_sent);
        let wait: u128 = match self.phase {
            PmtuPhase::Discovery { sent } => if sent == 0 {
                0
            } else {
                PMTU_PROBE_TICK_NANOS
            },
            PmtuPhase::Fix => PMTU_PROBE_TICK_NANOS,
            PmtuPhase::Steady => pinginterval.nanos,
            PmtuPhase::Revalidate { .. } | PmtuPhase::Lost => PMTU_REVALIDATE_TICK_NANOS,
        };
        let mut out: Vec<PmtuAction> = Vec::new();
        if elapsed.nanos < wait {
            return out;
        }
        self.mtu_ping_sent = now;

        self.try_fix_mtu(&mut out);

        if matches!(self.phase, PmtuPhase::Lost) {
            out.push(PmtuAction::LogReset);
            self.phase = PmtuPhase::Discovery { sent: 0 };
            self.minmtu = 0;
        }
        let ghost ready = *self;
        let ghost logged = out@;

        let top: u16 = at_least_probe(self.maxmtu);
        match self.phase {
            PmtuPhase::Steady => {
                out.push(PmtuAction::SendProbe { len: top, counts_miss: true });
                if self.maxmtu < MTU - 1 {
                    let beyond: u16 = at_least_probe(self.maxmtu + 1);
                    out.push(PmtuAction::SendProbe { len: beyond, counts_miss: false });
                }
            },
            PmtuPhase::Revalidate { .. } => {
                out.push(PmtuAction::SendProbe { len: top, counts_miss: true });
            },
            // Both were left behind above.
            PmtuPhase::Lost | PmtuPhase::Fix => {
                assert(false);
            },
            PmtuPhase::Discovery { sent } => {
                let len: u16 = probe_size(self.minmtu, self.maxmtu, sent);
                out.push(PmtuAction::SendProbe { len: at_least_probe(len), counts_miss: false });
                self.phase = if sent + 1 >= DISCOVERY_PROBES {
                    PmtuPhase::Fix
                } else {
                    PmtuPhase::Discovery { sent: sent + 1 }
                };
            },
        }
        assert(ready == old(self).ready_to_probe(now));
        assert(logged == old(self).settled_log() + old(self).restarted_log());
        assert(out@ == logged + ready.probes());
        out
    }

    /// One more submitted `maxmtu` probe without an answer.
    pub open spec fn missed(self) -> PmtuState {
        PmtuState {
            phase: match self.phase {
                PmtuPhase::Steady => PmtuPhase::Revalidate { misses: 1 },
                PmtuPhase::Revalidate { misses } => if misses >= 2 {
                    PmtuPhase::Lost
                } else {
                    PmtuPhase::Revalidate { misses: (misses + 1) as u8 }
                },
                _ => self.phase,
            },
            ..self
        }
    }

    /// The socket took a `maxmtu` probe: it counts as a miss until an answer
    /// comes. Probes that could not be submitted are not reported here.
    pub fn on_counted_probe_sent(&mut self)
        ensures
            *final(self) == old(self).missed(),
    {
        self.phase = match self.phase {
            PmtuPhase::Steady => PmtuPhase::Revalidate { misses: 1 },
            PmtuPhase::Revalidate { misses } => if misses >= 2 {
                PmtuPhase::Lost
            } else {
                PmtuPhase::Revalidate { misses: misses + 1 }
            },
            phase => phase,
        };
    }

    /// A sign from the peer that `maxmtu` still fits ends all doubt.
    pub open spec fn reconfirmed(self, now: Instant) -> PmtuState {
        PmtuState { phase: PmtuPhase::Steady, mtu_ping_sent: now, ..self }
    }

    /// The state after the peer acknowledged `len` bytes over the meta
    /// connection. Only an acknowledgement that was asked for confirms
    /// anything new.
    pub open spec fn acked(self, len: u16, now: Instant) -> PmtuState {
        let size = clamped(len);
        let s = if self.phase.fixed() && size >= self.maxmtu {
            self.reconfirmed(now)
        } else {
            self
        };
        if self.ping_sent {
            PmtuState {
                udp_confirmed: true,
                udp_reply_rx: now,
                maxmtu: if size > self.maxmtu {
                    size
                } else {
                    self.maxmtu
                },
                minmtu: if size >= MINMTU && size > self.minmtu {
                    size
                } else {
                    self.minmtu
                },
                ..s
            }
        } else {
            s
        }
    }

    /// An acknowledgement counts: something was asked.
    pub open spec fn ack_counts(self) -> bool {
        self.ping_sent
    }

    /// The peer acknowledged a probe of `len` bytes over the meta connection.
    /// Returns whether a probe was outstanding: without one the bounds and
    /// `udp_confirmed` stay as they are. The probe stays outstanding, since
    /// the peer sends fewer acknowledgements than we send probes, and no
    /// round trip is measured.
    pub fn on_meta_ack(&mut self, len: u16, now: Instant) -> (r: bool)
        ensures
            r == old(self).ack_counts(),
            *final(self) == old(self).acked(len, now),
    {
        let len: u16 = if len <= MTU {
            len
        } else {
            MTU
        };
        // Outstanding or not: probes of `maxmtu` bytes come from `tick`, which
        // leaves no keepalive outstanding, and going back to `Steady` at the
        // present `maxmtu` grants the peer nothing it did not have.
        if self.phase.is_fixed() && len >= self.maxmtu {
            self.phase = PmtuPhase::Steady;
            self.mtu_ping_sent = now;
        }
        if !self.ping_sent {
            return false;
        }
        self.udp_confirmed = true;
        self.udp_reply_rx = now;
        if len > self.maxmtu {
            self.maxmtu = len;
        }
        if len >= MINMTU && len > self.minmtu {
            self.minmtu = len;
        }
        true
    }

    /// The round trip that a reply at `now` measures, in microseconds, capped
    /// at what 32 bits hold.
    pub open spec fn measured_rtt(self, now: Instant) -> u32 {
        let micros = crate::clock::elapsed_nanos(now, self.udp_ping_sent) / 1_000;
        if micros <= u32::MAX {
            micros as u32
        } else {
            u32::MAX
        }
    }

    /// The state after an authenticated reply was heard, whatever its size.
    pub open spec fn heard(self, now: Instant) -> PmtuState {
        PmtuState {
            udp_ping_rtt: if self.ping_sent {
                Some(self.measured_rtt(now))
            } else {
                self.udp_ping_rtt
            },
            ping_sent: false,
            udp_confirmed: true,
            udp_reply_rx: now,
            ..self
        }
    }

    /// The state after a reply to a probe of `len` bytes.
    pub open spec fn replied(self, len: u16, now: Instant) -> PmtuState {
        let size = clamped(len);
        if size > self.maxmtu {
            // More fits than was thought. Discovery starts past its first
            // probe, so the upper bound is not seeded anew.
            PmtuState {
                minmtu: usable_size(size),
                maxmtu: MTU,
                phase: PmtuPhase::Discovery { sent: 1 },
                ..self.heard(now)
            }
        } else {
            self.narrowed(size, now)
        }
    }

    /// The state after a reply within the known upper bound, before the MTU
    /// is locked in.
    pub open spec fn raised(self, size: u16, now: Instant) -> PmtuState {
        let s = if self.phase.fixed() && size == self.maxmtu {
            self.heard(now).reconfirmed(now)
        } else {
            self.heard(now)
        };
        if self.raises(size) {
            PmtuState { minmtu: size, ..s }
        } else {
            s
        }
    }

    /// A reply of that size confirms more than was confirmed so far.
    pub open spec fn raises(self, size: u16) -> bool {
        size >= MINMTU && size > self.minmtu
    }

    /// The state after a reply within the known upper bound.
    pub open spec fn narrowed(self, size: u16, now: Instant) -> PmtuState {
        if self.raises(size) {
            self.raised(size, now).settled()
        } else {
            self.raised(size, now)
        }
    }

    /// What a reply logs.
    pub open spec fn reply_log(self, len: u16, now: Instant) -> Seq<PmtuAction> {
        let size = clamped(len);
        if size > self.maxmtu {
            seq![PmtuAction::LogIncrease]
        } else if self.raises(size) {
            self.raised(size, now).settled_log()
        } else {
            seq![]
        }
    }

    /// The peer answered a UDP probe of `len` bytes.
    pub fn on_probe_reply(&mut self, len: u16, now: Instant) -> (out: Vec<PmtuAction>)
        ensures
            *final(self) == old(self).replied(len, now),
            out@ == old(self).reply_log(len, now),
    {
        // The length is the peer's word; probes never exceed `MTU`.
        let len: u16 = if len <= MTU {
            len
        } else {
            MTU
        };
        let mut out: Vec<PmtuAction> = Vec::new();

        if self.ping_sent {
            let micros: u128 = now.saturating_duration_since(self.udp_ping_sent).as_micros();
            self.udp_ping_rtt = Some(
                if micros <= u32::MAX as u128 {
                    micros as u32
                } else {
                    u32::MAX
                },
            );
            self.ping_sent = false;
        }
        self.udp_confirmed = true;
        self.udp_reply_rx = now;

        if len > self.maxmtu {
            out.push(PmtuAction::LogIncrease);
            self.minmtu = if len >= MINMTU {
                len
            } else {
                0
            };
            self.maxmtu = MTU;
            self.phase = PmtuPhase::Discovery { sent: 1 };
            return out;
        }
        if self.phase.is_fixed() && len == self.maxmtu {
            self.phase = PmtuPhase::Steady;
            self.mtu_ping_sent = now;
        }
        if len >= MINMTU && self.minmtu < len {
            self.minmtu = len;
            self.try_fix_mtu(&mut out);
        }
        out
    }

    /// The bounds after a datagram of `at_len` bytes did not fit, before the
    /// MTU is locked in: nothing above `at_len - 1`, but never below
    /// [`MINMTU`].
    pub open spec fn capped(self, at_len: u16) -> PmtuState {
        let cap = if at_len > MINMTU {
            (at_len - 1) as u16
        } else {
            MINMTU
        };
        PmtuState {
            maxmtu: if self.maxmtu > cap {
                cap
            } else {
                self.maxmtu
            },
            mtu: if self.mtu > cap {
                cap
            } else {
                self.mtu
            },
            ..self
        }
    }

    /// The socket refused a datagram of `at_len` bytes as too long.
    pub fn on_emsgsize(&mut self, at_len: u16) -> (out: Vec<PmtuAction>)
        ensures
            *final(self) == old(self).capped(at_len).settled(),
            out@ == old(self).capped(at_len).settled_log(),
    {
        let cap: u16 = if at_len > MINMTU {
            at_len - 1
        } else {
            MINMTU
        };
        if self.maxmtu > cap {
            self.maxmtu = cap;
        }
        if self.mtu > cap {
            self.mtu = cap;
        }
        let mut out: Vec<PmtuAction> = Vec::new();
        self.try_fix_mtu(&mut out);
        out
    }

    /// The state after a keepalive timed out. The MTU itself stays: it is
    /// what the data path goes by until discovery finds another.
    pub open spec fn timed_out(self) -> PmtuState {
        if self.udp_confirmed {
            PmtuState {
                udp_confirmed: false,
                ping_sent: false,
                udp_probe_attempted: false,
                udp_ping_rtt: None,
                maxrecentlen: 0,
                phase: PmtuPhase::Discovery { sent: 0 },
                minmtu: 0,
                maxmtu: MTU,
                ..self
            }
        } else {
            self
        }
    }

    /// A keepalive timed out. Does nothing on a path that is not confirmed.
    pub fn on_udp_timeout(&mut self)
        ensures
            *final(self) == old(self).timed_out(),
    {
        if !self.udp_confirmed {
            return;
        }
        self.udp_confirmed = false;
        // An outstanding probe would make the next check trip again over the
        // old send time.
        self.ping_sent = false;
        self.udp_probe_attempted = false;
        self.udp_ping_rtt = None;
        self.maxrecentlen = 0;
        self.start_discovery();
        self.minmtu = 0;
        self.maxmtu = MTU;
    }
}

} // verus!
