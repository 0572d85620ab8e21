//! What each event does to the search for a path MTU, in terms of the fields
//! before and after it.
use crate::clock::{Duration, Instant};
use crate::pmtu::{PmtuAction, PmtuPhase, PmtuState};
use vstd::prelude::*;

verus! {

/// The larger of two sizes.
pub open spec fn larger(a: u16, b: u16) -> u16 {
    if a < b {
        b
    } else {
        a
    }
}

/// The smaller of two sizes.
pub open spec fn smaller(a: u16, b: u16) -> u16 {
    if a < b {
        a
    } else {
        b
    }
}

/// At least `span` nanoseconds lie between the two.
pub open spec fn passed(from: Instant, now: Instant, span: int) -> bool {
    span <= 0 || now.nanos - from.nanos >= span
}

/// Nothing that tells whether UDP works differs.
pub open spec fn same_liveness(a: PmtuState, b: PmtuState) -> bool {
    &&& a.udp_confirmed == b.udp_confirmed
    &&& a.ping_sent == b.ping_sent
    &&& a.udp_probe_attempted == b.udp_probe_attempted
    &&& a.udp_probe_attempted_at == b.udp_probe_attempted_at
    &&& a.udp_ping_sent == b.udp_ping_sent
    &&& a.udp_reply_rx == b.udp_reply_rx
    &&& a.maxrecentlen == b.maxrecentlen
    &&& a.udp_ping_rtt == b.udp_ping_rtt
}

/// Nothing of the search itself differs.
pub open spec fn same_search(a: PmtuState, b: PmtuState) -> bool {
    &&& a.mtu == b.mtu
    &&& a.minmtu == b.minmtu
    &&& a.maxmtu == b.maxmtu
    &&& a.phase == b.phase
    &&& a.mtu_ping_sent == b.mtu_ping_sent
}

/// Time runs forward: what is `span` later is `span` away, and what is earlier
/// is no time away at all.
pub proof fn law_time_runs_forward(earlier: Instant, later: Instant)
    ensures
        later.nanos >= earlier.nanos ==> earlier.nanos + crate::clock::elapsed_nanos(later, earlier)
            == later.nanos,
        later.nanos <= earlier.nanos ==> crate::clock::elapsed_nanos(later, earlier) == 0,
{
}

/// A phase is fixed unless the search is still going on.
pub proof fn law_search_or_fixed(phase: PmtuPhase)
    ensures
        phase.fixed() <==> !(phase is Discovery) && !(phase is Fix),
        phase.starting() <==> phase is Discovery && phase->sent == 0,
{
}

/// A search begins with nothing confirmed, nothing tried and nothing heard,
/// under the upper bound it is given.
pub proof fn law_fresh_search_knows_only_its_bound(now: Instant, initial_maxmtu: u16)
    ensures
        ({
            let s = PmtuState::fresh(now, initial_maxmtu);
            &&& s.mtu == 0 && s.minmtu == 0 && s.maxmtu == initial_maxmtu
            &&& s.phase == (PmtuPhase::Discovery { sent: 0 })
            &&& !s.udp_confirmed && !s.ping_sent && !s.udp_probe_attempted
            &&& s.udp_probe_attempted_at == now && s.udp_ping_sent == now && s.udp_reply_rx == now
            &&& s.mtu_ping_sent == now
            &&& s.maxrecentlen == 0 && s.udp_ping_rtt == None::<u32>
        }),
{
}

/// In every state, a keepalive is due once the time since the last try is at
/// least the interval. Before that it is due only on an unconfirmed path that
/// was not tried yet and whose discovery is at its start.
pub proof fn law_keepalives_are_paced(s: PmtuState, now: Instant, interval: Duration)
    ensures
        passed(s.udp_probe_attempted_at, now, interval.nanos as int) ==> s.probe_owed(now, interval),
        !passed(s.udp_probe_attempted_at, now, interval.nanos as int) ==> (s.probe_owed(
            now,
            interval,
        ) <==> !s.udp_confirmed && !s.udp_probe_attempted && s.phase == (PmtuPhase::Discovery {
            sent: 0,
        })),
{
}

/// What is due stays due until it is tried; a try puts the next one off by
/// exactly the interval, whether or not it was submitted.
pub proof fn law_tries_put_keepalives_off(
    s: PmtuState,
    now: Instant,
    later: Instant,
    interval: Duration,
    sent: bool,
)
    requires
        now.nanos <= later.nanos,
    ensures
        s.probe_owed(now, interval) ==> s.probe_owed(later, interval),
        s.attempted(now, sent).probe_owed(later, interval) <==> later.nanos >= now.nanos
            + interval.nanos,
{
}

/// A try is noted with its time. Submitted, it is outstanding from then on;
/// otherwise what was outstanding before is so still. The search and what was
/// heard of the peer are not touched.
pub proof fn law_tries_are_noted(s: PmtuState, now: Instant, sent: bool)
    ensures
        ({
            let r = s.attempted(now, sent);
            &&& same_search(s, r)
            &&& r.udp_probe_attempted && r.udp_probe_attempted_at == now
            &&& r.ping_sent == (sent || s.ping_sent)
            &&& r.udp_ping_sent == (if sent {
                now
            } else {
                s.udp_ping_sent
            })
            &&& r.udp_confirmed == s.udp_confirmed && r.udp_reply_rx == s.udp_reply_rx
            &&& r.maxrecentlen == s.maxrecentlen && r.udp_ping_rtt == s.udp_ping_rtt
        }),
{
}

/// A confirmed path is in doubt for one reason at a time: with a keepalive
/// outstanding once that is `timeout` old, and otherwise once the last sign of
/// life is. An unconfirmed path is in neither doubt.
pub proof fn law_confirmed_paths_come_into_doubt(s: PmtuState, now: Instant, timeout: Duration)
    ensures
        s.cold(now, timeout) <==> s.udp_confirmed && !s.ping_sent && passed(
            s.udp_reply_rx,
            now,
            timeout.nanos as int,
        ),
        s.unanswered(now, timeout) <==> s.udp_confirmed && s.ping_sent && passed(
            s.udp_ping_sent,
            now,
            timeout.nanos as int,
        ),
        !(s.cold(now, timeout) && s.unanswered(now, timeout)),
{
}

/// A keepalive on a confirmed path that nothing answers times out, exactly
/// from `timeout` after its submission on; a reply before that averts it, and
/// keeps the path warm for `timeout`.
pub proof fn law_unanswered_keepalives_time_out(
    s: PmtuState,
    len: u16,
    sent_at: Instant,
    heard_at: Instant,
    now: Instant,
    timeout: Duration,
)
    requires
        s.udp_confirmed,
        sent_at.nanos <= now.nanos,
        heard_at.nanos <= now.nanos,
    ensures
        s.attempted(sent_at, true).unanswered(now, timeout) <==> now.nanos >= sent_at.nanos
            + timeout.nanos,
        !s.attempted(sent_at, true).replied(len, heard_at).unanswered(now, timeout),
        s.attempted(sent_at, true).replied(len, heard_at).cold(now, timeout) <==> now.nanos
            >= heard_at.nanos + timeout.nanos,
{
}

/// A timeout takes back what was known of a confirmed path and opens the
/// search as wide as the link; the MTU in use and the times stay. On an
/// unconfirmed path it changes nothing.
pub proof fn law_timeouts_forget_the_path(s: PmtuState)
    ensures
        !s.udp_confirmed ==> s.timed_out() == s,
        s.udp_confirmed ==> ({
            let r = s.timed_out();
            &&& !r.udp_confirmed && !r.ping_sent && !r.udp_probe_attempted
            &&& r.udp_ping_rtt == None::<u32> && r.maxrecentlen == 0
            &&& r.phase == (PmtuPhase::Discovery { sent: 0 })
            &&& r.minmtu == 0 && r.maxmtu == 1518 && r.mtu == s.mtu
            &&& r.mtu_ping_sent == s.mtu_ping_sent && r.udp_ping_sent == s.udp_ping_sent
            &&& r.udp_reply_rx == s.udp_reply_rx
            &&& r.udp_probe_attempted_at == s.udp_probe_attempted_at
        }),
{
}

/// Restarting discovery touches the phase alone.
pub proof fn law_restart_touches_the_phase_alone(s: PmtuState)
    ensures
        s.rediscovering().phase == (PmtuPhase::Discovery { sent: 0 }),
        same_liveness(s, s.rediscovering()),
        s.rediscovering().mtu == s.mtu,
        s.rediscovering().minmtu == s.minmtu,
        s.rediscovering().maxmtu == s.maxmtu,
        s.rediscovering().mtu_ping_sent == s.mtu_ping_sent,
{
}

/// A submitted probe of `maxmtu` bytes counts against a fixed MTU, the third
/// in a row loses it, and nothing but the phase shows it. While the search
/// goes on, or once the path is lost, it counts nothing.
pub proof fn law_misses_count_against_a_fixed_mtu(s: PmtuState)
    ensures
        same_liveness(s, s.missed()),
        s.missed().mtu == s.mtu && s.missed().minmtu == s.minmtu && s.missed().maxmtu == s.maxmtu,
        s.missed().mtu_ping_sent == s.mtu_ping_sent,
        s.phase is Steady ==> s.missed().phase == (PmtuPhase::Revalidate { misses: 1 }),
        s.phase matches PmtuPhase::Revalidate { misses } ==> (if misses < 2 {
            s.missed().phase == (PmtuPhase::Revalidate { misses: (misses + 1) as u8 })
        } else {
            s.missed().phase is Lost
        }),
        s.phase is Discovery || s.phase is Fix || s.phase is Lost ==> s.missed().phase == s.phase,
{
}

/// Locking the MTU in: when the probes of a search are used up or its bounds
/// have met, all three sizes become what was confirmed, or, where the upper
/// bound has dropped below that, the bound, if it is usable. Otherwise, and
/// once the MTU is fixed, nothing changes and nothing is logged.
pub proof fn law_searches_settle(s: PmtuState)
    ensures
        s.phase is Fix || (s.phase is Discovery && s.minmtu >= s.maxmtu) ==> ({
            let r = s.settled();
            let size: u16 = if s.minmtu <= s.maxmtu {
                s.minmtu
            } else if s.maxmtu >= 512 {
                s.maxmtu
            } else {
                0
            };
            &&& r.mtu == size && r.minmtu == size && r.maxmtu == size
            &&& r.phase is Steady
            &&& r.mtu_ping_sent == s.mtu_ping_sent
            &&& same_liveness(s, r)
            &&& s.settled_log() == seq![
                PmtuAction::LogFixed {
                    mtu: size,
                    probes: match s.phase {
                        PmtuPhase::Discovery { sent } => sent,
                        _ => 20,
                    },
                },
            ]
        }),
        !(s.phase is Fix) && !(s.phase is Discovery && s.minmtu >= s.maxmtu) ==> s.settled() == s
            && s.settled_log().len() == 0,
{
}

/// Every reply shows that UDP works, whatever its size: the path is confirmed,
/// heard just now, and no keepalive is outstanding any more. What is sent and
/// when is not touched.
pub proof fn law_replies_confirm_the_path(s: PmtuState, len: u16, now: Instant)
    ensures
        ({
            let r = s.replied(len, now);
            &&& r.udp_confirmed && r.udp_reply_rx == now && !r.ping_sent
            &&& r.udp_probe_attempted == s.udp_probe_attempted
            &&& r.udp_probe_attempted_at == s.udp_probe_attempted_at
            &&& r.udp_ping_sent == s.udp_ping_sent
            &&& r.maxrecentlen == s.maxrecentlen
        }),
{
}

/// The reply to an outstanding keepalive measures the round trip in whole
/// microseconds, up to what 32 bits hold; any other reply measures nothing.
pub proof fn law_replies_measure_the_round_trip(s: PmtuState, len: u16, now: Instant)
    ensures
        !s.ping_sent ==> s.replied(len, now).udp_ping_rtt == s.udp_ping_rtt,
        s.ping_sent ==> s.replied(len, now).udp_ping_rtt is Some,
        s.ping_sent && now.nanos <= s.udp_ping_sent.nanos ==> s.replied(len, now).udp_ping_rtt
            == Some(0u32),
        s.ping_sent && now.nanos > s.udp_ping_sent.nanos ==> ({
            let rtt = s.replied(len, now).udp_ping_rtt->Some_0;
            let nanos = now.nanos - s.udp_ping_sent.nanos;
            if nanos < 0x1_0000_0000int * 1_000 {
                rtt * 1_000 <= nanos < rtt * 1_000 + 1_000
            } else {
                rtt == 0xffff_ffff
            }
        }),
{
}

/// Every usable answered size within the upper bound is confirmed, in any
/// state of the search, also when nothing was confirmed before: what is
/// confirmed afterwards is the larger of the two.
pub proof fn law_answered_sizes_are_confirmed(s: PmtuState, len: u16, now: Instant)
    requires
        512 <= len <= s.maxmtu,
        s.maxmtu <= 1518,
    ensures
        s.replied(len, now).minmtu == larger(s.minmtu, len),
{
}

/// A reply within the upper bound raises what is confirmed to its own size, if
/// that is usable and more than before. With the probes used up, or at the
/// upper bound itself, that settles a search. A reply of exactly `maxmtu`
/// bytes makes a fixed MTU steady again. Nothing else moves.
pub proof fn law_replies_within_the_bound(s: PmtuState, len: u16, now: Instant)
    requires
        smaller(len, 1518) <= s.maxmtu,
    ensures
        ({
            let size = smaller(len, 1518);
            let r = s.replied(len, now);
            let raised = size >= 512 && size > s.minmtu;
            let searching = s.phase is Discovery || s.phase is Fix;
            let settles = raised && (s.phase is Fix || (searching && size == s.maxmtu));
            let reconfirms = !searching && size == s.maxmtu;
            &&& r.minmtu == (if raised {
                size
            } else {
                s.minmtu
            })
            &&& settles ==> {
                &&& r.mtu == size && r.maxmtu == size && r.phase is Steady
                &&& s.reply_log(len, now) == seq![
                    PmtuAction::LogFixed {
                        mtu: size,
                        probes: match s.phase {
                            PmtuPhase::Discovery { sent } => sent,
                            _ => 20,
                        },
                    },
                ]
            }
            &&& !settles ==> {
                &&& r.mtu == s.mtu && r.maxmtu == s.maxmtu
                &&& s.reply_log(len, now).len() == 0
            }
            &&& reconfirms ==> r.phase is Steady && r.mtu_ping_sent == now
            &&& !reconfirms ==> r.mtu_ping_sent == s.mtu_ping_sent
            &&& !reconfirms && !settles ==> r.phase == s.phase
        }),
{
}

/// A reply above the upper bound opens the search up to the link, past its
/// first probe, with the reply's own size confirmed if it is usable.
pub proof fn law_replies_above_the_bound(s: PmtuState, len: u16, now: Instant)
    requires
        smaller(len, 1518) > s.maxmtu,
    ensures
        ({
            let size = smaller(len, 1518);
            let r = s.replied(len, now);
            &&& r.maxmtu == 1518 && r.phase == (PmtuPhase::Discovery { sent: 1 })
            &&& r.minmtu == (if size >= 512 {
                size
            } else {
                0
            })
            &&& r.mtu == s.mtu && r.mtu_ping_sent == s.mtu_ping_sent
            &&& s.reply_log(len, now) == seq![PmtuAction::LogIncrease]
        }),
{
}

/// Replies confirm no less for being larger, and the order of two replies
/// within the bound does not matter to what they confirm.
pub proof fn law_replies_add_up(s: PmtuState, a: u16, b: u16, now: Instant, later: Instant)
    requires
        s.phase is Discovery,
        a < s.maxmtu,
        b < s.maxmtu,
        s.maxmtu <= 1518,
    ensures
        a <= b ==> s.replied(a, now).minmtu <= s.replied(b, now).minmtu,
        s.replied(a, now).replied(b, later).minmtu == s.replied(b, now).replied(a, later).minmtu,
        s.replied(a, now).replied(b, later).minmtu >= s.replied(a, now).minmtu,
{
}

/// An acknowledgement that was asked for confirms the path and its own size:
/// both bounds are raised to it, the lower one if it is usable. One that was
/// not asked for moves neither. The MTU in use, the round trip and what is
/// outstanding stay in any case.
pub proof fn law_acknowledgements_confirm_what_was_asked(s: PmtuState, len: u16, now: Instant)
    ensures
        ({
            let size = smaller(len, 1518);
            let r = s.acked(len, now);
            &&& s.ping_sent ==> {
                &&& r.udp_confirmed && r.udp_reply_rx == now
                &&& r.maxmtu == larger(s.maxmtu, size)
                &&& r.minmtu == (if size >= 512 {
                    larger(s.minmtu, size)
                } else {
                    s.minmtu
                })
            }
            &&& !s.ping_sent ==> {
                &&& r.udp_confirmed == s.udp_confirmed && r.udp_reply_rx == s.udp_reply_rx
                &&& r.maxmtu == s.maxmtu && r.minmtu == s.minmtu
            }
            &&& r.mtu == s.mtu && r.ping_sent == s.ping_sent && r.udp_ping_rtt == s.udp_ping_rtt
            &&& r.udp_ping_sent == s.udp_ping_sent && r.maxrecentlen == s.maxrecentlen
            &&& r.udp_probe_attempted == s.udp_probe_attempted
            &&& r.udp_probe_attempted_at == s.udp_probe_attempted_at
        }),
{
}

/// An acknowledgement counts exactly if a keepalive is outstanding: after a
/// submitted one until a reply or a timeout, whatever else is acknowledged.
pub proof fn law_acknowledgements_count_while_asked(
    s: PmtuState,
    len: u16,
    now: Instant,
    later: Instant,
)
    ensures
        s.ack_counts() <==> s.ping_sent,
        s.attempted(now, true).ack_counts(),
        s.attempted(now, false).ack_counts() <==> s.ack_counts(),
        s.acked(len, later).ack_counts() <==> s.ack_counts(),
        !s.replied(len, later).ack_counts(),
        s.udp_confirmed ==> !s.timed_out().ack_counts(),
        !PmtuState::fresh(now, len).ack_counts(),
{
}

/// An acknowledgement of at least `maxmtu` bytes makes a fixed MTU steady
/// again, asked for or not; nothing else moves the phase.
pub proof fn law_acknowledgements_end_doubt(s: PmtuState, len: u16, now: Instant)
    ensures
        ({
            let r = s.acked(len, now);
            let searching = s.phase is Discovery || s.phase is Fix;
            if !searching && smaller(len, 1518) >= s.maxmtu {
                r.phase is Steady && r.mtu_ping_sent == now
            } else {
                r.phase == s.phase && r.mtu_ping_sent == s.mtu_ping_sent
            }
        }),
{
}

/// A datagram that did not fit caps the upper bound and the MTU in use below
/// its own length, but not below the smallest usable size. What was confirmed
/// stays, and so does the phase, unless the cap ends the search.
pub proof fn law_refused_datagrams_cap_the_bound(s: PmtuState, at_len: u16)
    ensures
        ({
            let cap: u16 = if at_len <= 513 {
                512
            } else {
                (at_len - 1) as u16
            };
            let bound = smaller(s.maxmtu, cap);
            let r = s.capped(at_len).settled();
            let ends = s.phase is Fix || (s.phase is Discovery && s.minmtu >= bound);
            let size: u16 = if s.minmtu <= bound {
                s.minmtu
            } else if bound >= 512 {
                bound
            } else {
                0
            };
            &&& same_liveness(s, r)
            &&& r.mtu_ping_sent == s.mtu_ping_sent
            &&& !ends ==> {
                &&& r.maxmtu == bound && r.mtu == smaller(s.mtu, cap)
                &&& r.minmtu == s.minmtu && r.phase == s.phase
                &&& s.capped(at_len).settled_log().len() == 0
            }
            &&& ends ==> {
                &&& r.mtu == size && r.minmtu == size && r.maxmtu == size
                &&& r.phase is Steady
                &&& s.capped(at_len).settled_log() == seq![
                    PmtuAction::LogFixed {
                        mtu: size,
                        probes: match s.phase {
                            PmtuPhase::Discovery { sent } => sent,
                            _ => 20,
                        },
                    },
                ]
            }
        }),
{
}

/// The time that must have passed since the last tick that acted: none before
/// the first discovery probe, 333 ms during the search, the ping interval with
/// a steady MTU, and a second while it is in doubt or lost.
pub open spec fn pause(phase: PmtuPhase, interval: Duration) -> int {
    match phase {
        PmtuPhase::Discovery { sent } => if sent == 0 {
            0
        } else {
            333_000_000
        },
        PmtuPhase::Fix => 333_000_000,
        PmtuPhase::Steady => interval.nanos as int,
        PmtuPhase::Revalidate { .. } => 1_000_000_000,
        PmtuPhase::Lost => 1_000_000_000,
    }
}

/// A tick before its time does nothing at all. One that is due notes its time
/// and asks for at least one probe. No tick touches what is known of UDP.
pub proof fn law_ticks_keep_their_pace(s: PmtuState, now: Instant, interval: Duration)
    ensures
        !passed(s.mtu_ping_sent, now, pause(s.phase, interval)) ==> s.ticked(now, interval) == s
            && s.tick_actions(now, interval).len() == 0,
        passed(s.mtu_ping_sent, now, pause(s.phase, interval)) ==> s.ticked(
            now,
            interval,
        ).mtu_ping_sent == now && s.tick_actions(now, interval).len() >= 1
            && s.tick_actions(now, interval).last() is SendProbe,
        same_liveness(s, s.ticked(now, interval)),
{
    let actions = s.tick_actions(now, interval);
    let r = s.ready_to_probe(now);
    if passed(s.mtu_ping_sent, now, pause(s.phase, interval)) {
        assert(actions == s.settled_log() + s.restarted_log() + r.probes());
        assert(r.probes().len() >= 1);
        assert(actions.last() == r.probes().last());
    }
}

/// A due tick of a search that is not over asks for one discovery probe and
/// counts it; the twentieth is the last. The bounds stay.
pub proof fn law_ticks_search(s: PmtuState, now: Instant, interval: Duration)
    requires
        s.phase is Discovery,
        s.minmtu < s.maxmtu,
        passed(s.mtu_ping_sent, now, pause(s.phase, interval)),
    ensures
        ({
            let sent = s.phase->sent;
            let r = s.ticked(now, interval);
            &&& r.mtu == s.mtu && r.minmtu == s.minmtu && r.maxmtu == s.maxmtu
            &&& sent < 19 ==> r.phase == (PmtuPhase::Discovery { sent: (sent + 1) as u8 })
            &&& sent >= 19 ==> r.phase is Fix
            &&& s.tick_actions(now, interval).len() == 1
            &&& s.tick_actions(now, interval)[0] == (PmtuAction::SendProbe {
                len: crate::pmtu::probe_len(s.minmtu, s.maxmtu, sent) as u16,
                counts_miss: false,
            })
        }),
{
    let sent = s.phase->sent;
    crate::pmtu_laws::law_probe_stays_between_the_bounds(s.minmtu, s.maxmtu, sent);
    assert(s.tick_actions(now, interval) == s.ready_to_probe(now).probes());
}

/// A due tick of a search that is over locks the MTU in, says so, and probes
/// that size and the next at once.
pub proof fn law_ticks_settle(s: PmtuState, now: Instant, interval: Duration)
    requires
        s.phase is Fix || (s.phase is Discovery && s.minmtu >= s.maxmtu),
        passed(s.mtu_ping_sent, now, pause(s.phase, interval)),
    ensures
        ({
            let r = s.ticked(now, interval);
            let size: u16 = if s.minmtu <= s.maxmtu {
                s.minmtu
            } else if s.maxmtu >= 512 {
                s.maxmtu
            } else {
                0
            };
            let actions = s.tick_actions(now, interval);
            &&& r.mtu == size && r.minmtu == size && r.maxmtu == size && r.phase is Steady
            &&& actions.len() == (if size < 1517 {
                3int
            } else {
                2int
            })
            &&& actions[0] == (PmtuAction::LogFixed {
                mtu: size,
                probes: match s.phase {
                    PmtuPhase::Discovery { sent } => sent,
                    _ => 20,
                },
            })
            &&& actions[1] == (PmtuAction::SendProbe { len: larger(size, 18), counts_miss: true })
            &&& size < 1517 ==> actions[2] == (PmtuAction::SendProbe {
                len: larger((size + 1) as u16, 18),
                counts_miss: false,
            })
        }),
{
    assert(s.tick_actions(now, interval) == s.settled_log() + s.ready_to_probe(now).probes());
}

/// A due tick with a fixed MTU changes nothing but its time, and probes
/// `maxmtu`, which counts; a steady one also probes one byte more, below the
/// link ceiling, which does not.
pub proof fn law_ticks_probe_a_fixed_mtu(s: PmtuState, now: Instant, interval: Duration)
    requires
        s.phase is Steady || s.phase is Revalidate,
        passed(s.mtu_ping_sent, now, pause(s.phase, interval)),
    ensures
        ({
            let r = s.ticked(now, interval);
            let actions = s.tick_actions(now, interval);
            let more = s.phase is Steady && s.maxmtu < 1517;
            &&& r.mtu == s.mtu && r.minmtu == s.minmtu && r.maxmtu == s.maxmtu
            &&& r.phase == s.phase
            &&& actions.len() == (if more {
                2int
            } else {
                1int
            })
            &&& actions[0] == (PmtuAction::SendProbe {
                len: larger(s.maxmtu, 18),
                counts_miss: true,
            })
            &&& more ==> actions[1] == (PmtuAction::SendProbe {
                len: larger((s.maxmtu + 1) as u16, 18),
                counts_miss: false,
            })
        }),
{
    assert(s.tick_actions(now, interval) == s.ready_to_probe(now).probes());
}

/// A due tick on a lost path says so, takes back what was confirmed, and asks
/// for the first probe of a new search under the old upper bound.
pub proof fn law_ticks_restart_a_lost_path(s: PmtuState, now: Instant, interval: Duration)
    requires
        s.phase is Lost,
        passed(s.mtu_ping_sent, now, pause(s.phase, interval)),
    ensures
        ({
            let r = s.ticked(now, interval);
            let actions = s.tick_actions(now, interval);
            &&& r.minmtu == 0 && r.maxmtu == s.maxmtu && r.mtu == s.mtu
            &&& r.phase == (PmtuPhase::Discovery { sent: 1 })
            &&& actions.len() == 2
            &&& actions[0] == PmtuAction::LogReset
            &&& actions[1] == (PmtuAction::SendProbe {
                len: crate::pmtu::probe_len(0, s.maxmtu, 0) as u16,
                counts_miss: false,
            })
        }),
{
    crate::pmtu_laws::law_probe_stays_between_the_bounds(0, s.maxmtu, 0);
    assert(s.tick_actions(now, interval) == seq![PmtuAction::LogReset] + s.ready_to_probe(
        now,
    ).probes());
}

/// A discovery probe exceeds the floor, `minmtu` but at least 512, by the
/// width of the open interval raised to the power of `p / 7`, rounded to the
/// nearest integer, where `p` falls from seven to zero over a cycle of eight;
/// while the upper bound is the link ceiling, to the power of `0.97 * p / 7`.
/// Between two integers, the nearest is told by comparing powers of the odd
/// numbers next to its double.
pub proof fn law_probe_sizes_are_rounded_powers(minmtu: u16, maxmtu: u16, sent: u8)
    requires
        larger(minmtu, 512) < maxmtu,
    ensures
        ({
            let floor = larger(minmtu, 512);
            let offset = crate::pmtu::probe_len(minmtu, maxmtu, sent) - floor;
            let p = (7 - sent % 8) as nat;
            let num = if maxmtu == 1518 {
                97 * p
            } else {
                p
            };
            let den = if maxmtu == 1518 {
                700nat
            } else {
                7nat
            };
            let power = vstd::arithmetic::power::pow(2, den) * vstd::arithmetic::power::pow(
                maxmtu - floor,
                num,
            );
            &&& offset >= 1
            &&& vstd::arithmetic::power::pow(2 * offset - 1, den) <= power
            &&& power < vstd::arithmetic::power::pow(2 * offset + 1, den)
        }),
{
    let base = maxmtu - crate::pmtu::probe_floor(minmtu);
    let (num, den) = crate::pmtu::probe_exponent(maxmtu, sent);
    let r = crate::rounding::lemma_rounding_exists(base, num, den);
    crate::rounding::lemma_rounded_power(base, num, den, r);
}

/// Rounding is to the nearest integer: the power lies between half the odd
/// number below its double and half the one above.
pub proof fn law_rounding_is_to_the_nearest(base: int, num: nat, den: nat, r: int)
    requires
        den > 0,
        num <= den,
        base >= 1,
    ensures
        ({
            let power = vstd::arithmetic::power::pow(2, den) * vstd::arithmetic::power::pow(
                base,
                num,
            );
            crate::rounding::rounded_power(base, num, den) == r <==> {
                &&& r >= 1
                &&& vstd::arithmetic::power::pow(2 * r - 1, den) <= power
                &&& power < vstd::arithmetic::power::pow(2 * r + 1, den)
            }
        }),
{
    let s = crate::rounding::lemma_rounding_exists(base, num, den);
    crate::rounding::lemma_rounded_power(base, num, den, s);
    if crate::rounding::rounds_to(base, num, den, r) {
        crate::rounding::lemma_rounded_power(base, num, den, r);
    }
}

/// With nothing left to search, a probe has the size of the floor.
pub proof fn law_closed_searches_probe_the_floor(minmtu: u16, maxmtu: u16, sent: u8)
    requires
        larger(minmtu, 512) >= maxmtu,
    ensures
        crate::pmtu::probe_len(minmtu, maxmtu, sent) == larger(minmtu, 512),
{
}

} // verus!
