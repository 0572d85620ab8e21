//! What holds of path MTU discovery as a whole, whatever happens in between.
use crate::clock::{Duration, Instant};
use crate::pmtu::{PmtuAction, PmtuPhase, PmtuState};
use vstd::prelude::*;

verus! {

/// A size that was measured: none yet, or one that counts as working.
pub open spec fn measured_size(size: u16) -> bool {
    size == 0 || crate::pmtu::MINMTU <= size <= crate::pmtu::MTU
}

/// What every state of the search satisfies.
pub open spec fn sizes_measured(s: PmtuState) -> bool {
    measured_size(s.minmtu) && measured_size(s.mtu)
}

/// `minmtu` and `mtu` are always zero or in `MINMTU..=MTU`: a fresh state
/// starts so and every event keeps it, whatever the peer claims and whatever
/// `maxmtu` is.
pub proof fn law_sizes_stay_measured(
    s: PmtuState,
    len: u16,
    now: Instant,
    interval: Duration,
    sent: bool,
)
    requires
        sizes_measured(s),
    ensures
        sizes_measured(s.ticked(now, interval)),
        sizes_measured(s.replied(len, now)),
        sizes_measured(s.acked(len, now)),
        sizes_measured(s.capped(len).settled()),
        sizes_measured(s.timed_out()),
        sizes_measured(s.missed()),
        sizes_measured(s.attempted(now, sent)),
        sizes_measured(s.rediscovering()),
        sizes_measured(PmtuState::fresh(now, len)),
{
}

/// The upper bound never exceeds the link ceiling once it starts out within
/// it: no event raises it further, whatever the peer claims.
pub proof fn law_ceiling_holds(
    s: PmtuState,
    len: u16,
    now: Instant,
    interval: Duration,
    sent: bool,
)
    requires
        measured_size(s.minmtu),
        s.maxmtu <= crate::pmtu::MTU,
    ensures
        s.ticked(now, interval).maxmtu <= crate::pmtu::MTU,
        s.replied(len, now).maxmtu <= crate::pmtu::MTU,
        s.acked(len, now).maxmtu <= crate::pmtu::MTU,
        s.capped(len).settled().maxmtu <= crate::pmtu::MTU,
        s.timed_out().maxmtu <= crate::pmtu::MTU,
        s.missed().maxmtu <= crate::pmtu::MTU,
        s.attempted(now, sent).maxmtu <= crate::pmtu::MTU,
        s.rediscovering().maxmtu <= crate::pmtu::MTU,
{
}

/// The phase counters stay in range: fewer than twenty probes in discovery,
/// one or two misses while revalidating.
pub proof fn law_phase_stays_in_range(
    s: PmtuState,
    len: u16,
    now: Instant,
    interval: Duration,
    sent: bool,
)
    requires
        s.phase.wf(),
    ensures
        s.ticked(now, interval).phase.wf(),
        s.replied(len, now).phase.wf(),
        s.acked(len, now).phase.wf(),
        s.capped(len).settled().phase.wf(),
        s.timed_out().phase.wf(),
        s.missed().phase.wf(),
        s.attempted(now, sent).phase.wf(),
        s.rediscovering().phase.wf(),
        PmtuState::fresh(now, len).phase.wf(),
{
}

/// What is confirmed never overruns the upper bound. A datagram that turns
/// out too long is the exception: it lowers the bound below a fixed MTU that
/// was confirmed before, so the last clause leaves the fixed phases out.
pub proof fn law_bounds_stay_ordered(
    s: PmtuState,
    len: u16,
    now: Instant,
    interval: Duration,
    sent: bool,
)
    requires
        s.minmtu <= s.maxmtu,
    ensures
        s.ticked(now, interval).minmtu <= s.ticked(now, interval).maxmtu,
        s.replied(len, now).minmtu <= s.replied(len, now).maxmtu,
        s.acked(len, now).minmtu <= s.acked(len, now).maxmtu,
        s.timed_out().minmtu <= s.timed_out().maxmtu,
        s.missed().minmtu <= s.missed().maxmtu,
        s.attempted(now, sent).minmtu <= s.attempted(now, sent).maxmtu,
        s.rediscovering().minmtu <= s.rediscovering().maxmtu,
        PmtuState::fresh(now, len).minmtu <= PmtuState::fresh(now, len).maxmtu,
        !s.phase.fixed() ==> s.capped(len).settled().minmtu <= s.capped(len).settled().maxmtu,
{
}

/// A reply or acknowledgement too small to count as working raises nothing,
/// though a reply confirms that UDP gets through.
pub proof fn law_small_replies_raise_nothing(s: PmtuState, len: u16, now: Instant)
    requires
        len < crate::pmtu::MINMTU,
    ensures
        s.replied(len, now).minmtu <= s.minmtu,
        s.acked(len, now).minmtu == s.minmtu,
        s.replied(len, now).mtu == s.mtu,
        s.acked(len, now).mtu == s.mtu,
        s.replied(len, now).udp_confirmed,
        s.replied(len, now).udp_reply_rx == now,
{
}

/// A search that confirmed nothing settles at an MTU of zero: the path is
/// unusable.
pub proof fn law_dead_path_settles_at_zero(s: PmtuState)
    requires
        s.minmtu == 0,
        s.converged(),
    ensures
        s.settled().mtu == 0,
        s.settled().phase == PmtuPhase::Steady,
{
}

/// An acknowledgement that nobody asked for changes neither the bounds, nor
/// the MTU, nor whether UDP counts as confirmed; all it can do is end the
/// doubt about an MTU that was fixed already.
pub proof fn law_unsolicited_ack_confirms_nothing(s: PmtuState, len: u16, now: Instant)
    requires
        !s.ping_sent,
    ensures
        s.acked(len, now) == s || (s.phase.fixed() && s.acked(len, now) == s.reconfirmed(now)),
{
}

/// An acknowledgement never measures a round trip and leaves the probe
/// outstanding.
pub proof fn law_ack_leaves_the_probe_outstanding(s: PmtuState, len: u16, now: Instant)
    ensures
        s.acked(len, now).ping_sent == s.ping_sent,
        s.acked(len, now).udp_ping_rtt == s.udp_ping_rtt,
        s.acked(len, now).udp_ping_sent == s.udp_ping_sent,
{
}

/// Three submitted probes in a row without an answer lose a steady path.
pub proof fn law_three_misses_lose_the_path(s: PmtuState)
    requires
        s.phase == PmtuPhase::Steady,
    ensures
        s.missed().phase == (PmtuPhase::Revalidate { misses: 1 }),
        s.missed().missed().phase == (PmtuPhase::Revalidate { misses: 2 }),
        s.missed().missed().missed().phase == PmtuPhase::Lost,
        s.missed().missed().missed() == (PmtuState { phase: PmtuPhase::Lost, ..s }),
{
}

/// One answer of `maxmtu` bytes undoes every miss, by UDP or over the meta
/// connection.
pub proof fn law_answer_undoes_misses(s: PmtuState, now: Instant)
    requires
        s.phase.fixed(),
        s.maxmtu <= crate::pmtu::MTU,
    ensures
        s.replied(s.maxmtu, now).phase == PmtuPhase::Steady,
        s.acked(s.maxmtu, now).phase == PmtuPhase::Steady,
        s.replied(s.maxmtu, now).mtu_ping_sent == now,
        s.acked(s.maxmtu, now).mtu_ping_sent == now,
        s.replied(s.maxmtu, now).mtu == s.mtu,
        s.replied(s.maxmtu, now).maxmtu == s.maxmtu,
        s.acked(s.maxmtu, now).mtu == s.mtu,
        s.acked(s.maxmtu, now).maxmtu == s.maxmtu,
{
}

/// Ticks alone never count a miss and never move a fixed MTU: a path whose
/// probes cannot be submitted stays as it is.
pub proof fn law_ticks_alone_lose_nothing(s: PmtuState, now: Instant, interval: Duration)
    requires
        s.phase is Steady || s.phase is Revalidate,
    ensures
        s.ticked(now, interval) == s || s.ticked(now, interval) == (PmtuState {
            mtu_ping_sent: now,
            ..s
        }),
{
}

/// The tick after a path was lost starts discovery over, with nothing
/// confirmed and the old upper bound.
pub proof fn law_lost_path_starts_over(s: PmtuState, now: Instant, interval: Duration)
    requires
        s.phase == PmtuPhase::Lost,
        s.tick_due(now, interval),
    ensures
        s.ticked(now, interval).phase == (PmtuPhase::Discovery { sent: 1 }),
        s.ticked(now, interval).minmtu == 0,
        s.ticked(now, interval).maxmtu == s.maxmtu,
        s.ticked(now, interval).mtu == s.mtu,
        s.tick_actions(now, interval)[0] == PmtuAction::LogReset,
        s.tick_actions(now, interval).len() == 2,
{
}

/// A reply above the upper bound reopens the search past its first probe, so
/// that the bound is not seeded anew.
pub proof fn law_larger_reply_reopens_the_search(s: PmtuState, len: u16, now: Instant)
    requires
        s.maxmtu < len <= crate::pmtu::MTU,
    ensures
        s.replied(len, now).maxmtu == crate::pmtu::MTU,
        s.replied(len, now).phase == (PmtuPhase::Discovery { sent: 1 }),
        s.replied(len, now).minmtu == crate::pmtu::usable_size(len),
        s.reply_log(len, now) == seq![PmtuAction::LogIncrease],
{
}

/// Timing out twice is timing out once.
pub proof fn law_timeout_is_idempotent(s: PmtuState)
    ensures
        s.timed_out().timed_out() == s.timed_out(),
        !s.timed_out().udp_confirmed,
{
}

/// A path that has timed out, like one that was never probed, is probed at
/// once, whatever the interval.
pub proof fn law_rediscovery_is_due_at_once(s: PmtuState, now: Instant, interval: Duration)
    requires
        s.udp_confirmed,
    ensures
        s.timed_out().probe_owed(now, interval),
{
}

/// A probe that could not be submitted paces the next try and does nothing
/// else.
pub proof fn law_failed_submission_only_paces(s: PmtuState, now: Instant, interval: Duration)
    ensures
        s.attempted(now, false).ping_sent == s.ping_sent,
        s.attempted(now, false).udp_ping_sent == s.udp_ping_sent,
        s.attempted(now, false) == (PmtuState {
            udp_probe_attempted: true,
            udp_probe_attempted_at: now,
            ..s
        }),
        interval.nanos > 0 ==> !s.attempted(now, false).probe_owed(now, interval),
{
}

/// Every probe that a tick asks for is at least as long as its header and at
/// most as long as the link allows.
pub proof fn law_probes_fit_the_link(s: PmtuState, now: Instant, interval: Duration, i: int)
    requires
        measured_size(s.minmtu),
        s.maxmtu <= crate::pmtu::MTU,
        0 <= i < s.tick_actions(now, interval).len(),
        s.tick_actions(now, interval)[i] is SendProbe,
    ensures
        crate::pmtu::MIN_PROBE_SIZE <= s.tick_actions(now, interval)[i]->len <= crate::pmtu::MTU,
{
    let r = s.ready_to_probe(now);
    if r.phase is Discovery {
        law_probe_stays_between_the_bounds(r.minmtu, r.maxmtu, r.phase->sent);
    }
    let logs = s.settled_log() + s.restarted_log();
    assert(s.tick_actions(now, interval) == logs + r.probes());
    assert(r.maxmtu <= crate::pmtu::MTU && measured_size(r.minmtu));
    if i >= logs.len() {
        let probe = r.probes()[i - logs.len()];
        assert(s.tick_actions(now, interval)[i] == probe);
        match r.phase {
            PmtuPhase::Discovery { sent } => {
                let size = crate::pmtu::probe_len(r.minmtu, r.maxmtu, sent);
                assert(crate::pmtu::MINMTU <= size <= crate::pmtu::MTU);
                assert(probe->len == size);
            },
            _ => {},
        }
    } else {
        assert(s.tick_actions(now, interval)[i] == logs[i]);
        assert(logs[i] is LogFixed || logs[i] is LogReset);
    }
}

/// The probe's size is found: its power does round to some integer.
proof fn lemma_probe_offset(minmtu: u16, maxmtu: u16, sent: u8) -> (r: int)
    requires
        crate::pmtu::probe_floor(minmtu) < maxmtu,
    ensures
        1 <= r <= maxmtu - crate::pmtu::probe_floor(minmtu),
        crate::rounding::rounds_to(
            maxmtu - crate::pmtu::probe_floor(minmtu),
            crate::pmtu::probe_exponent(maxmtu, sent).0,
            crate::pmtu::probe_exponent(maxmtu, sent).1,
            r,
        ),
        crate::pmtu::probe_len(minmtu, maxmtu, sent) == crate::pmtu::probe_floor(minmtu) + r,
{
    let base = maxmtu - crate::pmtu::probe_floor(minmtu);
    let (num, den) = crate::pmtu::probe_exponent(maxmtu, sent);
    let r = crate::rounding::lemma_rounding_exists(base, num, den);
    crate::rounding::lemma_rounded_power(base, num, den, r);
    r
}

/// A discovery probe is larger than all that is confirmed and no larger than
/// the upper bound, so every answered probe is progress.
pub proof fn law_probe_stays_between_the_bounds(minmtu: u16, maxmtu: u16, sent: u8)
    ensures
        crate::pmtu::probe_floor(minmtu) < maxmtu ==> crate::pmtu::probe_floor(minmtu)
            < crate::pmtu::probe_len(minmtu, maxmtu, sent) <= maxmtu,
        crate::pmtu::probe_floor(minmtu) >= maxmtu ==> crate::pmtu::probe_len(minmtu, maxmtu, sent)
            == crate::pmtu::probe_floor(minmtu),
{
    if crate::pmtu::probe_floor(minmtu) < maxmtu {
        let r = lemma_probe_offset(minmtu, maxmtu, sent);
    }
}

/// The last probe of a cycle is one byte above the floor.
pub proof fn law_last_probe_is_one_above(minmtu: u16, maxmtu: u16, sent: u8)
    requires
        crate::pmtu::probe_floor(minmtu) < maxmtu,
        sent % 8 == 7,
    ensures
        crate::pmtu::probe_len(minmtu, maxmtu, sent) == crate::pmtu::probe_floor(minmtu) + 1,
{
    let base = maxmtu - crate::pmtu::probe_floor(minmtu);
    let (num, den) = crate::pmtu::probe_exponent(maxmtu, sent);
    crate::rounding::lemma_power_zero(base, den);
    crate::rounding::lemma_rounded_power(base, num, den, 1);
}

/// With an upper bound below the link ceiling, a cycle starts with the bound
/// itself: if the kernel knew the path, one probe is enough.
pub proof fn law_first_probe_is_a_known_bound(minmtu: u16, maxmtu: u16, sent: u8)
    requires
        crate::pmtu::probe_floor(minmtu) < maxmtu,
        maxmtu != crate::pmtu::MTU,
        sent % 8 == 0,
    ensures
        crate::pmtu::probe_len(minmtu, maxmtu, sent) == maxmtu,
{
    let base = maxmtu - crate::pmtu::probe_floor(minmtu);
    crate::rounding::lemma_power_one(base, 7);
    crate::rounding::lemma_rounded_power(base, 7, 7, base);
}

/// A path whose MTU was known from the start is measured in one round trip:
/// the first tick asks for one probe of that size, and its reply settles the
/// search there.
pub proof fn law_known_bound_settles_at_once(
    m: u16,
    start: Instant,
    now: Instant,
    interval: Duration,
    later: Instant,
)
    requires
        crate::pmtu::MINMTU <= m < crate::pmtu::MTU,
    ensures
        ({
            let fresh = PmtuState::fresh(start, m);
            let probing = fresh.ticked(now, interval);
            let done = probing.replied(m, later);
            &&& fresh.tick_actions(now, interval) == seq![
                PmtuAction::SendProbe { len: m, counts_miss: false },
            ]
            &&& done.phase == PmtuPhase::Steady
            &&& done.mtu == m && done.minmtu == m && done.maxmtu == m
            &&& done.udp_confirmed
            &&& probing.reply_log(m, later) == seq![PmtuAction::LogFixed { mtu: m, probes: 1 }]
        }),
{
    if crate::pmtu::MINMTU < m {
        law_first_probe_is_a_known_bound(0, m, 0);
    }
    let fresh = PmtuState::fresh(start, m);
    assert(fresh.ready_to_probe(now) == (PmtuState { mtu_ping_sent: now, ..fresh }));
    assert(fresh.settled_log() + fresh.restarted_log() == Seq::<PmtuAction>::empty());
}

/// Within a cycle, unanswered probes never grow.
pub proof fn law_probes_shrink_over_a_cycle(minmtu: u16, maxmtu: u16, sent: u8, later: u8)
    requires
        sent % 8 <= later % 8,
    ensures
        crate::pmtu::probe_len(minmtu, maxmtu, later) <= crate::pmtu::probe_len(
            minmtu,
            maxmtu,
            sent,
        ),
{
    if crate::pmtu::probe_floor(minmtu) < maxmtu {
        let r = lemma_probe_offset(minmtu, maxmtu, later);
        let s = lemma_probe_offset(minmtu, maxmtu, sent);
        crate::rounding::lemma_rounding_grows(
            maxmtu - crate::pmtu::probe_floor(minmtu),
            crate::pmtu::probe_exponent(maxmtu, later).0,
            crate::pmtu::probe_exponent(maxmtu, sent).0,
            crate::pmtu::probe_exponent(maxmtu, sent).1,
            r,
            s,
        );
    }
}

/// The state after a tick at each of the given times, with no other event.
pub open spec fn ticked_through(s: PmtuState, times: Seq<Instant>, interval: Duration) -> PmtuState
    decreases times.len(),
{
    if times.len() == 0 {
        s
    } else {
        ticked_through(s.ticked(times[0], interval), times.drop_first(), interval)
    }
}

/// Each time is at least one discovery tick after the one before.
pub open spec fn discovery_paced(start: Instant, times: Seq<Instant>) -> bool {
    forall|i: int|
        0 <= i < times.len() ==> (#[trigger] times[i]).nanos >= (if i == 0 {
            start.nanos
        } else {
            times[i - 1].nanos
        }) + crate::pmtu::PMTU_PROBE_TICK_NANOS
}

/// How many more ticks discovery takes at most.
pub open spec fn ticks_to_settle(phase: PmtuPhase) -> int {
    match phase {
        PmtuPhase::Discovery { sent } => 21 - sent,
        PmtuPhase::Fix => 1,
        _ => 0,
    }
}

/// A steady state stays as it is under ticks.
proof fn lemma_steady_through(s: PmtuState, times: Seq<Instant>, interval: Duration)
    requires
        s.phase == PmtuPhase::Steady,
    ensures
        ticked_through(s, times, interval).phase == PmtuPhase::Steady,
        ticked_through(s, times, interval).mtu == s.mtu,
        ticked_through(s, times, interval).minmtu == s.minmtu,
        ticked_through(s, times, interval).maxmtu == s.maxmtu,
    decreases times.len(),
{
    if times.len() > 0 {
        lemma_steady_through(s.ticked(times[0], interval), times.drop_first(), interval);
    }
}

/// Discovery always ends: a silent path settles within twenty-one ticks, at
/// what was confirmed before.
pub proof fn law_discovery_ends(s: PmtuState, times: Seq<Instant>, interval: Duration)
    requires
        s.phase is Discovery || s.phase is Fix,
        s.phase.wf(),
        discovery_paced(s.mtu_ping_sent, times),
        times.len() >= ticks_to_settle(s.phase),
    ensures
        ticked_through(s, times, interval).phase == PmtuPhase::Steady,
        ticked_through(s, times, interval).mtu == s.settled_mtu(),
        ticked_through(s, times, interval).maxmtu == s.settled_mtu(),
    decreases times.len(),
{
    let t = times[0];
    let next = s.ticked(t, interval);
    let rest = times.drop_first();
    assert(s.tick_due(t, interval));
    if s.converged() {
        lemma_steady_through(next, rest, interval);
    } else {
        assert(next.mtu_ping_sent == t);
        assert(discovery_paced(t, rest)) by {
            assert forall|i: int| 0 <= i < rest.len() implies (#[trigger] rest[i]).nanos >= (if i
                == 0 {
                t.nanos
            } else {
                rest[i - 1].nanos
            }) + crate::pmtu::PMTU_PROBE_TICK_NANOS by {
                assert(rest[i] == times[i + 1]);
            }
        }
        law_discovery_ends(next, rest, interval);
    }
}

} // verus!
