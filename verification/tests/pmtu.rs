//! Path MTU discovery, event by event.
use tincd::clock::{Duration, Instant};
use tincd::pmtu::{probe_size, PmtuAction, PmtuPhase, PmtuState, MINMTU, MIN_PROBE_SIZE, MTU};

fn t0() -> Instant {
    Instant { nanos: 1_000_000_000_000 }
}

fn after(start: Instant, span: Duration) -> Instant {
    start.checked_add(span).unwrap()
}

fn secs(n: u64) -> Duration {
    Duration::from_secs(n)
}

fn millis(n: u64) -> Duration {
    Duration::from_millis(n)
}

// probe_size formula.

#[test]
fn probe_size_first_is_1329() {
    let p = probe_size(0, MTU, 0);
    assert!((1329..=1330).contains(&p), "got {p}");
}

#[test]
fn probe_size_second_is_1407() {
    assert_eq!(probe_size(1329, MTU, 1), 1407);
}

#[test]
fn probe_size_last_is_min_plus_1() {
    assert_eq!(probe_size(0, MTU, 7), MINMTU + 1);
    assert_eq!(probe_size(1000, MTU, 7), 1001);
}

#[test]
fn probe_size_maxmtu_not_1518_multiplier_1() {
    assert_eq!(probe_size(0, 1400, 0), 1400);
}

#[test]
fn probe_size_interval_zero() {
    assert_eq!(probe_size(0, 400, 0), MINMTU);
}

// tick: discovery.

#[test]
fn tick_discovery_advances_phase() {
    let now = t0();
    let mut s = PmtuState::new(now, MTU);
    let out = s.tick(now, secs(60));
    assert_eq!(out.len(), 1);
    assert!(
        matches!(out[0], PmtuAction::SendProbe { len, .. } if (1329..=1330).contains(&len))
    );
    assert_eq!(s.phase, PmtuPhase::Discovery { sent: 1 });
}

#[test]
fn tick_gated_by_333ms() {
    let now = t0();
    let mut s = PmtuState::new(now, MTU);
    s.tick(now, secs(60));
    let out = s.tick(after(now, millis(100)), secs(60));
    assert!(out.is_empty());
    assert_eq!(s.phase, PmtuPhase::Discovery { sent: 1 });
    let out = s.tick(after(now, millis(400)), secs(60));
    assert_eq!(out.len(), 1);
    assert_eq!(s.phase, PmtuPhase::Discovery { sent: 2 });
}

#[test]
fn tick_at_20_fixes() {
    let now = t0();
    let mut s = PmtuState::new(now, MTU);
    s.phase = PmtuPhase::Discovery { sent: 19 };
    s.minmtu = 1400;
    let out = s.tick(after(now, secs(1)), secs(60));
    assert_eq!(out.len(), 1);
    assert!(matches!(out[0], PmtuAction::SendProbe { .. }));
    assert_eq!(s.phase, PmtuPhase::Fix);
    let out = s.tick(after(now, secs(2)), secs(60));
    assert_eq!(s.mtu, 1400);
    assert_eq!(s.maxmtu, 1400);
    assert_eq!(s.phase, PmtuPhase::Steady);
    assert!(out.contains(&PmtuAction::SendProbe {
        len: 1400,
        counts_miss: true,
    }));
    assert!(out.contains(&PmtuAction::LogFixed {
        mtu: 1400,
        probes: 20
    }));
}

// on_probe_reply.

#[test]
fn on_probe_reply_raises_minmtu() {
    let now = t0();
    let mut s = PmtuState::new(now, MTU);
    s.minmtu = 1000;
    let out = s.on_probe_reply(1200, now);
    assert!(out.is_empty());
    assert_eq!(s.minmtu, 1200);
    assert!(s.udp_confirmed);
}

#[test]
fn on_probe_reply_early_converge() {
    let now = t0();
    let mut s = PmtuState::new(now, 1400);
    s.minmtu = 1000;
    let out = s.on_probe_reply(1400, now);
    assert_eq!(
        out,
        vec![PmtuAction::LogFixed {
            mtu: 1400,
            probes: 0
        }]
    );
    assert_eq!(s.mtu, 1400);
    assert_eq!(s.phase, PmtuPhase::Steady);
}

#[test]
fn on_probe_reply_increase_detected() {
    let now = t0();
    let mut s = PmtuState::new(now, MTU);
    s.maxmtu = 1400;
    s.minmtu = 1400;
    s.mtu = 1400;
    s.phase = PmtuPhase::Steady;
    let out = s.on_probe_reply(1401, now);
    assert_eq!(out, vec![PmtuAction::LogIncrease]);
    assert_eq!(s.minmtu, 1401);
    assert_eq!(s.maxmtu, MTU);
    assert_eq!(s.phase, PmtuPhase::Discovery { sent: 1 });
}

#[test]
fn on_probe_reply_steady_confirm_rewinds() {
    let now = t0();
    let mut s = PmtuState::new(now, MTU);
    s.maxmtu = 1400;
    s.minmtu = 1400;
    s.phase = PmtuPhase::Revalidate { misses: 2 };
    let out = s.on_probe_reply(1400, after(now, secs(5)));
    assert!(out.is_empty());
    assert_eq!(s.phase, PmtuPhase::Steady);
    assert_eq!(s.mtu_ping_sent, after(now, secs(5)));
}

#[test]
fn on_probe_reply_stamps_udp_reply_rx() {
    let t0 = t0();
    let mut s = PmtuState::new(t0, MTU);
    let t1 = after(t0, secs(7));
    s.on_probe_reply(800, t1);
    assert_eq!(s.udp_reply_rx, t1);
    assert!(s.udp_confirmed);
}

#[test]
fn on_probe_reply_records_rtt() {
    let now = t0();
    let mut s = PmtuState::new(now, MTU);
    s.ping_sent = true;
    s.udp_ping_sent = now;
    s.on_probe_reply(800, after(now, millis(42)));
    assert_eq!(s.udp_ping_rtt, Some(42_000));
    assert!(!s.ping_sent);
}

// on_emsgsize.

#[test]
fn on_emsgsize_caps_maxmtu() {
    let now = t0();
    let mut s = PmtuState::new(now, MTU);
    s.mtu = 1500;
    let out = s.on_emsgsize(1450);
    assert!(out.is_empty());
    assert_eq!(s.maxmtu, 1449);
    assert_eq!(s.mtu, 1449);
}

#[test]
fn on_emsgsize_floors_at_minmtu() {
    let now = t0();
    let mut s = PmtuState::new(now, MTU);
    let _ = s.on_emsgsize(100);
    assert_eq!(s.maxmtu, MINMTU);
}

#[test]
fn on_emsgsize_can_converge() {
    let now = t0();
    let mut s = PmtuState::new(now, MTU);
    s.minmtu = 1400;
    let out = s.on_emsgsize(1401);
    assert_eq!(
        out,
        vec![PmtuAction::LogFixed {
            mtu: 1400,
            probes: 0
        }]
    );
    assert_eq!(s.mtu, 1400);
}

// steady state & reset.

#[test]
fn steady_state_probes_maxmtu_plus_one() {
    let now = t0();
    let mut s = PmtuState::new(now, MTU);
    s.mtu = 1400;
    s.minmtu = 1400;
    s.maxmtu = 1400;
    s.phase = PmtuPhase::Steady;
    s.mtu_ping_sent = now;
    let out = s.tick(after(now, secs(30)), secs(60));
    assert!(out.is_empty());
    let out = s.tick(after(now, secs(61)), secs(60));
    assert_eq!(
        out,
        vec![
            PmtuAction::SendProbe {
                len: 1400,
                counts_miss: true,
            },
            PmtuAction::SendProbe {
                len: 1401,
                counts_miss: false,
            },
        ]
    );
    assert_eq!(s.phase, PmtuPhase::Steady);
    s.on_counted_probe_sent();
    assert_eq!(s.phase, PmtuPhase::Revalidate { misses: 1 });
}

#[test]
fn steady_state_at_mtu_no_plus_one() {
    let now = t0();
    let mut s = PmtuState::new(now, MTU);
    s.maxmtu = MTU - 1;
    s.minmtu = MTU - 1;
    s.phase = PmtuPhase::Steady;
    let out = s.tick(after(now, secs(61)), secs(60));
    assert_eq!(
        out,
        vec![PmtuAction::SendProbe {
            len: MTU - 1,
            counts_miss: true,
        }]
    );
}

#[test]
fn failed_revalidation_submissions_do_not_count() {
    let now = t0();
    let mut s = PmtuState::new(now, MTU);
    s.mtu = 1400;
    s.minmtu = 1400;
    s.maxmtu = 1400;
    s.phase = PmtuPhase::Steady;
    let pi = secs(60);

    for second in [61, 122, 183] {
        let out = s.tick(after(now, secs(second)), pi);
        assert!(matches!(
            out.first(),
            Some(PmtuAction::SendProbe {
                len: 1400,
                counts_miss: true
            })
        ));
        assert_eq!(s.phase, PmtuPhase::Steady);
    }
}

#[test]
fn four_lost_reprobes_reset() {
    let now = t0();
    let mut s = PmtuState::new(now, MTU);
    s.mtu = 1400;
    s.minmtu = 1400;
    s.maxmtu = 1400;
    s.phase = PmtuPhase::Steady;
    s.udp_confirmed = true;
    let pi = secs(60);
    s.tick(after(now, secs(61)), pi);
    assert_eq!(s.phase, PmtuPhase::Steady);
    s.on_counted_probe_sent();
    assert_eq!(s.phase, PmtuPhase::Revalidate { misses: 1 });
    s.tick(after(now, secs(62)), pi);
    assert_eq!(s.phase, PmtuPhase::Revalidate { misses: 1 });
    s.on_counted_probe_sent();
    assert_eq!(s.phase, PmtuPhase::Revalidate { misses: 2 });
    s.tick(after(now, secs(63)), pi);
    assert_eq!(s.phase, PmtuPhase::Revalidate { misses: 2 });
    s.on_counted_probe_sent();
    assert_eq!(s.phase, PmtuPhase::Lost);
    let out = s.tick(after(now, secs(64)), pi);
    assert!(out.contains(&PmtuAction::LogReset));
    assert_eq!(s.phase, PmtuPhase::Discovery { sent: 1 });
    assert_eq!(s.minmtu, 0);
    assert_eq!(s.maxmtu, 1400);
}

// on_udp_timeout.

#[test]
fn on_udp_timeout_resets() {
    let now = t0();
    let mut s = PmtuState::new(now, MTU);
    s.udp_confirmed = true;
    s.mtu = 1400;
    s.minmtu = 1400;
    s.maxmtu = 1400;
    s.phase = PmtuPhase::Steady;
    s.maxrecentlen = 1200;
    s.udp_ping_rtt = Some(42_000);
    s.ping_sent = true;
    s.on_udp_timeout();
    assert!(!s.udp_confirmed);
    assert!(!s.ping_sent);
    assert_eq!(s.udp_ping_rtt, None);
    assert_eq!(s.maxrecentlen, 0);
    assert_eq!(s.phase, PmtuPhase::Discovery { sent: 0 });
    assert_eq!(s.minmtu, 0);
    assert_eq!(s.maxmtu, MTU);
    assert_eq!(s.mtu, 1400);
}

// udp_timed_out.

#[test]
fn udp_timed_out_gates_on_outstanding_probe() {
    let now = t0();
    let to = secs(30);

    let mut s = PmtuState::new(now, MTU);
    s.udp_confirmed = true;
    s.ping_sent = false;
    s.udp_ping_sent = now;
    s.udp_reply_rx = now;
    assert!(!s.udp_timed_out(after(now, secs(60)), to));

    s.ping_sent = true;
    s.udp_ping_sent = after(now, secs(55));
    assert!(!s.udp_timed_out(after(now, secs(60)), to));

    s.udp_ping_sent = now;
    assert!(s.udp_timed_out(after(now, secs(31)), to));

    s.udp_confirmed = false;
    assert!(!s.udp_timed_out(after(now, secs(31)), to));
}

#[test]
fn udp_probe_attempt_tracks_submission_separately() {
    let now = t0();
    let interval = secs(2);
    let mut s = PmtuState::new(now, MTU);

    let attempted_at = after(now, interval);
    s.on_udp_probe_attempt(attempted_at, false);
    assert!(!s.ping_sent);
    assert_eq!(s.udp_probe_attempted_at, attempted_at);
    assert_eq!(s.udp_ping_sent, now);
    assert!(!s.udp_probe_due(attempted_at, interval));
    assert!(s.udp_probe_due(after(attempted_at, interval), interval));

    let sent_at = after(attempted_at, interval);
    s.on_udp_probe_attempt(sent_at, true);
    assert!(s.ping_sent);
    assert_eq!(s.udp_ping_sent, sent_at);
}

#[test]
fn initial_udp_discovery_probe_is_due_immediately() {
    let now = t0();
    let s = PmtuState::new(now, MTU);

    assert!(s.udp_probe_due(now, secs(2)));
}

#[test]
fn udp_timeout_makes_rediscovery_probe_due_immediately() {
    let now = t0();
    let interval = secs(2);
    let mut s = PmtuState::new(now, MTU);
    s.udp_confirmed = true;
    s.ping_sent = true;
    s.on_udp_timeout();

    assert!(s.udp_probe_due(now, interval));
}

#[test]
fn confirmed_idle_path_requires_cold_revalidation() {
    let now = t0();
    let timeout = secs(30);
    let mut s = PmtuState::new(now, MTU);
    s.udp_confirmed = true;
    s.udp_reply_rx = now;

    let almost = Duration { nanos: timeout.nanos - millis(1).nanos };
    assert!(!s.udp_needs_cold_revalidation(after(now, almost), timeout));
    assert!(s.udp_needs_cold_revalidation(after(now, timeout), timeout));

    s.ping_sent = true;
    assert!(!s.udp_needs_cold_revalidation(after(now, timeout), timeout));
    s.udp_confirmed = false;
    s.ping_sent = false;
    assert!(!s.udp_needs_cold_revalidation(after(now, timeout), timeout));
}

// on_meta_ack.

#[test]
fn on_meta_ack_clamps_peer_supplied_len() {
    let now = t0();
    let mut s = PmtuState::new(now, MTU);
    s.ping_sent = true;
    assert!(s.on_meta_ack(u16::MAX, now));
    assert!(s.minmtu <= MTU, "peer-supplied len must be clamped");
    assert!(s.maxmtu <= MTU);
    assert!(s.udp_confirmed);
    let _ = s.tick(now, secs(5));
}

#[test]
fn on_meta_ack_rewinds_revalidate_to_steady() {
    let now = t0();
    let mut s = PmtuState::new(now, MTU);
    s.mtu = 1439;
    s.minmtu = 1439;
    s.maxmtu = 1439;
    s.phase = PmtuPhase::Revalidate { misses: 2 };
    s.ping_sent = false;
    assert!(!s.on_meta_ack(1439, after(now, secs(1))));
    assert_eq!(s.phase, PmtuPhase::Steady);
    assert_eq!(s.mtu_ping_sent, after(now, secs(1)));
    assert!(!s.udp_confirmed);

    s.phase = PmtuPhase::Revalidate { misses: 1 };
    s.ping_sent = true;
    assert!(s.on_meta_ack(1439, after(now, secs(2))));
    assert_eq!(s.phase, PmtuPhase::Steady);
    assert!(s.ping_sent);
}

#[test]
fn on_meta_ack_short_len_does_not_rewind() {
    let now = t0();
    let mut s = PmtuState::new(now, MTU);
    s.maxmtu = 1439;
    s.minmtu = 1439;
    s.phase = PmtuPhase::Revalidate { misses: 1 };
    s.ping_sent = true;
    assert!(s.on_meta_ack(18, now));
    assert_eq!(s.phase, PmtuPhase::Revalidate { misses: 1 });
}

#[test]
fn on_meta_ack_ignores_unsolicited() {
    let now = t0();
    let mut s = PmtuState::new(now, MTU);
    assert!(!s.ping_sent);
    assert!(!s.on_meta_ack(1400, now));
    assert!(!s.udp_confirmed);
    assert_eq!(s.minmtu, 0);
}

#[test]
fn on_udp_timeout_idempotent_when_unconfirmed() {
    let now = t0();
    let mut s = PmtuState::new(now, MTU);
    s.maxmtu = 1400;
    s.on_udp_timeout();
    assert_eq!(s.maxmtu, 1400);
}

#[test]
fn on_probe_reply_clamps_peer_supplied_len() {
    let now = t0();
    let mut s = PmtuState::new(now, MTU);
    let _ = s.on_probe_reply(u16::MAX, now);
    assert!(
        s.minmtu <= s.maxmtu,
        "invariant violated: minmtu={} > maxmtu={}",
        s.minmtu,
        s.maxmtu
    );
    assert!(
        s.minmtu <= MTU,
        "minmtu={} exceeds link ceiling MTU={}",
        s.minmtu,
        MTU
    );
}

#[test]
fn keepalive_reply_does_not_raise_minmtu() {
    let now = t0();
    let mut s = PmtuState::new(now, MTU);
    s.ping_sent = true;
    let _ = s.on_probe_reply(MIN_PROBE_SIZE, now);
    assert!(s.udp_confirmed);
    assert!(s.udp_ping_rtt.is_some());
    assert_eq!(s.minmtu, 0, "keepalive reply must not raise minmtu");
}

#[test]
fn discovery_timeout_with_only_tiny_replies_fixes_at_zero() {
    let now = t0();
    let mut s = PmtuState::new(now, MTU);
    let pi = secs(60);
    let mut t = now;
    for _ in 0..25 {
        t = after(t, secs(1));
        let _ = s.tick(t, pi);
        let _ = s.on_probe_reply(MIN_PROBE_SIZE, t);
    }
    assert!(
        s.minmtu == 0 || s.minmtu >= MINMTU,
        "invariant: {}",
        s.minmtu
    );
    assert_eq!(s.mtu, 0, "unusable path must fix at 0, got {}", s.mtu);
}

#[test]
fn increase_detector_gated_on_minmtu_floor() {
    let now = t0();
    let mut s = PmtuState::new(now, MTU);
    s.minmtu = 0;
    s.maxmtu = 0;
    s.mtu = 0;
    s.phase = PmtuPhase::Steady;
    let out = s.on_probe_reply(MIN_PROBE_SIZE, now);
    assert_eq!(out, vec![PmtuAction::LogIncrease]);
    assert_eq!(s.minmtu, 0);
    assert_eq!(s.maxmtu, MTU);
    assert_eq!(s.phase, PmtuPhase::Discovery { sent: 1 });
}

#[test]
fn on_meta_ack_small_len_does_not_raise_minmtu() {
    let now = t0();
    let mut s = PmtuState::new(now, MTU);
    s.ping_sent = true;
    assert!(s.on_meta_ack(MIN_PROBE_SIZE, now));
    assert!(s.udp_confirmed);
    assert_eq!(s.minmtu, 0);
}

#[test]
fn try_fix_clamp_down_below_minmtu_is_unusable() {
    let now = t0();
    let mut s = PmtuState::new(now, MTU);
    s.minmtu = 600;
    s.maxmtu = 431;
    s.phase = PmtuPhase::Fix;
    let _ = s.tick(after(now, secs(1)), secs(60));
    assert!(
        s.minmtu == 0 || s.minmtu >= MINMTU,
        "invariant: {}",
        s.minmtu
    );
    assert_eq!(s.mtu, 0);
}

#[test]
fn is_discovery_start_only_at_zero() {
    assert!(PmtuPhase::Discovery { sent: 0 }.is_discovery_start());
    assert!(!PmtuPhase::Discovery { sent: 1 }.is_discovery_start());
    assert!(!PmtuPhase::Steady.is_discovery_start());
}

// probe sizes over a whole cycle.

#[test]
fn probe_sizes_of_an_open_search() {
    let sizes: Vec<u16> = (0..8).map(|sent| probe_size(0, MTU, sent)).collect();
    assert_eq!(sizes, vec![1330, 826, 632, 558, 530, 519, 515, 513]);
    assert_eq!(probe_size(0, MTU, 8), 1330);
}

#[test]
fn probe_sizes_below_the_ceiling() {
    let sizes: Vec<u16> = (0..8).map(|sent| probe_size(0, 1400, sent)).collect();
    assert_eq!(sizes, vec![1400, 849, 640, 560, 530, 519, 515, 513]);
}

#[test]
fn probe_sizes_follow_the_formula() {
    for width in (1u16..=1006).step_by(23) {
        for sent in 0u8..8 {
            let position = f32::from(7 - sent);
            let below_ceiling = f32::from(width).powf(position / 7.0).round();
            let at_ceiling = f32::from(width).powf(0.97 * position / 7.0).round();
            let floor = MTU - width;
            assert_eq!(f32::from(probe_size(floor, MTU, sent) - floor), at_ceiling);
            let floor = MTU - 1 - width;
            if floor >= MINMTU {
                assert_eq!(f32::from(probe_size(floor, MTU - 1, sent) - floor), below_ceiling);
            }
        }
    }
}

/// The probes at these places in a cycle are within one byte of the formula
/// in single precision, for every width of the search.
fn assert_near_formula(maxmtu: u16, shortened: f32, places: [u8; 2]) {
    for width in 1..=maxmtu - MINMTU {
        let floor = maxmtu - width;
        for sent in places {
            let exponent = shortened * f32::from(7 - sent) / 7.0;
            let size = f32::from(width).powf(exponent).round();
            let offset = f32::from(probe_size(floor, maxmtu, sent) - floor);
            assert!((offset - size).abs() <= 1.0, "{width} at {sent}: {offset} for {size}");
        }
    }
}

#[test]
fn all_probe_sizes_below_the_ceiling() {
    for places in [[0, 1], [2, 3], [4, 5], [6, 7]] {
        assert_near_formula(MTU - 1, 1.0, places);
    }
}

#[test]
fn all_first_probe_sizes_at_the_ceiling() {
    assert_near_formula(MTU, 0.97, [0, 1]);
}

#[test]
fn all_early_probe_sizes_at_the_ceiling() {
    assert_near_formula(MTU, 0.97, [2, 3]);
}

#[test]
fn all_late_probe_sizes_at_the_ceiling() {
    assert_near_formula(MTU, 0.97, [4, 5]);
}

#[test]
fn all_last_probe_sizes_at_the_ceiling() {
    assert_near_formula(MTU, 0.97, [6, 7]);
}

// the search as a whole.

#[test]
fn known_bound_settles_at_once() {
    for m in [MINMTU, MINMTU + 1, 1400, MTU - 1] {
        let now = t0();
        let mut s = PmtuState::new(now, m);
        let probe = PmtuAction::SendProbe { len: m, counts_miss: false };
        assert_eq!(s.tick(now, secs(60)), vec![probe]);
        let out = s.on_probe_reply(m, after(now, millis(20)));
        assert_eq!(out, vec![PmtuAction::LogFixed { mtu: m, probes: 1 }]);
        assert_eq!((s.mtu, s.minmtu, s.maxmtu, s.phase), (m, m, m, PmtuPhase::Steady));
    }
}

#[test]
fn silent_path_settles_after_twenty_one_ticks() {
    let mut t = t0();
    let mut s = PmtuState::new(t, MTU);
    for sent in 1..=20 {
        t = after(t, millis(333));
        assert_eq!(s.tick(t, secs(60)).len(), 1);
        if sent < 20 {
            assert_eq!(s.phase, PmtuPhase::Discovery { sent });
        }
    }
    assert_eq!(s.phase, PmtuPhase::Fix);
    t = after(t, millis(332));
    assert!(s.tick(t, secs(60)).is_empty());
    t = after(t, millis(1));
    let out = s.tick(t, secs(60));
    assert_eq!(out[0], PmtuAction::LogFixed { mtu: 0, probes: 20 });
    assert_eq!(s.phase, PmtuPhase::Steady);
    assert_eq!((s.mtu, s.minmtu, s.maxmtu), (0, 0, 0));
}

#[test]
fn unusable_path_is_probed_at_the_smallest_size() {
    let now = t0();
    let mut s = PmtuState::new(now, 0);
    s.phase = PmtuPhase::Steady;
    let out = s.tick(after(now, secs(60)), secs(60));
    assert_eq!(
        out,
        vec![
            PmtuAction::SendProbe { len: MIN_PROBE_SIZE, counts_miss: true },
            PmtuAction::SendProbe { len: MIN_PROBE_SIZE, counts_miss: false },
        ]
    );
}

#[test]
fn revalidation_probes_once_a_second() {
    let now = t0();
    let mut s = PmtuState::new(now, 1400);
    s.phase = PmtuPhase::Revalidate { misses: 1 };
    assert!(s.tick(after(now, millis(999)), secs(60)).is_empty());
    let out = s.tick(after(now, secs(1)), secs(60));
    assert_eq!(out, vec![PmtuAction::SendProbe { len: 1400, counts_miss: true }]);
}

#[test]
fn round_trip_saturates() {
    let now = t0();
    let mut s = PmtuState::new(now, MTU);
    s.on_udp_probe_attempt(now, true);
    s.on_probe_reply(800, after(now, secs(5000)));
    assert_eq!(s.udp_ping_rtt, Some(u32::MAX));
    // A reply that nobody asked for measures nothing.
    s.on_probe_reply(800, after(now, secs(6000)));
    assert_eq!(s.udp_ping_rtt, Some(u32::MAX));
}

#[test]
fn clock_never_runs_backwards() {
    let now = t0();
    let mut s = PmtuState::new(now, MTU);
    s.ping_sent = true;
    s.udp_ping_sent = after(now, secs(9));
    s.on_probe_reply(800, now);
    assert_eq!(s.udp_ping_rtt, Some(0));
}

#[test]
fn refused_datagram_lowers_a_fixed_bound_below_what_was_confirmed() {
    let now = t0();
    let mut s = PmtuState::new(now, 1400);
    s.minmtu = 1400;
    s.mtu = 1400;
    s.phase = PmtuPhase::Steady;
    assert!(s.on_emsgsize(1301).is_empty());
    assert_eq!((s.mtu, s.minmtu, s.maxmtu), (1300, 1400, 1300));
    assert_eq!(s.phase, PmtuPhase::Steady);
}

#[test]
fn timing_out_twice_is_timing_out_once() {
    let now = t0();
    let mut s = PmtuState::new(now, 1400);
    s.udp_confirmed = true;
    s.on_udp_timeout();
    let once = s;
    s.on_udp_timeout();
    assert_eq!(s, once);
}

#[test]
fn restart_leaves_everything_but_the_phase() {
    let now = t0();
    let mut s = PmtuState::new(now, 1400);
    s.minmtu = 1300;
    s.phase = PmtuPhase::Lost;
    s.start_discovery();
    assert_eq!(s.phase, PmtuPhase::Discovery { sent: 0 });
    assert_eq!((s.minmtu, s.maxmtu), (1300, 1400));
}

#[test]
fn exhausted_counter_can_still_settle() {
    let now = t0();
    let mut s = PmtuState::new(now, 1400);
    s.phase = PmtuPhase::Discovery { sent: u8::MAX };
    assert!(s.tick(now, secs(60)).is_empty());
    s.minmtu = 1400;
    let out = s.tick(after(now, secs(1)), secs(60));
    assert_eq!(out[0], PmtuAction::LogFixed { mtu: 1400, probes: u8::MAX });
    assert_eq!(s.phase, PmtuPhase::Steady);
}

#[test]
fn fixed_phases() {
    assert!(PmtuPhase::Steady.is_fixed());
    assert!(PmtuPhase::Revalidate { misses: 2 }.is_fixed());
    assert!(PmtuPhase::Lost.is_fixed());
    assert!(!PmtuPhase::Fix.is_fixed());
    assert!(!PmtuPhase::Discovery { sent: 19 }.is_fixed());
}

#[test]
fn spans_of_time() {
    assert_eq!(secs(2), millis(2000));
    assert_eq!(millis(42).as_micros(), 42_000);
    let late = Instant { nanos: u128::MAX };
    assert_eq!(late.checked_add(Duration { nanos: 1 }), None);
    assert_eq!(t0().saturating_duration_since(after(t0(), secs(1))), Duration { nanos: 0 });
    assert_eq!(after(t0(), secs(1)).saturating_duration_since(t0()), secs(1));
}
