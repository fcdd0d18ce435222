use stress4844::landing::{LandingConfig, LandingLoop};

fn config(block_budget: u64) -> LandingConfig {
    LandingConfig {
        fill_pct: 80,
        chunk_size_kb: 128,
        tip_wei: 5_000_000_000,
        block_budget,
        max_attempts: None,
    }
}

#[test]
fn fresh_loop_is_empty() {
    let lp = LandingLoop::new(17);
    assert_eq!(lp.landed, 0);
    assert_eq!(lp.nonce, 17);
    assert!(lp.attempts.is_empty());
}

#[test]
fn budget_of_one_stops_after_first_success() {
    // Simulated stream of 3 blocks: submission fails on block 1, succeeds on
    // block 2, and would fail on block 3. With a budget of 1 landed block the
    // loop must stop after block 2's success: exactly 2 attempt records, and
    // no submission on block 3.
    let cfg = config(1);
    let mut lp = LandingLoop::new(0);
    let outcomes = [(1u64, false), (2u64, true), (3u64, false)];
    let mut submissions = 0;

    for (block, success) in outcomes {
        if !lp.should_submit(&cfg) {
            break;
        }
        submissions += 1;
        lp.record_attempt(&cfg, success, block, String::from("t"), lp.nonce + 1);
    }

    assert_eq!(submissions, 2);
    assert_eq!(lp.attempts.len(), 2);
    assert_eq!(lp.landed, 1);
    assert!(!lp.attempts[0].success);
    assert!(lp.attempts[1].success);
    assert!(!lp.should_submit(&cfg));
}

#[test]
fn failures_are_retried_not_fatal() {
    let cfg = config(2);
    let mut lp = LandingLoop::new(0);
    for block in 1..=5u64 {
        assert!(lp.should_submit(&cfg));
        lp.record_attempt(&cfg, false, block, String::from("t"), 0);
    }
    // Five failed attempts later the loop still wants to submit.
    assert!(lp.should_submit(&cfg));
    assert_eq!(lp.attempts.len(), 5);
    assert_eq!(lp.landed, 0);
}

#[test]
fn attempt_cap_bounds_a_rejecting_relay() {
    // The relay never accepts; without a cap the loop would retry forever,
    // with one it stops after the configured number of attempts.
    let mut cfg = config(1);
    cfg.max_attempts = Some(3);
    let mut lp = LandingLoop::new(0);
    let mut submissions = 0;
    for block in 1..=10u64 {
        if !lp.should_submit(&cfg) {
            break;
        }
        submissions += 1;
        lp.record_attempt(&cfg, false, block, String::from("t"), 0);
    }
    assert_eq!(submissions, 3);
    assert_eq!(lp.attempts.len(), 3);
    assert_eq!(lp.landed, 0);
}

#[test]
fn attempt_record_carries_the_configuration() {
    let cfg = config(3);
    let mut lp = LandingLoop::new(10);
    lp.record_attempt(&cfg, true, 99, String::from("2024-01-01 00:00:00 UTC"), 11);
    let rec = &lp.attempts[0];
    assert_eq!(rec.tip_wei, 5_000_000_000);
    assert_eq!(rec.fill_pct, 80);
    assert_eq!(rec.chunk_size_kb, 128);
    assert_eq!(rec.block_number, 99);
    assert!(rec.success);
    assert_eq!(rec.timestamp, "2024-01-01 00:00:00 UTC");
}

#[test]
fn nonce_is_adopted_from_the_chain() {
    let cfg = config(5);
    let mut lp = LandingLoop::new(3);
    // The refreshed value wins even when it moved backwards or jumped: the
    // chain is the source of truth, not local bookkeeping.
    lp.record_attempt(&cfg, false, 1, String::from("t"), 40);
    assert_eq!(lp.nonce, 40);
    lp.record_attempt(&cfg, true, 2, String::from("t"), 2);
    assert_eq!(lp.nonce, 2);
}
