use hpos_auth::{Backoff, Phase, Workflow};

#[test]
fn backoff_doubles_from_its_base() {
    let mut b = Backoff::new(1);
    let waits: Vec<u64> = (0..5).map(|_| b.record_failure()).collect();
    assert_eq!(waits, vec![1, 2, 4, 8, 16]);
    b.reset();
    assert_eq!(b.delay_secs(), 1);
}

#[test]
fn backoff_holds_at_the_largest_wait() {
    let mut b = Backoff::new(1u64 << 62);
    assert_eq!(b.record_failure(), 1u64 << 62);
    assert_eq!(b.record_failure(), 1u64 << 63);
    assert_eq!(b.record_failure(), u64::MAX);
    assert_eq!(b.record_failure(), u64::MAX);
}

#[test]
fn failing_challenge_retries_forever_with_growing_waits() {
    let mut w = Workflow::new(1);
    for n in 0..64u32 {
        assert_eq!(w.phase(), Phase::Challenge);
        assert_eq!(w.on_outcome(false), Some(1u64 << n));
    }
    for _ in 0..100 {
        assert_eq!(w.on_outcome(false), Some(u64::MAX));
    }
    assert_eq!(w.phase(), Phase::Challenge);
    assert!(!w.is_done());
}

#[test]
fn success_path_takes_one_attempt_per_phase() {
    let mut w = Workflow::new(1);
    assert_eq!(w.phase(), Phase::Challenge);
    assert_eq!(w.on_outcome(true), None);
    assert_eq!(w.phase(), Phase::Registration);
    assert_eq!(w.on_outcome(true), None);
    assert!(w.is_done());
}

#[test]
fn registration_waits_start_over_at_the_base() {
    let mut w = Workflow::new(3);
    assert_eq!(w.on_outcome(false), Some(3));
    assert_eq!(w.on_outcome(false), Some(6));
    assert_eq!(w.phase(), Phase::Challenge);
    assert_eq!(w.on_outcome(true), None);
    assert_eq!(w.phase(), Phase::Registration);
    assert_eq!(w.on_outcome(false), Some(3));
    assert_eq!(w.on_outcome(false), Some(6));
    assert_eq!(w.on_outcome(true), None);
    assert!(w.is_done());
}
