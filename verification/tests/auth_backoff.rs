//! The two-phase authentication machine and the reconnect backoff policy.

use guppybot::auth::{AuthEvent, PersistAction, Phase, TwoPhase};
use guppybot::backoff::{
    KEEPALIVE_DELAY_HI_MS, KEEPALIVE_DELAY_LO_MS, MAX_BACKOFF_DELAY_HI_MS,
    MAX_BACKOFF_DELAY_LO_MS, MIN_BACKOFF_DELAY_HI_MS, MIN_BACKOFF_DELAY_LO_MS, Reconnect,
    keepalive_delay_ms,
};
use guppybot::ipc::Ack;

#[test]
fn poll_is_pending_before_any_send() {
    let m = TwoPhase::new(false);
    assert!(matches!(m.poll(), Ack::Pending));
    assert!(!m.maybe());
    assert!(!m.confirmed());
}

#[test]
fn positive_confirmation_persists_then_confirms() {
    let mut m = TwoPhase::new(false);
    assert!(matches!(m.step(AuthEvent::Sent), PersistAction::Keep));
    assert!(m.maybe());
    assert!(matches!(m.poll(), Ack::Pending));
    // The registry confirms: the bit must be made durable first.
    let act = m.step(AuthEvent::PositiveConfirm);
    assert!(matches!(act, PersistAction::Store(true)));
    assert!(matches!(m.poll(), Ack::Pending));
    // The write succeeded: only now is the session authenticated.
    assert!(matches!(m.step(AuthEvent::PersistOk), PersistAction::Keep));
    assert!(m.confirmed());
    assert!(m.bit);
    assert!(matches!(m.poll(), Ack::Done(())));
}

#[test]
fn positive_confirmation_with_bit_already_set() {
    let mut m = TwoPhase::new(true);
    m.step(AuthEvent::Sent);
    let act = m.step(AuthEvent::PositiveConfirm);
    assert!(matches!(act, PersistAction::Keep));
    assert!(m.confirmed());
    assert!(matches!(m.poll(), Ack::Done(())));
}

#[test]
fn negative_confirmation_clears_everything() {
    for bit in [false, true] {
        let mut m = TwoPhase::new(bit);
        m.step(AuthEvent::Sent);
        let act = m.step(AuthEvent::NegativeConfirm);
        assert!(matches!(act, PersistAction::Store(false)));
        assert!(!m.confirmed());
        assert!(!m.bit);
        assert!(matches!(m.poll(), Ack::Stopped));
    }
}

#[test]
fn failed_persistence_resets_to_the_safe_state() {
    let mut m = TwoPhase::new(false);
    m.step(AuthEvent::Sent);
    m.step(AuthEvent::PositiveConfirm);
    let act = m.step(AuthEvent::PersistFailed);
    assert!(matches!(act, PersistAction::Store(false)));
    assert!(!m.confirmed());
    assert!(!m.bit);
    assert!(matches!(m.poll(), Ack::Stopped));
}

#[test]
fn stale_confirmation_changes_nothing() {
    let mut m = TwoPhase::new(false);
    let act = m.step(AuthEvent::PositiveConfirm);
    assert!(matches!(act, PersistAction::Keep));
    assert_eq!(m.phase, Phase::Idle);
    assert!(matches!(m.poll(), Ack::Pending));
}

#[test]
fn backoff_is_monotone_until_the_cap_and_resets_on_open() {
    let mut r = Reconnect::new();
    r.next_backoff();
    assert_eq!(r.backoff_delay_lo, MIN_BACKOFF_DELAY_LO_MS);
    assert_eq!(r.backoff_delay_hi, MIN_BACKOFF_DELAY_HI_MS);
    let mut prev_lo = r.backoff_delay_lo;
    let mut prev_hi = r.backoff_delay_hi;
    for _ in 0..20 {
        r.next_backoff();
        assert!(r.backoff_delay_lo >= prev_lo);
        assert!(r.backoff_delay_hi >= prev_hi);
        assert!(r.backoff_delay_lo <= MAX_BACKOFF_DELAY_LO_MS);
        assert!(r.backoff_delay_hi <= MAX_BACKOFF_DELAY_HI_MS);
        prev_lo = r.backoff_delay_lo;
        prev_hi = r.backoff_delay_hi;
    }
    // Twenty doublings are far past the cap.
    assert_eq!(r.backoff_delay_lo, MAX_BACKOFF_DELAY_LO_MS);
    assert_eq!(r.backoff_delay_hi, MAX_BACKOFF_DELAY_HI_MS);

    // A successful open resets: the next failure starts from the minimum.
    r.note_open();
    assert!(r.open);
    assert_eq!(r.backoff_count, 0);
    r.note_closed();
    assert!(!r.open);
    r.next_backoff();
    assert_eq!(r.backoff_delay_lo, MIN_BACKOFF_DELAY_LO_MS);
    assert_eq!(r.backoff_delay_hi, MIN_BACKOFF_DELAY_HI_MS);
}

#[test]
fn sampled_delays_stay_in_their_interval() {
    let mut r = Reconnect::new();
    r.next_backoff();
    for _ in 0..32 {
        let d = r.sample_delay_ms();
        assert!(r.backoff_delay_lo <= d && d <= r.backoff_delay_hi);
    }
    for _ in 0..32 {
        let k = keepalive_delay_ms();
        assert!(KEEPALIVE_DELAY_LO_MS <= k && k <= KEEPALIVE_DELAY_HI_MS);
    }
}
