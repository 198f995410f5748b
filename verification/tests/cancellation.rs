//! Tests of the cancellation token.

use teleop::cancellation::CancellationToken;

#[test]
fn test_cancel_token() {
    // One task waits on the token while another cancels it: the waiter's
    // poll stores its waker, cancel hands that waker back to be woken, and
    // the next poll is ready.
    let mut token = CancellationToken::new();
    let waiter = token.cancelled();

    assert!(!token.is_cancelled());
    let ready = waiter.poll(&mut token, 1);
    assert!(!ready);

    let woken = token.cancel();
    assert_eq!(woken, vec![1]);
    assert!(token.is_cancelled());

    let ready = waiter.poll(&mut token, 1);
    assert!(ready);
}

#[test]
fn cancel_is_idempotent() {
    // Cancelling twice has the observable effect of cancelling once: the
    // second call changes nothing and wakes nobody.
    let mut token = CancellationToken::new();
    let waiter = token.cancelled();
    assert!(!waiter.poll(&mut token, 7));
    assert!(!waiter.poll(&mut token, 8));

    let woken_first = token.cancel();
    assert_eq!(woken_first, vec![7, 8]);

    let woken_second = token.cancel();
    assert!(woken_second.is_empty());
    assert!(token.is_cancelled());

    let woken_third = token.cancel();
    assert!(woken_third.is_empty());
    assert!(token.is_cancelled());
}

#[test]
fn every_pending_waiter_is_woken() {
    // Every waiter that polled pending before cancellation is in the woken
    // list exactly once, repeated polls notwithstanding.
    let mut token = CancellationToken::new();
    let waiter = token.cancelled();
    assert!(!waiter.poll(&mut token, 3));
    assert!(!waiter.poll(&mut token, 4));
    assert!(!waiter.poll(&mut token, 3));
    assert!(!waiter.poll(&mut token, 5));
    assert!(!waiter.poll(&mut token, 4));

    let woken = token.cancel();
    assert_eq!(woken, vec![3, 4, 5]);
}

#[test]
fn waiter_after_cancel_is_ready_at_once() {
    // A waiter constructed after cancellation observes readiness on its
    // first poll and is never stored.
    let mut token = CancellationToken::new();
    token.cancel();
    let waiter = token.cancelled();
    assert!(waiter.poll(&mut token, 9));
    assert!(token.cancel().is_empty());
}

#[test]
fn default_token_is_fresh() {
    let mut token = CancellationToken::default();
    assert!(!token.is_cancelled());
    assert!(token.cancel().is_empty());
}
