use waitx::{pair, Action, Tuning};

#[test]
fn pair_signal_before_wait() {
    let (waker, waiter) = pair();
    waker.signal();
    let mut op = waiter.begin_wait(Tuning::new(0, 0));
    assert!(op.is_finished());
    assert_eq!(waiter.poll(&mut op), Action::Ready);
}

#[test]
fn pair_two_signals_two_waits() {
    let (waker, waiter) = pair();
    waker.signal();
    waker.signal();
    let mut first = waiter.begin_wait(Tuning::new(0, 0));
    assert_eq!(waiter.poll(&mut first), Action::Ready);
    let mut second = waiter.begin_wait(Tuning::new(0, 0));
    assert_eq!(waiter.poll(&mut second), Action::Ready);
}

#[test]
fn pair_try_wait_after_signal() {
    let (waker, waiter) = pair();
    waker.signal();
    assert!(waiter.try_wait());
}

#[test]
fn pair_try_wait_miss() {
    let (_waker, waiter) = pair();
    assert!(!waiter.try_wait());
}

#[test]
fn second_try_wait_misses() {
    let (waker, waiter) = pair();
    waker.signal();
    assert!(waiter.try_wait());
    assert!(!waiter.try_wait());
}

#[test]
fn pending_signals_release_that_many_waits() {
    let (waker, waiter) = pair();
    for _ in 0..3 {
        waker.signal();
    }
    for _ in 0..3 {
        let op = waiter.begin_wait(Tuning::default());
        assert!(op.is_finished());
    }
    let op = waiter.begin_wait(Tuning::default());
    assert!(!op.is_finished());
}

#[test]
fn waits_claim_increasing_targets() {
    let (waker, waiter) = pair();
    waker.signal();
    let a = waiter.begin_wait(Tuning::default());
    let b = waiter.begin_wait(Tuning::default());
    let c = waiter.begin_wait(Tuning::default());
    assert_eq!(a.target_count(), 1);
    assert_eq!(b.target_count(), 2);
    assert_eq!(c.target_count(), 3);
    assert!(a.is_finished());
    assert!(!b.is_finished());
}

#[test]
fn unmet_wait_spins_then_yields_then_parks() {
    let (waker, waiter) = pair();
    let mut op = waiter.begin_wait(Tuning::new(2, 1));
    assert_eq!(waiter.poll(&mut op), Action::Spin);
    assert_eq!(waiter.poll(&mut op), Action::Spin);
    assert_eq!(waiter.poll(&mut op), Action::Yield);
    assert_eq!(waiter.poll(&mut op), Action::Park);
    waker.signal();
    waiter.park(&op);
    assert_eq!(waiter.poll(&mut op), Action::Ready);
    assert_eq!(waiter.poll(&mut op), Action::Ready);
}

#[test]
fn wake_without_waiter_is_not_counted() {
    let (waker, waiter) = pair();
    waker.wake();
    assert!(!waiter.try_wait());
}

#[test]
fn wake_during_wait_signals() {
    let (waker, waiter) = pair();
    let mut op = waiter.begin_wait(Tuning::new(1, 0));
    assert_eq!(waiter.poll(&mut op), Action::Spin);
    waker.wake();
    assert_eq!(waiter.poll(&mut op), Action::Ready);
    waker.wake();
    assert!(!waiter.try_wait());
}

#[test]
fn cloned_waker_signals_same_waiter() {
    let (waker, waiter) = pair();
    let other = waker.clone();
    other.signal();
    assert!(waiter.try_wait());
}
