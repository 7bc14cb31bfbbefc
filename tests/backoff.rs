use waitx::ticket::{is_released, try_claim, wait_target};
use waitx::{Action, Backoff, Tuning, WaitOp};

#[test]
fn default_tuning_values() {
    let t = Tuning::default();
    assert_eq!(t.spin_iterations(), 2048);
    assert_eq!(t.yield_iterations(), 256);
}

#[test]
fn tuning_builders_set_one_field() {
    let t = Tuning::new(3, 4).busy_iters(10);
    assert_eq!(t.spin_iterations(), 10);
    assert_eq!(t.yield_iterations(), 4);
    let u = t.yield_iters(0);
    assert_eq!(u.spin_iterations(), 10);
    assert_eq!(u.yield_iterations(), 0);
}

#[test]
fn backoff_phase_sequence() {
    let mut b = Backoff::new(Tuning::new(2, 2));
    let got: Vec<Action> = (0..6).map(|_| b.step(false)).collect();
    assert_eq!(
        got,
        vec![Action::Spin, Action::Spin, Action::Yield, Action::Yield, Action::Park, Action::Park]
    );
    assert_eq!(b.step(true), Action::Ready);
}

#[test]
fn backoff_park_only() {
    let mut b = Backoff::new(Tuning::new(0, 0));
    assert_eq!(b.step(false), Action::Park);
    assert_eq!(b.step(false), Action::Park);
    assert_eq!(b.step(true), Action::Ready);
}

#[test]
fn backoff_yield_only() {
    let mut b = Backoff::new(Tuning::new(0, 1));
    assert_eq!(b.step(false), Action::Yield);
    assert_eq!(b.step(false), Action::Park);
}

#[test]
fn backoff_ready_at_first_check() {
    let mut b = Backoff::new(Tuning::default());
    assert_eq!(b.step(true), Action::Ready);
}

#[test]
fn ticket_release_threshold() {
    assert!(is_released(5, 5));
    assert!(is_released(6, 5));
    assert!(!is_released(4, 5));
}

#[test]
fn ticket_target_is_one_past() {
    assert_eq!(wait_target(0), 1);
    assert_eq!(wait_target(41), 42);
    assert_eq!(wait_target(u64::MAX), u64::MAX);
}

#[test]
fn ticket_claim() {
    assert_eq!(try_claim(0, 1), Some(1));
    assert_eq!(try_claim(1, 1), None);
    assert_eq!(try_claim(3, 10), Some(4));
    assert_eq!(try_claim(u64::MAX, u64::MAX), None);
}

#[test]
fn wait_op_advances_by_counter() {
    let mut op = WaitOp::new(4, 2, Tuning::new(1, 1));
    assert_eq!(op.target_count(), 5);
    assert!(!op.is_finished());
    assert_eq!(op.advance(3), Action::Spin);
    assert_eq!(op.advance(4), Action::Yield);
    assert_eq!(op.advance(4), Action::Park);
    assert_eq!(op.advance(5), Action::Ready);
    assert!(op.is_finished());
    assert_eq!(op.advance(0), Action::Ready);
}

#[test]
fn wait_op_done_at_start() {
    let op = WaitOp::new(0, 1, Tuning::default());
    assert!(op.is_finished());
}
