use vstd::prelude::*;
use core::sync::atomic::{AtomicBool, AtomicU32, AtomicU64, Ordering};
use std::sync::Arc;
use crate::backoff::{action_for, Action, Backoff};
use crate::ticket::{is_released, released, target_after, try_claim, wait_target};
use crate::tuning::Tuning;

verus! {

/// Relies on `atomic_wait::wait`: blocks while `word` holds `expected`,
/// returns at once when it holds another value, and may return spuriously.
#[verifier::external_body]
fn futex_wait(word: &AtomicU32, expected: u32) {
    atomic_wait::wait(word, expected)
}

/// Relies on `atomic_wait::wake_one`: wakes one thread blocked on `word`, if any.
#[verifier::external_body]
fn futex_wake_one(word: &AtomicU32) {
    atomic_wait::wake_one(word)
}

/// The state that one Waker and one Waiter share.
struct WakeState {
    /// Monotonic event count, advanced only by the Waker.
    counter: AtomicU64,
    /// Set while the Waiter is inside an adaptive wait; advisory only.
    waiting: AtomicBool,
    /// The block handle: a futex word that the Waker bumps before it wakes
    /// the Waiter, and on whose snapshot the Waiter blocks.
    word: AtomicU32,
}

/// One wait in progress: its target, whether it is over, and its backoff.
#[derive(Debug)]
pub struct WaitOp {
    target: u64,
    done: bool,
    backoff: Backoff,
}

impl WaitOp {
    /// The event count this wait must observe before it returns.
    pub closed spec fn target(self) -> int {
        self.target as int
    }

    /// Whether the wait has observed its target.
    pub closed spec fn finished(self) -> bool {
        self.done
    }

    /// The adaptive backoff of the wait.
    pub closed spec fn backoff_of(self) -> Backoff {
        self.backoff
    }

    /// The wait that advanced the ticket counter from `ticket`, when the event
    /// counter read `counter` at its start.
    pub fn new(ticket: u64, counter: u64, tuning: Tuning) -> (r: Self)
        ensures
            r.target() == target_after(ticket as int),
            r.finished() == released(counter as int, r.target()),
            r.backoff_of().tuning_of() == tuning,
            r.backoff_of().misses() == 0,
    {
        let target = wait_target(ticket);
        WaitOp { target, done: is_released(counter, target), backoff: Backoff::new(tuning) }
    }

    /// The event count this wait must observe before it returns.
    pub fn target_count(&self) -> (r: u64)
        ensures
            r as int == self.target(),
    {
        self.target
    }

    /// Whether the wait has observed its target.
    pub fn is_finished(&self) -> (r: bool)
        ensures
            r == self.finished(),
    {
        self.done
    }

    /// Records a check that read the event counter as `counter`, and returns
    /// what the waiting thread does next.
    pub fn advance(&mut self, counter: u64) -> (a: Action)
        ensures
            final(self).target() == old(self).target(),
            final(self).backoff_of().tuning_of() == old(self).backoff_of().tuning_of(),
            old(self).finished() ==> a == Action::Ready,
            !old(self).finished() ==> a == action_for(
                old(self).backoff_of().tuning_of(),
                old(self).backoff_of().misses(),
                released(counter as int, old(self).target()),
            ),
            final(self).finished() == (a == Action::Ready),
    {
        if self.done {
            return Action::Ready;
        }
        let a = self.backoff.step(is_released(counter, self.target));
        if a == Action::Ready {
            self.done = true;
        }
        a
    }
}

/// Sends notifications.
#[derive(Clone)]
pub struct Waker {
    inner: Arc<WakeState>,
}

impl Waker {
    /// Wakes the associated [`Waiter`]: advances the event counter, then
    /// bumps the block handle and wakes the Waiter if it is blocked.
    ///
    /// Every signal is remembered, so a later wait is satisfied by it even
    /// when nobody was waiting at the time.
    pub fn signal(&self) {
        self.inner.counter.fetch_add(1, Ordering::Release);
        self.inner.word.fetch_add(1, Ordering::Release);
        futex_wake_one(&self.inner.word);
    }

    /// Signals the associated [`Waiter`] only if it is currently inside a wait.
    ///
    /// Usable only where the peer can detect the event some other way: a
    /// waiter about to start waiting may miss this wake.
    pub fn wake(&self) {
        if self.inner.waiting.load(Ordering::Acquire) {
            self.signal();
        }
    }
}

/// Receives notifications.
pub struct Waiter {
    inner: Arc<WakeState>,
    next: AtomicU64,
}

impl Waiter {
    /// Marks the current thread as the target for wake operations.
    ///
    /// The futex block handle wakes whichever thread blocks on it, so there is
    /// nothing to record; kept so that callers written for a thread-park
    /// handle need no change.
    pub fn update_thread(&self) {
    }

    /// Starts a wait: claims the next ticket and checks the event counter once.
    ///
    /// Drive it with [`Waiter::poll`] and [`Waiter::park`] until `poll`
    /// returns [`Action::Ready`].
    pub fn begin_wait(&self, tuning: Tuning) -> (op: WaitOp)
        ensures
            op.backoff_of().tuning_of() == tuning,
            op.backoff_of().misses() == 0,
    {
        let ticket = self.next.fetch_add(1, Ordering::Relaxed);
        let counter = self.inner.counter.load(Ordering::Acquire);
        let op = WaitOp::new(ticket, counter, tuning);
        if !op.is_finished() {
            self.inner.waiting.store(true, Ordering::Release);
        }
        op
    }

    /// Checks the event counter for the wait `op` and returns what to do next.
    /// The wait is over when this returns [`Action::Ready`].
    pub fn poll(&self, op: &mut WaitOp) -> (a: Action)
        ensures
            final(op).target() == old(op).target(),
            final(op).backoff_of().tuning_of() == old(op).backoff_of().tuning_of(),
            old(op).finished() ==> a == Action::Ready,
            !old(op).finished() && a != Action::Ready ==> a == action_for(
                old(op).backoff_of().tuning_of(),
                old(op).backoff_of().misses(),
                false,
            ),
            final(op).finished() == (a == Action::Ready),
    {
        if op.is_finished() {
            return Action::Ready;
        }
        let counter = self.inner.counter.load(Ordering::Acquire);
        let a = op.advance(counter);
        if a == Action::Ready {
            self.inner.waiting.store(false, Ordering::Release);
        }
        a
    }

    /// The block phase of the wait `op`: takes a snapshot of the block handle,
    /// re-checks the event counter, and blocks on the snapshot unless the
    /// target has been reached. May return spuriously; the caller polls again.
    pub fn park(&self, op: &WaitOp) {
        let seen = self.inner.word.load(Ordering::Acquire);
        let counter = self.inner.counter.load(Ordering::Acquire);
        if !op.is_finished() && !is_released(counter, op.target_count()) {
            futex_wait(&self.inner.word, seen);
        }
    }

    /// Consumes one pending event without blocking: true when the event
    /// counter had passed this waiter's ticket counter, which then advances.
    pub fn try_wait(&self) -> bool {
        let next = self.next.load(Ordering::Relaxed);
        let counter = self.inner.counter.load(Ordering::Acquire);
        match try_claim(next, counter) {
            Some(n) => {
                self.next.store(n, Ordering::Relaxed);
                true
            },
            None => false,
        }
    }
}

/// Creates a connected [`Waker`] and [`Waiter`] with no event pending.
pub fn pair() -> (Waker, Waiter) {
    let inner = Arc::new(
        WakeState { counter: AtomicU64::new(0), waiting: AtomicBool::new(false), word: AtomicU32::new(0) },
    );
    let waker = Waker { inner: inner.clone() };
    let waiter = Waiter { inner, next: AtomicU64::new(0) };
    (waker, waiter)
}

} // verus!
