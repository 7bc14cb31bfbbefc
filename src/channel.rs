use vstd::prelude::*;
use std::sync::Arc;
use crate::pair::{pair, Waiter, Waker};
use crate::slot::Slot;

verus! {

/// The sending end of a rendezvous channel.
///
/// It holds the fill-pair's [`Waker`] (signalled when the slot becomes full)
/// and the drain-pair's [`Waiter`] (released when the slot becomes empty).
#[verifier::reject_recursive_types(T)]
pub struct Sender<T> {
    slot: Arc<Slot<T>>,
    fill: Waker,
    drain: Waiter,
}

impl<T> Sender<T> {
    /// Marks the current thread as the one that blocks in a send.
    pub fn update_thread(&self) {
        self.drain.update_thread();
    }

    /// The drain-pair's waiter: a blocking send first completes one wait on
    /// it, then calls [`Sender::put`].
    pub fn drain_waiter(&self) -> &Waiter {
        &self.drain
    }

    /// Hands `value` over once a drain wait has completed: writes the slot,
    /// marks it full, and signals the receiver.
    pub fn put(&self, value: T) {
        self.slot.write(value);
        self.slot.mark_full();
        self.fill.signal();
    }

    /// Sends without blocking: when the slot is known to be drained, hands
    /// `value` over exactly as a blocking send would and returns `Ok`;
    /// otherwise returns the value back.
    pub fn try_send(&self, value: T) -> (r: Result<(), T>)
        ensures
            r matches Err(v) ==> v == value,
    {
        if !self.drain.try_wait() {
            return Err(value);
        }
        self.put(value);
        Ok(())
    }
}

/// The receiving end of a rendezvous channel.
///
/// It holds the fill-pair's [`Waiter`] and the drain-pair's [`Waker`].
#[verifier::reject_recursive_types(T)]
pub struct Receiver<T> {
    slot: Arc<Slot<T>>,
    fill: Waiter,
    drain: Waker,
}

impl<T> Receiver<T> {
    /// Marks the current thread as the one that blocks in a receive.
    pub fn update_thread(&self) {
        self.fill.update_thread();
    }

    /// The fill-pair's waiter: a blocking receive first completes one wait on
    /// it, then calls [`Receiver::get`].
    pub fn fill_waiter(&self) -> &Waiter {
        &self.fill
    }

    /// Takes the value over once a fill wait has completed: moves it out of
    /// the slot, marks the slot empty, and signals the sender. `None` only
    /// when called without a completed fill wait.
    pub fn get(&self) -> Option<T> {
        let value = self.slot.read();
        self.slot.mark_empty();
        self.drain.signal();
        value
    }

    /// Receives without blocking: the value when the slot is known to be
    /// full, `None` otherwise.
    pub fn try_recv(&self) -> Option<T> {
        if !self.fill.try_wait() {
            return None;
        }
        self.get()
    }
}

/// Creates a rendezvous channel with an empty slot. The drain-pair starts
/// signalled once, so the first send does not block.
pub fn channel<T>() -> (Sender<T>, Receiver<T>) {
    let (fill_waker, fill_waiter) = pair();
    let (drain_waker, drain_waiter) = pair();
    let slot = Arc::new(Slot::new());
    let tx = Sender { slot: slot.clone(), fill: fill_waker, drain: drain_waiter };
    let rx = Receiver { slot, fill: fill_waiter, drain: drain_waker };
    rx.drain.signal();
    (tx, rx)
}

/// The sending end of a unit channel: a wake-pair's accumulating signal.
pub struct UnitSender {
    waker: Waker,
}

impl UnitSender {
    /// Delivers one event; never blocks, and no event is lost.
    pub fn send(&self) {
        self.waker.signal();
    }
}

/// The receiving end of a unit channel: a wake-pair's ticketed wait.
pub struct UnitReceiver {
    waiter: Waiter,
}

impl UnitReceiver {
    /// Marks the current thread as the one that blocks in a receive.
    pub fn update_thread(&self) {
        self.waiter.update_thread();
    }

    /// The waiter that a blocking receive completes one wait on.
    pub fn waiter(&self) -> &Waiter {
        &self.waiter
    }

    /// Consumes one delivered event without blocking, if there is one.
    pub fn try_recv(&self) -> bool {
        self.waiter.try_wait()
    }
}

/// Creates a unit channel: a payload-free rendezvous whose events accumulate.
pub fn unit_channel() -> (UnitSender, UnitReceiver) {
    let (waker, waiter) = pair();
    (UnitSender { waker }, UnitReceiver { waiter })
}

} // verus!
