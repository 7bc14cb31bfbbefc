use vstd::prelude::*;
use core::sync::atomic::{AtomicBool, Ordering};
use parking_lot::lock_api;

verus! {

#[verifier::external_type_specification]
#[verifier::external_body]
#[verifier::reject_recursive_types(R)]
#[verifier::reject_recursive_types(T)]
pub struct ExLockApiMutex<R, T: ?Sized>(lock_api::Mutex<R, T>);

#[verifier::external_type_specification]
#[verifier::external_body]
pub struct ExRawMutex(parking_lot::RawMutex);

/// Relies on `lock_api::Mutex::new`: an unlocked mutex that owns `v`.
#[verifier::external_body]
fn new_cell<T>(v: Option<T>) -> (r: parking_lot::Mutex<Option<T>>) {
    parking_lot::Mutex::new(v)
}

/// Relies on `lock_api::Mutex::lock`: with the lock held, `v` takes the place
/// of the cell's content, and that content is returned.
#[verifier::external_body]
fn swap_cell<T>(cell: &parking_lot::Mutex<Option<T>>, v: Option<T>) -> (r: Option<T>) {
    core::mem::replace(&mut *cell.lock(), v)
}

/// A single-element cell shared by the two ends of a rendezvous channel, with
/// a `full` flag that says whether the receiver is the next legitimate reader.
///
/// The cell itself takes no part in the hand-off: who may touch it and when
/// is decided by the channel's handshake. Its lock is therefore never
/// contended. A value still in the cell when the slot is destroyed is
/// dropped with it, exactly once.
#[verifier::reject_recursive_types(T)]
pub struct Slot<T> {
    cell: parking_lot::Mutex<Option<T>>,
    full: AtomicBool,
}

impl<T> Slot<T> {
    /// An empty slot.
    pub fn new() -> (r: Self) {
        Slot { cell: new_cell(None), full: AtomicBool::new(false) }
    }

    /// Mark the slot as full: the write before this is published to the
    /// reader that observes the flag.
    pub fn mark_full(&self) {
        self.full.store(true, Ordering::Release);
    }

    /// Mark the slot as empty.
    pub fn mark_empty(&self) {
        self.full.store(false, Ordering::Release);
    }

    /// Check if the slot is full.
    pub fn is_full(&self) -> bool {
        self.full.load(Ordering::Acquire)
    }

    /// Places `v` in the cell. Only the sender writes, and only while the
    /// slot is empty.
    pub fn write(&self, v: T) {
        let _ = swap_cell(&self.cell, Some(v));
    }

    /// Moves the value out of the cell, leaving it empty. Only the receiver
    /// reads, and only while the slot is full.
    pub fn read(&self) -> Option<T> {
        swap_cell(&self.cell, None)
    }
}

impl<T> Default for Slot<T> {
    fn default() -> Self {
        Slot::new()
    }
}

} // verus!
