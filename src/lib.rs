//! Low-latency single-producer / single-consumer wake-ups and rendezvous hand-off.
//!
//! A wake-pair carries a monotonic event count from one [`Waker`] to one
//! [`Waiter`]; a rendezvous channel composes two wake-pairs with a one-element
//! slot. Waiting is adaptive: a bounded busy spin, a bounded cooperative yield,
//! then blocking. The decisions of every step are verified; the loop that
//! performs the spin, yield and block actions is driven by the caller.
//!
//! The block handle of a wake-pair is a 32-bit futex word (wait-on-address):
//! the Waker bumps it before it wakes one waiter, and the Waiter blocks on a
//! snapshot of it after re-checking its target.

pub mod backoff;
pub mod channel;
pub mod pair;
pub mod protocol;
pub mod slot;
pub mod ticket;
pub mod tuning;

pub use backoff::{Action, Backoff};
pub use channel::{channel, unit_channel, Receiver, Sender, UnitReceiver, UnitSender};
pub use pair::{pair, WaitOp, Waiter, Waker};
pub use slot::Slot;
pub use tuning::Tuning;
