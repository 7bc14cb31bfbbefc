use vstd::prelude::*;
use crate::ticket::{claimed, released, target_after};

verus! {

/// The counts of one wake-pair: events signalled, and tickets consumed by waits.
pub struct PairState {
    pub counter: int,
    pub next: int,
}

impl PairState {
    /// After one accumulating signal.
    pub open spec fn signalled(self) -> PairState {
        PairState { counter: self.counter + 1, next: self.next }
    }

    /// After a non-blocking wait, when it succeeds.
    pub open spec fn claim(self) -> Option<PairState> {
        match claimed(self.next, self.counter) {
            Some(n) => Some(PairState { counter: self.counter, next: n }),
            None => None,
        }
    }

    /// Events signalled but not yet consumed.
    pub open spec fn pending(self) -> int {
        self.counter - self.next
    }
}

/// One operation of a run of a rendezvous channel.
pub enum Step<T> {
    Send(T),
    Recv,
}

/// The state of a rendezvous channel: the slot's content and `full` flag, the
/// fill-pair (sender signals, receiver waits), the drain-pair (receiver
/// signals, sender waits), and the flag writes made so far (`true` for
/// `mark_full`, `false` for `mark_empty`).
pub struct Handoff<T> {
    pub slot: Option<T>,
    pub full: bool,
    pub fill: PairState,
    pub drain: PairState,
    pub marks: Seq<bool>,
}

/// A channel just created: slot empty, drain-pair signalled once.
pub open spec fn initial<T>() -> Handoff<T> {
    Handoff {
        slot: None,
        full: false,
        fill: PairState { counter: 0, next: 0 },
        drain: PairState { counter: 1, next: 0 },
        marks: Seq::empty(),
    }
}

/// The flag writes alternate, starting with `mark_full`.
pub open spec fn alternates(marks: Seq<bool>) -> bool {
    forall|i: int| 0 <= i < marks.len() ==> #[trigger] marks[i] == (i % 2 == 0)
}

impl<T> Handoff<T> {
    /// After the sender's half of a hand-off, once its drain-pair is at `drain`:
    /// write the slot, mark it full, signal the fill-pair.
    pub open spec fn put(self, drain: PairState, v: T) -> Handoff<T> {
        Handoff {
            slot: Some(v),
            full: true,
            fill: self.fill.signalled(),
            drain,
            marks: self.marks.push(true),
        }
    }

    /// After the receiver's half, once its fill-pair is at `fill`: read the
    /// slot, mark it empty, signal the drain-pair.
    pub open spec fn take(self, fill: PairState) -> Handoff<T> {
        Handoff {
            slot: None,
            full: false,
            fill,
            drain: self.drain.signalled(),
            marks: self.marks.push(false),
        }
    }

    /// `try_send(v)`: the new state, and `Err(v)` when the slot is not drained.
    pub open spec fn try_send(self, v: T) -> (Handoff<T>, Result<(), T>) {
        match self.drain.claim() {
            Some(d) => (self.put(d, v), Ok(())),
            None => (self, Err(v)),
        }
    }

    /// `try_recv()`: the new state, and the value when the slot was filled.
    pub open spec fn try_recv(self) -> (Handoff<T>, Option<T>) {
        match self.fill.claim() {
            Some(f) => (self.take(f), self.slot),
            None => (self, None),
        }
    }

    /// Whether a blocking send's drain wait returns at its first check.
    pub open spec fn send_ready(self) -> bool {
        released(self.drain.counter, target_after(self.drain.next))
    }

    /// A blocking `send(v)` whose drain wait has returned: the wait took the
    /// ticket to its target, then the sender's half followed.
    pub open spec fn send(self, v: T) -> Handoff<T> {
        self.put(PairState { counter: self.drain.counter, next: target_after(self.drain.next) }, v)
    }

    /// One step of a run; a step that would block leaves the state unchanged.
    pub open spec fn apply(self, step: Step<T>) -> Handoff<T> {
        match step {
            Step::Send(v) => self.try_send(v).0,
            Step::Recv => self.try_recv().0,
        }
    }

    /// The state after the steps of `steps`, in order.
    pub open spec fn run(self, steps: Seq<Step<T>>) -> Handoff<T>
        decreases steps.len(),
    {
        if steps.len() == 0 {
            self
        } else {
            self.run(steps.drop_last()).apply(steps.last())
        }
    }

    /// The handshake's invariant: the slot holds a value exactly when it is
    /// marked full; the fill-pair has one event pending exactly then, and the
    /// drain-pair one exactly otherwise; and the flag writes alternate.
    pub open spec fn inv(self) -> bool {
        &&& self.full == (self.slot is Some)
        &&& 0 <= self.fill.next
        &&& 0 <= self.drain.next
        &&& self.fill.counter < u64::MAX
        &&& self.drain.counter < u64::MAX
        &&& self.fill.pending() == if self.full { 1int } else { 0int }
        &&& self.drain.pending() == if self.full { 0int } else { 1int }
        &&& alternates(self.marks)
        &&& (self.marks.len() % 2 == 1) == self.full
    }
}

/// A new channel satisfies the handshake's invariant.
pub proof fn lemma_initial_inv<T>()
    ensures
        initial::<T>().inv(),
{
}

/// Every step keeps the handshake's invariant, while the counters stay below
/// the largest 64-bit value.
pub proof fn lemma_step_keeps_inv<T>(s: Handoff<T>, step: Step<T>)
    requires
        s.inv(),
        s.fill.counter + 1 < u64::MAX,
        s.drain.counter + 1 < u64::MAX,
    ensures
        s.apply(step).inv(),
{
    let t = s.apply(step);
    if t.marks.len() == s.marks.len() + 1 {
        assert forall|i: int| 0 <= i < t.marks.len() implies #[trigger] t.marks[i] == (i % 2 == 0) by {
            if i < s.marks.len() {
                assert(t.marks[i] == s.marks[i]);
            }
        }
    }
}

/// Slot alternation. In every run from a new channel, `mark_full` and
/// `mark_empty` alternate starting with `mark_full`, the slot holds at most the
/// one value of the last unmatched send, and it holds one exactly when marked
/// full (bounded by the 64-bit event counters).
pub proof fn lemma_run_alternates<T>(steps: Seq<Step<T>>)
    requires
        steps.len() + 2 < u64::MAX,
    ensures
        initial::<T>().run(steps).inv(),
        alternates(initial::<T>().run(steps).marks),
    decreases steps.len(),
{
    if steps.len() > 0 {
        lemma_run_alternates(steps.drop_last());
        let s = initial::<T>().run(steps.drop_last());
        lemma_counters_bounded(steps.drop_last());
        lemma_step_keeps_inv(s, steps.last());
    }
}

/// The event counters of a run grow by at most one per step.
proof fn lemma_counters_bounded<T>(steps: Seq<Step<T>>)
    ensures
        initial::<T>().run(steps).fill.counter <= steps.len(),
        initial::<T>().run(steps).drain.counter <= steps.len() + 1,
    decreases steps.len(),
{
    if steps.len() > 0 {
        lemma_counters_bounded(steps.drop_last());
    }
}

/// Round trip: on a drained slot, `send(v)` followed by `recv()` returns `v`
/// and drains the slot again.
pub proof fn lemma_send_then_recv<T>(s: Handoff<T>, v: T)
    requires
        s.inv(),
        !s.full,
    ensures
        s.try_send(v).1 is Ok,
        s.try_send(v).0.try_recv().1 == Some(v),
        !s.try_send(v).0.try_recv().0.full,
{
}

/// A value leaves the slot once. A receive that takes a value leaves the
/// slot empty, so the next receive finds nothing until another send; a
/// channel that stops with the slot full holds exactly the last value sent.
pub proof fn lemma_value_taken_once<T>(s: Handoff<T>, v: T)
    requires
        s.inv(),
    ensures
        s.try_recv().1 is Some ==> s.try_recv().0.slot is None && s.try_recv().0.try_recv().1 is None,
        !s.full ==> s.try_send(v).0.slot == Some(v),
{
}

/// On a drained slot, `try_send(v)` does what a blocking `send(v)` does, and
/// reports success; on a full slot it fails and hands `v` back unchanged.
pub proof fn lemma_try_send_is_send<T>(s: Handoff<T>, v: T)
    requires
        s.inv(),
    ensures
        !s.full ==> s.send_ready() && s.try_send(v) == (s.send(v), Ok::<(), T>(())),
        s.full ==> s.try_send(v) == (s, Err::<(), T>(v)),
{
}

} // verus!
