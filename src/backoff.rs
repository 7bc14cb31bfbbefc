use vstd::prelude::*;
use crate::tuning::Tuning;

verus! {

/// What a waiting thread does next, after one check of its predicate.
#[derive(Clone, Copy, Debug, PartialEq, Eq, Structural)]
pub enum Action {
    /// The predicate was observed true: the wait is over.
    Ready,
    /// Busy phase: emit a CPU spin-loop hint, then check again.
    Spin,
    /// Yield phase: give the CPU to the scheduler for one quantum, then check again.
    Yield,
    /// Block phase: suspend until woken (spurious wake-ups allowed), then check again.
    Park,
}

/// The action that follows a check, after `misses` earlier checks found the
/// predicate false: the first `busy` misses spin, the next `yield` misses
/// yield, every later miss parks.
pub open spec fn action_for(t: Tuning, misses: nat, ready: bool) -> Action {
    if ready {
        Action::Ready
    } else if misses < t.spin_budget() {
        Action::Spin
    } else if misses < t.spin_budget() + t.yield_budget() {
        Action::Yield
    } else {
        Action::Park
    }
}

/// The position of an action's phase in the order spin, yield, park.
pub open spec fn phase_rank(a: Action) -> nat {
    match a {
        Action::Spin => 0,
        Action::Yield => 1,
        Action::Park => 2,
        Action::Ready => 3,
    }
}

/// The adaptive wait state machine: busy spin, then cooperative yield, then block.
///
/// The caller checks its predicate, hands the outcome to [`Backoff::step`], and
/// performs the action it gets back until that action is [`Action::Ready`].
#[derive(Clone, Copy, Debug)]
pub struct Backoff {
    tuning: Tuning,
    misses: u64,
}

impl Backoff {
    /// The tuning this wait runs with.
    pub closed spec fn tuning_of(self) -> Tuning {
        self.tuning
    }

    /// How many checks found the predicate false, counted up to the point where
    /// the wait blocks (further misses all park and are not counted).
    pub closed spec fn misses(self) -> nat {
        self.misses as nat
    }

    /// The number of misses after which the wait blocks.
    pub open spec fn park_threshold(self) -> nat {
        self.tuning_of().spin_budget() + self.tuning_of().yield_budget()
    }

    /// A wait that has not checked its predicate yet.
    pub fn new(tuning: Tuning) -> (r: Self)
        ensures
            r.tuning_of() == tuning,
            r.misses() == 0,
    {
        Backoff { tuning, misses: 0 }
    }

    /// Records one check of the predicate, whose outcome is `ready`, and
    /// returns what to do next.
    pub fn step(&mut self, ready: bool) -> (a: Action)
        ensures
            a == action_for(old(self).tuning_of(), old(self).misses(), ready),
            final(self).tuning_of() == old(self).tuning_of(),
            final(self).misses() == if ready || old(self).misses() >= old(self).park_threshold() {
                old(self).misses()
            } else {
                old(self).misses() + 1
            },
    {
        if ready {
            return Action::Ready;
        }
        let busy: u64 = self.tuning.spin_iterations() as u64;
        let yields: u64 = self.tuning.yield_iterations() as u64;
        let a = if self.misses < busy {
            Action::Spin
        } else if self.misses < busy + yields {
            Action::Yield
        } else {
            Action::Park
        };
        if self.misses < busy + yields {
            self.misses = self.misses + 1;
        }
        a
    }
}

/// A wait returns only on a check that observed its predicate true, whatever
/// the tuning: zero spin and zero yield iterations included.
pub proof fn lemma_ready_iff_observed(t: Tuning, misses: nat, ready: bool)
    ensures
        (action_for(t, misses, ready) == Action::Ready) == ready,
{
}

/// With zero spin and zero yield iterations, every check that misses blocks.
pub proof fn lemma_park_only(t: Tuning, misses: nat)
    requires
        t.spin_budget() == 0,
        t.yield_budget() == 0,
    ensures
        action_for(t, misses, false) == Action::Park,
{
}

/// The phases come in order: a later miss never returns to an earlier phase.
pub proof fn lemma_phases_in_order(t: Tuning, m1: nat, m2: nat)
    requires
        m1 <= m2,
    ensures
        phase_rank(action_for(t, m1, false)) <= phase_rank(action_for(t, m2, false)),
{
}

} // verus!
