use vstd::prelude::*;

verus! {

/// A wait whose target is `target` may return once the event counter reads `counter`.
pub open spec fn released(counter: int, target: int) -> bool {
    counter >= target
}

/// The target that a wait claims when the waiter's ticket counter read
/// `ticket`: one past it, held at the largest 64-bit value.
pub open spec fn target_after(ticket: int) -> int {
    if ticket < u64::MAX {
        ticket + 1
    } else {
        u64::MAX as int
    }
}

/// A non-blocking claim against the event counter: the advanced ticket counter
/// when an event beyond `next` is pending, nothing otherwise.
pub open spec fn claimed(next: int, counter: int) -> Option<int> {
    if next < counter {
        Some(next + 1)
    } else {
        None
    }
}

/// Whether a wait with target `target` may return, with the event counter at `counter`.
pub fn is_released(counter: u64, target: u64) -> (r: bool)
    ensures
        r == released(counter as int, target as int),
{
    counter >= target
}

/// The target of the wait that advanced the ticket counter from `ticket`.
pub fn wait_target(ticket: u64) -> (r: u64)
    ensures
        r as int == target_after(ticket as int),
{
    if ticket < u64::MAX {
        ticket + 1
    } else {
        u64::MAX
    }
}

/// Claims one pending event, if any: the new ticket counter, or `None` when
/// the event counter has not passed the ticket counter.
pub fn try_claim(next: u64, counter: u64) -> (r: Option<u64>)
    ensures
        r matches Some(n) ==> claimed(next as int, counter as int) == Some(n as int),
        r is None ==> claimed(next as int, counter as int) is None,
{
    if next < counter {
        Some(next + 1)
    } else {
        None
    }
}

/// Ticket monotonicity. The waits of one waiter claim strictly increasing
/// targets, so a counter value that releases a later wait releases every
/// earlier one: successive waits are released by strictly increasing counts.
pub proof fn lemma_targets_increase(ticket: int, i: nat, j: nat, counter: int)
    requires
        0 <= ticket,
        i < j,
        ticket + j < u64::MAX,
    ensures
        target_after(ticket + i) < target_after(ticket + j),
        released(counter, target_after(ticket + j)) ==> released(counter, target_after(ticket + i)),
        released(counter, target_after(ticket + j)) ==> counter >= target_after(ticket + i) + (j - i),
{
}

/// No event is lost. When the event counter is `k` ahead of the ticket counter
/// at the moment a wait starts, that wait and the next `k - 1` waits find
/// their targets reached on their first check.
pub proof fn lemma_pending_signals_release(ticket: int, counter: int, k: nat, i: nat)
    requires
        0 <= ticket,
        counter >= ticket + k,
        i < k,
    ensures
        released(counter, target_after(ticket + i)),
{
}

/// Two claims with no event in between: when at most one event was pending,
/// the second claim finds nothing, whatever the first found.
pub proof fn lemma_second_claim_misses(next: int, counter: int)
    requires
        counter <= next + 1,
    ensures
        claimed(
            match claimed(next, counter) {
                Some(n) => n,
                None => next,
            },
            counter,
        ) is None,
{
}

/// A claim succeeds exactly when it would have released a blocking wait
/// started from the same ticket counter.
pub proof fn lemma_claim_matches_wait(next: int, counter: int)
    requires
        0 <= next < u64::MAX,
    ensures
        (claimed(next, counter) is Some) == released(counter, target_after(next)),
        claimed(next, counter) is Some ==> claimed(next, counter) == Some(target_after(next)),
{
}

} // verus!
