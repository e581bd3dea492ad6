//! The position of the scheduler in the commutation table.

use vstd::prelude::*;
use crate::commutation::STEPS_PER_REVOLUTION;

verus! {

/// The position after `position`, wrapping after the last step.
pub open spec fn next_position(position: nat) -> nat {
    (position + 1) % (STEPS_PER_REVOLUTION as nat)
}

/// The position after advancing `count` times from `position`.
pub open spec fn advanced(position: nat, count: nat) -> nat
    decreases count,
{
    if count == 0 {
        position
    } else {
        next_position(advanced(position, (count - 1) as nat))
    }
}

/// Whether `target` is reached from `start` by one to six advances.
pub open spec fn reached_within_revolution(start: nat, target: nat) -> bool {
    exists|n: nat| 1 <= n <= STEPS_PER_REVOLUTION && #[trigger] advanced(start, n) == target
}

/// A position in `0..6`.
pub struct StepIndex {
    value: usize,
}

impl View for StepIndex {
    type V = nat;

    closed spec fn view(&self) -> nat {
        self.value as nat
    }
}

impl StepIndex {
    pub open spec fn wf(&self) -> bool {
        self@ < STEPS_PER_REVOLUTION
    }

    /// The first position.
    pub fn new() -> (r: StepIndex)
        ensures
            r@ == 0,
            r.wf(),
    {
        StepIndex { value: 0 }
    }

    /// The position `value`, if it lies in `0..6`.
    pub fn from_value(value: usize) -> (r: Option<StepIndex>)
        ensures
            r is Some <==> value < STEPS_PER_REVOLUTION,
            r matches Some(i) ==> i@ == value && i.wf(),
    {
        if value < STEPS_PER_REVOLUTION {
            Some(StepIndex { value })
        } else {
            None
        }
    }

    pub fn value(&self) -> (r: usize)
        ensures
            r == self@,
    {
        self.value
    }

    /// Moves to the next position, wrapping from the last to the first.
    pub fn advance(&mut self)
        requires
            old(self).wf(),
        ensures
            final(self).wf(),
            final(self)@ == next_position(old(self)@),
    {
        self.value = (self.value + 1) % STEPS_PER_REVOLUTION;
    }
}

proof fn lemma_advanced_is_sum(position: nat, count: nat)
    requires
        position < STEPS_PER_REVOLUTION,
    ensures
        advanced(position, count) as int == (position + count) as int % (STEPS_PER_REVOLUTION as int),
    decreases count,
{
    if count > 0 {
        lemma_advanced_is_sum(position, (count - 1) as nat);
    }
}

/// Six advances from any position come back to it, and the positions after
/// one to six advances are the six positions, each once.
pub proof fn lemma_revolution(start: nat)
    requires
        start < STEPS_PER_REVOLUTION,
    ensures
        advanced(start, STEPS_PER_REVOLUTION as nat) == start,
        forall|m: nat, n: nat|
            1 <= m < n <= STEPS_PER_REVOLUTION ==> #[trigger] advanced(start, m) != #[trigger] advanced(
                start,
                n,
            ),
        forall|target: nat|
            target < STEPS_PER_REVOLUTION ==> #[trigger] reached_within_revolution(start, target),
{
    lemma_advanced_is_sum(start, STEPS_PER_REVOLUTION as nat);
    assert forall|m: nat, n: nat| 1 <= m < n <= STEPS_PER_REVOLUTION implies #[trigger] advanced(
        start,
        m,
    ) != #[trigger] advanced(start, n) by {
        lemma_advanced_is_sum(start, m);
        lemma_advanced_is_sum(start, n);
    }
    assert forall|target: nat| target < STEPS_PER_REVOLUTION implies #[trigger] reached_within_revolution(
        start,
        target,
    ) by {
        let n: nat = if target > start {
            (target - start) as nat
        } else {
            (target + STEPS_PER_REVOLUTION - start) as nat
        };
        lemma_advanced_is_sum(start, n);
        assert(advanced(start, n) == target);
    }
}

} // verus!
