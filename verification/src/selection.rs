//! The selection: which effect is active, and how it moves on.

use vstd::prelude::*;

verus! {

/// The index that follows `index` in a cycle of `effect_count` effects: one
/// more, or zero once that would reach `effect_count`.
pub open spec fn advanced(index: int, effect_count: int) -> int {
    if index + 1 < effect_count {
        index + 1
    } else {
        0
    }
}

/// The index reached from `index` after `steps` advances.
pub open spec fn advanced_by(index: int, effect_count: int, steps: nat) -> int
    decreases steps,
{
    if steps == 0 {
        index
    } else {
        advanced(advanced_by(index, effect_count, (steps - 1) as nat), effect_count)
    }
}

/// The active effect's index, together with the bound at which it wraps.
///
/// The index is only ever changed by [`SelectionState::advance`]. Exclusive
/// access is what `&mut self` gives; a caller that shares the state between
/// call sites puts it behind a lock of its own.
#[derive(Debug)]
pub struct SelectionState {
    index: usize,
    effect_count: usize,
}

impl SelectionState {
    /// The index of the active effect.
    pub closed spec fn index(&self) -> usize {
        self.index
    }

    /// The bound at which advancing wraps to zero.
    pub closed spec fn effect_count(&self) -> usize {
        self.effect_count
    }

    /// A selection that starts at `initial` and wraps at `effect_count`.
    ///
    /// `initial` need not lie below `effect_count`: the first advance brings
    /// it into the cycle.
    pub fn new(initial: usize, effect_count: usize) -> (state: SelectionState)
        ensures
            state.index() == initial,
            state.effect_count() == effect_count,
    {
        SelectionState { index: initial, effect_count }
    }

    /// The index of the active effect.
    pub fn read(&self) -> (index: usize)
        ensures
            index == self.index(),
    {
        self.index
    }

    /// Moves on to the next effect, wrapping to zero at the bound.
    pub fn advance(&mut self)
        ensures
            final(self).index() == advanced(
                old(self).index() as int,
                old(self).effect_count() as int,
            ),
            final(self).effect_count() == old(self).effect_count(),
    {
        if self.index < usize::MAX && self.index + 1 < self.effect_count {
            self.index = self.index + 1;
        } else {
            self.index = 0;
        }
    }
}

/// While fewer than `effect_count` steps away from the bound, advancing counts
/// up; from there on it has wrapped once and counts up from zero.
proof fn lemma_advanced_by_unrolled(index: int, effect_count: int, steps: nat)
    requires
        0 <= index < effect_count,
        steps <= effect_count,
    ensures
        advanced_by(index, effect_count, steps) == if index + steps < effect_count {
            index + steps
        } else {
            index + steps - effect_count
        },
    decreases steps,
{
    if steps > 0 {
        lemma_advanced_by_unrolled(index, effect_count, (steps - 1) as nat);
    }
}

/// Wraparound law: from an index inside the cycle, advancing exactly
/// `effect_count` times leads back to that index.
pub proof fn lemma_full_cycle_returns(index: usize, effect_count: usize)
    requires
        effect_count == 0 || index < effect_count,
    ensures
        advanced_by(index as int, effect_count as int, effect_count as nat) == index,
{
    if effect_count > 0 {
        lemma_advanced_by_unrolled(index as int, effect_count as int, effect_count as nat);
    }
}

/// Every advance lands inside the cycle, wherever it started.
pub proof fn lemma_advanced_in_cycle(index: usize, effect_count: usize)
    ensures
        advanced(index as int, effect_count as int) == 0 || advanced(
            index as int,
            effect_count as int,
        ) < effect_count,
        0 <= advanced(index as int, effect_count as int) <= usize::MAX,
{
}

} // verus!
