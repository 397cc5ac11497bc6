//! The cyclic selector over the game tabs.

use vstd::prelude::*;

verus! {

/// The tab after `index` among `count` tabs, wrapping from the last to the first.
pub open spec fn next_index(index: int, count: int) -> int {
    (index + 1) % count
}

/// The tab before `index` among `count` tabs, wrapping from the first to the last.
pub open spec fn prev_index(index: int, count: int) -> int {
    if index != 0 {
        index - 1
    } else {
        count - 1
    }
}

/// `next_index` applied `steps` times.
pub open spec fn advance(index: int, count: int, steps: nat) -> int
    decreases steps,
{
    if steps == 0 {
        index
    } else {
        next_index(advance(index, count, (steps - 1) as nat), count)
    }
}

/// A position among a list of tab labels.
#[derive(Debug, PartialEq, Eq)]
pub struct Tabber {
    pub index: u8,
    pub values: Vec<String>,
}

impl Tabber {
    /// There is at least one label, the position points at one of them, and
    /// the number of labels fits the position's type.
    pub open spec fn wf(&self) -> bool {
        &&& 0 < self.values@.len() <= 255
        &&& self.index < self.values@.len()
    }

    /// A step forward can be taken: there is a label, the number of labels
    /// fits the position's type, and so does the position after this one.
    pub open spec fn can_next(&self) -> bool {
        &&& 0 < self.values@.len() <= 255
        &&& self.index < 255
    }

    /// A step back can be taken: the position is not the first, or there are
    /// labels and the last of them has a position.
    pub open spec fn can_prev(&self) -> bool {
        self.index != 0 || 0 < self.values@.len() <= 256
    }

    /// Moves to the following tab; after the last comes the first.
    pub fn next(&mut self)
        requires
            old(self).can_next(),
        ensures
            final(self).values == old(self).values,
            final(self).index == next_index(old(self).index as int, old(self).values@.len() as int),
            final(self).wf(),
    {
        self.index = (self.index + 1) % (self.values.len() as u8);
    }

    /// Moves to the preceding tab; before the first comes the last.
    pub fn prev(&mut self)
        requires
            old(self).can_prev(),
        ensures
            final(self).values == old(self).values,
            final(self).index == prev_index(old(self).index as int, old(self).values@.len() as int),
            old(self).index < old(self).values@.len()
                ==> final(self).index < final(self).values@.len(),
            old(self).wf() ==> final(self).wf(),
    {
        if self.index != 0 {
            self.index -= 1;
        } else {
            self.index = (self.values.len() - 1) as u8
        }
    }
}

/// Stepping forward any number of times lands on the start plus that number,
/// taken modulo the number of tabs.
pub proof fn lemma_advance_is_addition(index: int, count: int, steps: nat)
    requires
        0 <= index < count,
    ensures
        advance(index, count, steps) == (index + steps) % count,
    decreases steps,
{
    if steps == 0 {
        vstd::arithmetic::div_mod::lemma_small_mod(index as nat, count as nat);
    } else {
        lemma_advance_is_addition(index, count, (steps - 1) as nat);
        vstd::arithmetic::div_mod::lemma_add_mod_noop(index + steps - 1, 1, count);
        vstd::arithmetic::div_mod::lemma_mod_twice(index + steps - 1, count);
        vstd::arithmetic::div_mod::lemma_add_mod_noop((index + steps - 1) % count, 1, count);
    }
}

/// Stepping forward once for every tab returns to the tab one started from.
pub proof fn lemma_full_cycle_returns(index: int, count: int)
    requires
        0 <= index < count,
    ensures
        advance(index, count, count as nat) == index,
{
    lemma_advance_is_addition(index, count, count as nat);
    vstd::arithmetic::div_mod::lemma_mod_add_multiples_vanish(index, count);
    vstd::arithmetic::div_mod::lemma_small_mod(index as nat, count as nat);
}

/// With three tabs, three steps forward return to the start, and one step
/// back from the first tab lands on the third.
pub proof fn lemma_three_tabs(index: int)
    requires
        0 <= index < 3,
    ensures
        next_index(next_index(next_index(index, 3), 3), 3) == index,
        prev_index(0, 3) == 2,
{
}

/// A step forward followed by a step back, or a step back followed by a step
/// forward, changes nothing.
pub proof fn lemma_next_prev_inverse(index: int, count: int)
    requires
        0 <= index < count,
    ensures
        prev_index(next_index(index, count), count) == index,
        next_index(prev_index(index, count), count) == index,
        0 <= next_index(index, count) < count,
        0 <= prev_index(index, count) < count,
{
    if index + 1 < count {
        vstd::arithmetic::div_mod::lemma_small_mod((index + 1) as nat, count as nat);
    } else {
        vstd::arithmetic::div_mod::lemma_mod_self_0(count);
    }
    if index != 0 {
        vstd::arithmetic::div_mod::lemma_small_mod(index as nat, count as nat);
    } else {
        vstd::arithmetic::div_mod::lemma_mod_self_0(count);
    }
}

} // verus!
