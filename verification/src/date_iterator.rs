//! Stepping through dates at a changing level of detail.

use vstd::prelude::*;

use crate::when::When;

verus! {

/// A value paired with a small nesting level that can be raised and lowered.
pub struct LevelTracker<T> {
    pub thing: T,
    pub level: u8,
}

impl<T> LevelTracker<T> {
    /// Lowers the level by one; the level must be positive.
    pub fn lower_level(&mut self)
        requires
            old(self).level > 0,
        ensures
            final(self).level == old(self).level - 1,
            final(self).thing == old(self).thing,
    {
        self.level = self.level - 1;
    }

    /// Raises the level by one; the level must be below its maximum.
    pub fn increase_level(&mut self)
        requires
            old(self).level < u8::MAX,
        ensures
            final(self).level == old(self).level + 1,
            final(self).thing == old(self).thing,
    {
        self.level = self.level + 1;
    }
}

/// Steps from one time to another, keeping the level of detail the current
/// time is looked at with.
pub struct DateIterator {
    curr: LevelTracker<When>,
    end: When,
}

} // verus!
