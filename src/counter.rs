//! A counter that yields 1 to 5, and the two iteration traits it implements.
use vstd::prelude::*;

verus! {

/// A source of items, handed out one at a time until it runs dry.
pub trait Iterator {
    type Item;

    /// Whether one more call of `next` is within the source's limits.
    spec fn can_advance(&self) -> bool;

    fn next(&mut self) -> Option<Self::Item>
        requires
            old(self).can_advance(),
    ;
}

/// A source of items of type `T`, with the item type chosen by the caller.
pub trait Iterator2<T> {
    /// Whether one more call of `next` is within the source's limits.
    spec fn can_advance(&self) -> bool;

    fn next(&mut self) -> Option<T>
        requires
            old(self).can_advance(),
    ;
}

/// The last number that a counter yields.
pub const COUNTER_LIMIT: u32 = 5;

/// Counts from 1 to `COUNTER_LIMIT`, then yields nothing more.
pub struct Counter {
    count: u32,
}

impl Counter {
    /// How many times `next` has been called on this counter; it goes on
    /// rising after the counter has run dry.
    pub closed spec fn spec_count(&self) -> u32 {
        self.count
    }

    /// A counter on which `next` has not been called yet.
    pub fn new() -> (r: Counter)
        ensures
            r.spec_count() == 0,
    {
        Counter { count: 0 }
    }

    /// Raises the count by one, and yields the new count while it is at most
    /// `COUNTER_LIMIT`, `None` after that. The count must have room to rise.
    pub fn next(&mut self) -> (r: Option<u32>)
        requires
            old(self).spec_count() < u32::MAX,
        ensures
            final(self).spec_count() == old(self).spec_count() + 1,
            r == (if final(self).spec_count() <= COUNTER_LIMIT {
                Some(final(self).spec_count())
            } else {
                None
            }),
    {
        self.count += 1;
        if self.count <= COUNTER_LIMIT {
            Some(self.count)
        } else {
            None
        }
    }
}

impl Iterator for Counter {
    type Item = u32;

    open spec fn can_advance(&self) -> bool {
        self.spec_count() < u32::MAX
    }

    fn next(&mut self) -> Option<u32> {
        Counter::next(self)
    }
}

impl Iterator2<u32> for Counter {
    open spec fn can_advance(&self) -> bool {
        self.spec_count() < u32::MAX
    }

    fn next(&mut self) -> Option<u32> {
        Counter::next(self)
    }
}

} // verus!
