//! Largest items of a list, and points with one or two coordinate types.
use vstd::prelude::*;

verus! {

/// The largest number of `list`, which must not be empty.
pub fn largest_i32(list: &[i32]) -> (r: i32)
    requires
        list@.len() > 0,
    ensures
        list@.contains(r),
        forall|i: int| 0 <= i < list@.len() ==> list@[i] <= r,
{
    let mut largest = list[0];
    let mut at: usize = 0;
    for k in 0..list.len()
        invariant
            list@.len() > 0,
            at < list@.len(),
            largest == list@[at as int],
            forall|i: int| 0 <= i < k ==> list@[i] <= largest,
    {
        if list[k] > largest {
            largest = list[k];
            at = k;
        }
    }
    largest
}

/// The largest character of `list`, which must not be empty.
pub fn largest_char(list: &[char]) -> (r: char)
    requires
        list@.len() > 0,
    ensures
        list@.contains(r),
        forall|i: int| 0 <= i < list@.len() ==> list@[i] <= r,
{
    let mut largest = list[0];
    let mut at: usize = 0;
    for k in 0..list.len()
        invariant
            list@.len() > 0,
            at < list@.len(),
            largest == list@[at as int],
            forall|i: int| 0 <= i < k ==> list@[i] <= largest,
    {
        if list[k] > largest {
            largest = list[k];
            at = k;
        }
    }
    largest
}

/// A point whose coordinates share one type.
pub struct Point<T> {
    pub x: T,
    pub y: T,
}

impl<T> Point<T> {
    /// The first coordinate.
    pub fn x(&self) -> (r: &T)
        ensures
            *r == self.x,
    {
        &self.x
    }
}

/// A point whose coordinates may differ in type.
pub struct TwoTypePoint<T, U> {
    pub x: T,
    pub y: U,
}

impl<T, U> TwoTypePoint<T, U> {
    /// A point with this point's first coordinate and `other`'s second.
    pub fn mixup<V, W>(self, other: TwoTypePoint<V, W>) -> (r: TwoTypePoint<T, W>)
        ensures
            r.x == self.x,
            r.y == other.y,
    {
        TwoTypePoint { x: self.x, y: other.y }
    }
}

/// A pair of values of one type.
pub struct Pair<T> {
    x: T,
    y: T,
}

impl<T> Pair<T> {
    /// The first value.
    pub closed spec fn first(&self) -> T {
        self.x
    }

    /// The second value.
    pub closed spec fn second(&self) -> T {
        self.y
    }

    /// The pair of `x` and `y`.
    pub fn new(x: T, y: T) -> (r: Self)
        ensures
            r.first() == x,
            r.second() == y,
    {
        Self { x, y }
    }
}

impl Pair<i32> {
    /// Whether the first value is the larger one, ties included.
    pub fn first_is_largest(&self) -> (r: bool)
        ensures
            r == (self.first() >= self.second()),
    {
        self.x >= self.y
    }
}

} // verus!
