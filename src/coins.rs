//! Coin values, an optional increment, and the average of a list.
use vstd::prelude::*;

verus! {

/// A state of the union, as stamped on a quarter.
#[derive(Clone, Copy, Debug, PartialEq, Eq, Structural)]
pub enum UsState {
    Alabama,
    Alaska,
}

/// A coin.
#[derive(Clone, Copy, Debug, PartialEq, Eq, Structural)]
pub enum Coin {
    Penny,
    Nickel,
    Dime,
    Quarter(UsState),
}

/// The value of each coin, in cents.
pub open spec fn cents(coin: Coin) -> u32 {
    match coin {
        Coin::Penny => 1,
        Coin::Nickel => 5,
        Coin::Dime => 10,
        Coin::Quarter(_) => 25,
    }
}

/// The value of `coin`, in cents.
pub fn value_in_cents(coin: Coin) -> (r: u32)
    ensures
        r == cents(coin),
{
    match coin {
        Coin::Penny => 1,
        Coin::Nickel => 5,
        Coin::Dime => 10,
        Coin::Quarter(_) => 25,
    }
}

/// The number plus one, if there is one.
pub fn plus_one(number: Option<i32>) -> (r: Option<i32>)
    requires
        number matches Some(v) ==> v < i32::MAX,
    ensures
        r == (match number {
            Some(v) => Some((v + 1) as i32),
            None => None,
        }),
{
    match number {
        Some(value) => Some(value + 1),
        None => None,
    }
}

/// The sum of `s`.
pub open spec fn sum(s: Seq<i32>) -> int
    decreases s.len(),
{
    if s.len() == 0 {
        0
    } else {
        sum(s.drop_last()) + s.last()
    }
}

/// The average of `numbers`, rounded down: their sum, taken as a `usize` the
/// way a cast takes it, divided by how many there are. The list must not be
/// empty, and every running sum must fit an `i32`.
pub fn average(numbers: Vec<i32>) -> (r: usize)
    requires
        numbers@.len() > 0,
        forall|k: int| 0 <= k <= numbers@.len() ==> i32::MIN <= #[trigger] sum(numbers@.take(k)) <= i32::MAX,
    ensures
        r == (sum(numbers@) as usize) / numbers@.len() as usize,
{
    let mut total: i32 = 0;
    for k in 0..numbers.len()
        invariant
            total == sum(numbers@.take(k as int)),
            forall|j: int| 0 <= j <= numbers@.len() ==> i32::MIN <= #[trigger] sum(numbers@.take(j)) <= i32::MAX,
    {
        assert(numbers@.take(k + 1).drop_last() =~= numbers@.take(k as int));
        assert(sum(numbers@.take(k + 1)) == total + numbers@[k as int]);
        total += numbers[k];
    }
    assert(numbers@.take(numbers@.len() as int) =~= numbers@);
    total as usize / numbers.len()
}

} // verus!
