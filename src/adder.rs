//! Small arithmetic helpers, a greeting, and a bounded guess.
use vstd::prelude::*;

verus! {

/// Adds two to `a`.
pub fn add_two(a: i32) -> (r: i32)
    requires
        a <= i32::MAX - 2,
    ensures
        r == a + 2,
{
    a + 2
}

/// Adds `a` and `b`.
pub fn internal_adder(a: i32, b: i32) -> (r: i32)
    requires
        i32::MIN <= a + b <= i32::MAX,
    ensures
        r == a + b,
{
    a + b
}

/// A greeting addressed to `name`.
pub fn greeting(name: &str) -> (r: String)
    ensures
        r@ == "Hello "@ + name@ + "!"@,
{
    let hello = String::from_str("Hello ");
    let with_name = hello.concat(name);
    with_name.concat("!")
}

/// A guess in the range 1 to 100.
pub struct Guess {
    value: i32,
}

impl Guess {
    /// A guess always lies in its range.
    #[verifier::type_invariant]
    spec fn wf(&self) -> bool {
        1 <= self.value <= 100
    }

    /// The guessed number.
    pub closed spec fn spec_value(&self) -> i32 {
        self.value
    }

    /// A guess of `value`, which must lie in the range 1 to 100.
    pub fn new(value: i32) -> (r: Guess)
        requires
            1 <= value <= 100,
        ensures
            r.spec_value() == value,
    {
        Guess { value }
    }

    /// The guessed number.
    pub fn value(&self) -> (r: i32)
        ensures
            r == self.spec_value(),
            1 <= r <= 100,
    {
        proof {
            use_type_invariant(self);
        }
        self.value
    }
}

} // verus!
