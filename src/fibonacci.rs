//! Fibonacci numbers, computed by iteration.
use vstd::prelude::*;

verus! {

/// The `n`-th Fibonacci number: 0, 1, 1, 2, 3, 5, ...
pub open spec fn fib_spec(n: nat) -> nat
    decreases n,
{
    if n == 0 {
        0
    } else if n == 1 {
        1
    } else {
        fib_spec((n - 1) as nat) + fib_spec((n - 2) as nat)
    }
}

/// Fibonacci numbers never decrease.
proof fn fib_grows(i: nat, j: nat)
    requires
        i <= j,
    ensures
        fib_spec(i) <= fib_spec(j),
    decreases j,
{
    if i < j {
        fib_grows(i, (j - 1) as nat);
        if j >= 2 {
            assert(fib_spec(j) == fib_spec((j - 1) as nat) + fib_spec((j - 2) as nat));
        }
    }
}

/// The `n`-th Fibonacci number; a negative `n` gives 1.
pub fn fib(n: i32) -> (r: i32)
    requires
        n >= 0 ==> fib_spec(n as nat) <= i32::MAX,
    ensures
        n >= 0 ==> r == fib_spec(n as nat),
        n < 0 ==> r == 1,
{
    if n == 0 {
        return 0;
    }
    if n == 1 {
        return 1;
    }
    let mut penultimate: i32 = 0;
    let mut last: i32 = 1;
    let mut done: i32 = 1;
    while done < n
        invariant
            n >= 0 ==> fib_spec(n as nat) <= i32::MAX,
            1 <= done,
            n >= 1 ==> done <= n,
            n < 1 ==> done == 1,
            penultimate == fib_spec((done - 1) as nat),
            last == fib_spec(done as nat),
        decreases n - done,
    {
        proof {
            fib_grows((done + 1) as nat, n as nat);
        }
        let next = penultimate + last;
        penultimate = last;
        last = next;
        done += 1;
    }
    last
}

} // verus!
