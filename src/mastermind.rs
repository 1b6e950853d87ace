//! The colours of a code-breaking game, a random code of them, and two small
//! counting helpers.
use vstd::prelude::*;
use rand::Rng;

verus! {

/// A peg colour.
#[derive(Clone, Copy, Debug, PartialEq, Eq, Structural)]
pub enum Color {
    Red,
    Orange,
    Yellow,
    Green,
    Blue,
    Purple,
}

/// How many colours there are.
pub const COLOR_COUNT: usize = 6;

/// How many pegs a code has.
pub const CODE_LEN: usize = 4;

/// The colour at each position of the palette, in order.
pub open spec fn palette(i: int) -> Color {
    if i == 0 {
        Color::Red
    } else if i == 1 {
        Color::Orange
    } else if i == 2 {
        Color::Yellow
    } else if i == 3 {
        Color::Green
    } else if i == 4 {
        Color::Blue
    } else {
        Color::Purple
    }
}

/// The colour at position `i` of the palette.
pub fn color_at(i: usize) -> (r: Color)
    requires
        i < COLOR_COUNT,
    ensures
        r == palette(i as int),
{
    let colors: [Color; 6] = [
        Color::Red,
        Color::Orange,
        Color::Yellow,
        Color::Green,
        Color::Blue,
        Color::Purple,
    ];
    assert(forall|k: int| 0 <= k < 6 ==> colors@[k] == palette(k));
    colors[i]
}

/// Relies on rand's thread_rng and Rng::gen_range(low, high), which returns a
/// value in [low, high) and panics unless low < high.
#[verifier::external_body]
fn random_below(high: usize) -> (r: usize)
    requires
        0 < high,
    ensures
        r < high,
{
    rand::thread_rng().gen_range(0, high)
}

/// A code of `CODE_LEN` colours drawn at random from the palette.
pub fn generate_code() -> (r: Vec<Color>)
    ensures
        r@.len() == CODE_LEN,
{
    let mut code: Vec<Color> = Vec::new();
    for _k in 0..CODE_LEN
        invariant
            code@.len() == _k,
    {
        let i = random_below(COLOR_COUNT);
        code.push(color_at(i));
    }
    code
}

/// `n` plus one.
pub fn add_one(n: i32) -> (r: i32)
    requires
        n < i32::MAX,
    ensures
        r == n + 1,
{
    n + 1
}

/// Each number of `nums` plus one, in the same order.
pub fn add_one_to_many(nums: Vec<i32>) -> (r: Vec<i32>)
    requires
        forall|i: int| 0 <= i < nums@.len() ==> nums@[i] < i32::MAX,
    ensures
        r@.len() == nums@.len(),
        forall|i: int| 0 <= i < nums@.len() ==> r@[i] == nums@[i] + 1,
{
    let mut out: Vec<i32> = Vec::new();
    for k in 0..nums.len()
        invariant
            out@.len() == k,
            forall|i: int| 0 <= i < nums@.len() ==> nums@[i] < i32::MAX,
            forall|i: int| 0 <= i < k ==> out@[i] == nums@[i] + 1,
    {
        out.push(add_one(nums[k]));
    }
    out
}

} // verus!
