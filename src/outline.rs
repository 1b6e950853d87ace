//! A frame of stars drawn around a line of text.
use vstd::prelude::*;
use vstd::string::StringSliceAdditionalSpecFns;

verus! {

/// `n` copies of `c`.
pub open spec fn repeat(c: char, n: nat) -> Seq<char> {
    Seq::new(n, |_i: int| c)
}

/// `n` copies of `piece`, which must be one character.
fn repeated(piece: &str, n: usize) -> (r: String)
    requires
        piece@.len() == 1,
    ensures
        r@ == repeat(piece@[0], n as nat),
{
    let mut out = String::new();
    for k in 0..n
        invariant
            piece@.len() == 1,
            out@ == repeat(piece@[0], k as nat),
    {
        out.append(piece);
        assert(out@ =~= repeat(piece@[0], (k + 1) as nat));
    }
    out
}

/// The five lines of a frame around `text`, whose width is its length in
/// bytes: a row of stars, a padded row, the text itself between stars, a
/// padded row, and a row of stars.
pub open spec fn frame(text: Seq<char>, width: nat) -> Seq<Seq<char>> {
    let border = repeat('*', width + 4);
    let padding = seq!['*'] + repeat(' ', width + 2) + seq!['*'];
    seq![border, padding, seq!['*', ' '] + text + seq![' ', '*'], padding, border]
}

/// The lines of a frame of stars around `text`.
pub fn outline(text: &str) -> (r: Vec<String>)
    requires
        text.spec_bytes().len() + 4 <= usize::MAX,
    ensures
        r@.len() == 5,
        forall|k: int| 0 <= k < 5 ==> #[trigger] r@[k]@ == frame(text@, text.spec_bytes().len())[k],
{
    proof {
        reveal_strlit("*");
        reveal_strlit(" ");
        reveal_strlit("* ");
        reveal_strlit(" *");
    }
    let len = text.as_bytes().len();
    let border = repeated("*", len + 4);
    let padding = String::from_str("*").concat(repeated(" ", len + 2).as_str()).concat("*");
    let middle = String::from_str("* ").concat(text).concat(" *");
    let mut lines: Vec<String> = Vec::new();
    lines.push(border.clone());
    lines.push(padding.clone());
    lines.push(middle);
    lines.push(padding);
    lines.push(border);
    let ghost f = frame(text@, text.spec_bytes().len());
    assert(lines@[1]@ =~= f[1]);
    assert(lines@[2]@ =~= f[2]);
    assert(lines@[3]@ =~= f[3]);
    lines
}

} // verus!
