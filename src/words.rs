//! The first word of a text, and the longer of two texts.
use vstd::prelude::*;
use vstd::string::StringSliceAdditionalSpecFns;
use vstd::utf8::{encode_utf8, encode_utf8_valid_utf8, is_char_boundary_iff_not_is_continuation_byte};

verus! {

/// Whether `end` is where the first word of `bytes` ends: the position of the
/// first space, or the length where there is none.
pub open spec fn is_word_end(bytes: Seq<u8>, end: int) -> bool {
    &&& 0 <= end <= bytes.len()
    &&& forall|j: int| 0 <= j < end ==> bytes[j] != 32u8
    &&& end < bytes.len() ==> bytes[end] == 32u8
}

/// The byte position where the first word of `s` ends: that of the first
/// space, or the length of `s` where there is none.
pub fn first_word_end(s: &str) -> (r: usize)
    ensures
        is_word_end(s.spec_bytes(), r as int),
{
    let bytes = s.as_bytes();
    let mut i: usize = 0;
    while i < bytes.len()
        invariant
            bytes@ == s.spec_bytes(),
            i <= bytes@.len(),
            forall|j: int| 0 <= j < i ==> bytes@[j] != 32u8,
        decreases bytes@.len() - i,
    {
        if bytes[i] == 32u8 {
            return i;
        }
        i += 1;
    }
    i
}

/// The byte position where the first word of `s` ends.
pub fn first_words(s: &String) -> (r: usize)
    ensures
        is_word_end(encode_utf8(s@), r as int),
{
    first_word_end(s.as_str())
}

/// The first word of `s`: everything before its first space, or all of it.
pub fn first_word(s: &str) -> (r: &str)
    ensures
        exists|end: int|
            is_word_end(s.spec_bytes(), end) && r.spec_bytes() == s.spec_bytes().take(end),
{
    let end = first_word_end(s);
    if end < s.as_bytes().len() {
        proof {
            encode_utf8_valid_utf8(s@);
            is_char_boundary_iff_not_is_continuation_byte(s.spec_bytes(), end as int);
        }
        let (word, _) = s.split_at(end);
        assert(word.spec_bytes() == s.spec_bytes().take(end as int));
        word
    } else {
        assert(s.spec_bytes().take(end as int) =~= s.spec_bytes());
        s
    }
}

/// The first word of `s`; see `first_word`.
pub fn refactored_first_words(s: &String) -> (r: &str)
    ensures
        exists|end: int|
            is_word_end(encode_utf8(s@), end) && r.spec_bytes() == encode_utf8(s@).take(end),
{
    first_word(s.as_str())
}

/// The longer of `x` and `y` by length in bytes; `y` where they tie.
pub fn longest<'a>(x: &'a str, y: &'a str) -> (r: &'a str)
    ensures
        r@ == (if x.spec_bytes().len() > y.spec_bytes().len() { x@ } else { y@ }),
{
    if x.as_bytes().len() > y.as_bytes().len() {
        x
    } else {
        y
    }
}

/// Always `x`: only `x` shares the result's lifetime.
pub fn longest_again<'a>(x: &'a str, y: &str) -> (r: &'a str)
    ensures
        r@ == x@,
{
    x
}

} // verus!
