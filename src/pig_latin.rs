//! Pig latin: each word's first letter moves to its end, followed by "ay";
//! words that begin with a vowel keep their letters and gain "-ay".
use vstd::prelude::*;
use crate::search::chars_of;

verus! {

/// Whether `c` has the Unicode White_Space property.
pub open spec fn is_space(c: char) -> bool {
    ('\u{9}' <= c && c <= '\u{d}') || c == ' ' || c == '\u{85}' || c == '\u{a0}' || c
        == '\u{1680}' || ('\u{2000}' <= c && c <= '\u{200a}') || c == '\u{2028}' || c == '\u{2029}'
        || c == '\u{202f}' || c == '\u{205f}' || c == '\u{3000}'
}

/// Whether `c` has the Unicode White_Space property.
pub fn space(c: char) -> (r: bool)
    ensures
        r == is_space(c),
{
    ('\u{9}' <= c && c <= '\u{d}') || c == ' ' || c == '\u{85}' || c == '\u{a0}' || c
        == '\u{1680}' || ('\u{2000}' <= c && c <= '\u{200a}') || c == '\u{2028}' || c == '\u{2029}'
        || c == '\u{202f}' || c == '\u{205f}' || c == '\u{3000}'
}

/// Splits `text` into words at runs of white space: the words completed so
/// far, and the characters of the word being read.
pub open spec fn word_split(text: Seq<char>) -> (Seq<Seq<char>>, Seq<char>)
    decreases text.len(),
{
    if text.len() == 0 {
        (Seq::empty(), Seq::empty())
    } else {
        let (done, cur) = word_split(text.drop_last());
        if is_space(text.last()) {
            if cur.len() == 0 {
                (done, cur)
            } else {
                (done.push(cur), Seq::empty())
            }
        } else {
            (done, cur.push(text.last()))
        }
    }
}

/// The words of `text`: its maximal runs of characters that are not white
/// space, in order.
pub open spec fn words(text: Seq<char>) -> Seq<Seq<char>> {
    let (done, cur) = word_split(text);
    if cur.len() == 0 {
        done
    } else {
        done.push(cur)
    }
}

/// Whether `c` is a lower-case vowel.
pub open spec fn is_vowel(c: char) -> bool {
    c == 'a' || c == 'e' || c == 'i' || c == 'o' || c == 'u'
}

/// The pig latin form of a word that is not empty.
pub open spec fn latin(w: Seq<char>) -> Seq<char> {
    if is_vowel(w[0]) {
        w + "-ay"@
    } else {
        w.drop_first() + "-"@ + seq![w[0]] + "ay"@
    }
}

/// The pig latin forms of `ws`, each followed by the one after it with a
/// space between.
pub open spec fn joined(ws: Seq<Seq<char>>) -> Seq<char>
    decreases ws.len(),
{
    if ws.len() == 0 {
        Seq::empty()
    } else if ws.len() == 1 {
        latin(ws[0])
    } else {
        joined(ws.drop_last()) + " "@ + latin(ws.last())
    }
}

/// The start and end positions of each word of `text`, in order.
fn word_spans(text: &Vec<char>) -> (r: Vec<(usize, usize)>)
    ensures
        r@.len() == words(text@).len(),
        forall|k: int|
            #![trigger r@[k]]
            0 <= k < r@.len() ==> {
                &&& r@[k].0 < r@[k].1 <= text@.len()
                &&& text@.subrange(r@[k].0 as int, r@[k].1 as int) == words(text@)[k]
            },
{
    let mut spans: Vec<(usize, usize)> = Vec::new();
    let mut start: usize = 0;
    let mut i: usize = 0;
    while i < text.len()
        invariant
            start <= i <= text@.len(),
            spans@.len() == word_split(text@.take(i as int)).0.len(),
            text@.subrange(start as int, i as int) == word_split(text@.take(i as int)).1,
            forall|k: int|
                #![trigger spans@[k]]
                0 <= k < spans@.len() ==> {
                    &&& spans@[k].0 < spans@[k].1 <= text@.len()
                    &&& text@.subrange(spans@[k].0 as int, spans@[k].1 as int) == word_split(
                        text@.take(i as int),
                    ).0[k]
                },
        decreases text@.len() - i,
    {
        let ghost before = text@.take(i as int);
        let ghost done = word_split(before).0;
        let ghost cur = word_split(before).1;
        let ghost prev = spans@;
        assert(text@.take(i + 1).drop_last() =~= before);
        assert(text@.take(i + 1).last() == text@[i as int]);
        if space(text[i]) {
            if start < i {
                assert(cur.len() > 0);
                assert(word_split(text@.take(i + 1)).0 == done.push(cur));
                spans.push((start, i));
                i += 1;
                start = i;
                assert(text@.subrange(start as int, i as int) =~= Seq::<char>::empty());
                assert forall|k: int| #![trigger spans@[k]] 0 <= k < spans@.len() implies {
                    &&& spans@[k].0 < spans@[k].1 <= text@.len()
                    &&& text@.subrange(spans@[k].0 as int, spans@[k].1 as int) == word_split(
                        text@.take(i as int),
                    ).0[k]
                } by {
                    if k < prev.len() {
                        assert(spans@[k] == prev[k]);
                        assert(text@.subrange(prev[k].0 as int, prev[k].1 as int) == done[k]);
                    }
                }
            } else {
                assert(cur.len() == 0);
                assert(word_split(text@.take(i + 1)) == (done, cur));
                i += 1;
                start = i;
                assert(text@.subrange(start as int, i as int) =~= Seq::<char>::empty());
                assert forall|k: int| #![trigger spans@[k]] 0 <= k < spans@.len() implies {
                    &&& spans@[k].0 < spans@[k].1 <= text@.len()
                    &&& text@.subrange(spans@[k].0 as int, spans@[k].1 as int) == word_split(
                        text@.take(i as int),
                    ).0[k]
                } by {
                    assert(text@.subrange(prev[k].0 as int, prev[k].1 as int) == done[k]);
                }
            }
        } else {
            assert(word_split(text@.take(i + 1)).0 == done);
            i += 1;
            assert(text@.subrange(start as int, i as int) =~= text@.subrange(
                start as int,
                i - 1,
            ).push(text@[i - 1]));
            assert forall|k: int| #![trigger spans@[k]] 0 <= k < spans@.len() implies {
                &&& spans@[k].0 < spans@[k].1 <= text@.len()
                &&& text@.subrange(spans@[k].0 as int, spans@[k].1 as int) == word_split(
                    text@.take(i as int),
                ).0[k]
            } by {
                assert(text@.subrange(prev[k].0 as int, prev[k].1 as int) == done[k]);
            }
        }
    }
    assert(text@.take(i as int) =~= text@);
    let ghost done = word_split(text@).0;
    let ghost cur = word_split(text@).1;
    let ghost prev = spans@;
    if start < text.len() {
        assert(words(text@) == done.push(cur));
        spans.push((start, text.len()));
        assert forall|k: int| #![trigger spans@[k]] 0 <= k < spans@.len() implies {
            &&& spans@[k].0 < spans@[k].1 <= text@.len()
            &&& text@.subrange(spans@[k].0 as int, spans@[k].1 as int) == words(text@)[k]
        } by {
            if k < prev.len() {
                assert(spans@[k] == prev[k]);
                assert(text@.subrange(prev[k].0 as int, prev[k].1 as int) == done[k]);
            }
        }
    } else {
        assert(words(text@) == done);
    }
    spans
}


/// Whether `c` is a lower-case vowel.
fn vowel(c: char) -> (r: bool)
    ensures
        r == is_vowel(c),
{
    c == 'a' || c == 'e' || c == 'i' || c == 'o' || c == 'u'
}

/// `sentence` in pig latin: the pig latin form of each of its words, in
/// order, with one space between them.
pub fn pig_latin(sentence: &str) -> (r: String)
    ensures
        r@ == joined(words(sentence@)),
{
    let text = chars_of(sentence);
    let spans = word_spans(&text);
    let ghost ws = words(sentence@);
    let mut out = String::new();
    for k in 0..spans.len()
        invariant
            text@ == sentence@,
            ws == words(sentence@),
            spans@.len() == ws.len(),
            forall|j: int|
                #![trigger spans@[j]]
                0 <= j < spans@.len() ==> {
                    &&& spans@[j].0 < spans@[j].1 <= text@.len()
                    &&& text@.subrange(spans@[j].0 as int, spans@[j].1 as int) == ws[j]
                },
            out@ == joined(ws.take(k as int)),
    {
        let (a, b) = spans[k];
        assert(spans@[k as int] == (a, b));
        let ghost w = ws[k as int];
        let ghost before = out@;
        assert(ws.take(k + 1).drop_last() =~= ws.take(k as int));
        assert(ws.take(k + 1).last() == w);
        assert(w[0] == text@[a as int]);
        if k > 0 {
            out.append(" ");
        }
        let ghost spaced = out@;
        if vowel(text[a]) {
            let word = sentence.substring_char(a, b);
            out.append(word);
            out.append("-ay");
            assert(out@ =~= spaced + latin(w));
        } else {
            let first = sentence.substring_char(a, a + 1);
            let rest = sentence.substring_char(a + 1, b);
            assert(rest@ =~= w.drop_first());
            assert(first@ =~= seq![w[0]]);
            out.append(rest);
            out.append("-");
            out.append(first);
            out.append("ay");
            assert(out@ =~= spaced + latin(w));
        }
        if k == 0 {
            assert(ws.take(1).len() == 1);
            assert(before =~= Seq::<char>::empty());
            assert(out@ =~= latin(w));
        }
    }
    assert(ws.take(spans@.len() as int) =~= ws);
    out
}

} // verus!
