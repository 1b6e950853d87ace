//! Line-oriented literal search over a text body.
use vstd::prelude::*;

verus! {

/// Splits `text` at each '\n': the lines completed by a separator, and the
/// characters read since the last separator.
pub open spec fn line_split(text: Seq<char>) -> (Seq<Seq<char>>, Seq<char>)
    decreases text.len(),
{
    if text.len() == 0 {
        (Seq::empty(), Seq::empty())
    } else {
        let (done, cur) = line_split(text.drop_last());
        if text.last() == '\n' {
            (done.push(cur), Seq::empty())
        } else {
            (done, cur.push(text.last()))
        }
    }
}

/// The lines of `text`: the pieces between '\n' separators. A final separator
/// ends the last line and starts no empty one; an empty text has no lines.
/// Only '\n' separates: in text with "\r\n" endings, the '\r' stays at the
/// end of its line.
pub open spec fn lines(text: Seq<char>) -> Seq<Seq<char>> {
    let (done, cur) = line_split(text);
    if cur.len() == 0 {
        done
    } else {
        done.push(cur)
    }
}

/// Whether `needle` occurs in `hay` as a contiguous run of characters.
pub open spec fn has_substring(hay: Seq<char>, needle: Seq<char>) -> bool {
    exists|i: int|
        0 <= i && i + needle.len() <= hay.len() && #[trigger] hay.subrange(i, i + needle.len())
            == needle
}

/// What the lower-casing of `s` gives (Unicode, locale-independent).
pub uninterp spec fn lower_of(s: Seq<char>) -> Seq<char>;

/// Whether `line` matches `query` under the given case policy.
pub open spec fn line_matches(query: Seq<char>, line: Seq<char>, case_sensitive: bool) -> bool {
    if case_sensitive {
        has_substring(line, query)
    } else {
        has_substring(lower_of(line), lower_of(query))
    }
}

/// The test that a line must pass to be found.
pub open spec fn matcher(query: Seq<char>, case_sensitive: bool) -> spec_fn(Seq<char>) -> bool {
    |l: Seq<char>| line_matches(query, l, case_sensitive)
}

/// The lines of `body` that match `query`, in the order they stand in `body`.
pub open spec fn found(query: Seq<char>, body: Seq<char>, case_sensitive: bool) -> Seq<Seq<char>> {
    lines(body).filter(matcher(query, case_sensitive))
}

/// The characters of each slice.
pub open spec fn views(s: Seq<&str>) -> Seq<Seq<char>> {
    s.map_values(|x: &str| x@)
}

/// Relies on str::to_lowercase: the lower-cased copy depends on the
/// characters of `s` alone.
#[verifier::external_body]
fn lowercase(s: &str) -> (r: String)
    ensures
        r@ == lower_of(s@),
{
    s.to_lowercase()
}

/// The characters of `s`, in order.
pub(crate) fn chars_of(s: &str) -> (r: Vec<char>)
    ensures
        r@ == s@,
{
    let mut v: Vec<char> = Vec::new();
    for c in it: s.chars()
        invariant
            v@ == it.seq().take(it.index() as int),
    {
        v.push(c);
    }
    v
}

/// Whether `needle` occurs in `hay` starting at position `at`.
fn occurs_at(hay: &Vec<char>, at: usize, needle: &Vec<char>) -> (r: bool)
    requires
        at + needle@.len() <= hay@.len(),
    ensures
        r == (hay@.subrange(at as int, at + needle@.len()) == needle@),
{
    let n = hay.len();
    let mut k: usize = 0;
    while k < needle.len()
        invariant
            k <= needle@.len(),
            n == hay@.len(),
            at + needle@.len() <= n,
            forall|j: int| 0 <= j < k ==> hay@[at + j] == needle@[j],
        decreases needle@.len() - k,
    {
        if hay[at + k] != needle[k] {
            assert(hay@.subrange(at as int, at + needle@.len())[k as int] != needle@[k as int]);
            return false;
        }
        k += 1;
    }
    assert(hay@.subrange(at as int, at + needle@.len()) =~= needle@);
    true
}

/// Whether `needle` occurs in the part `lo..hi` of `hay`.
fn occurs_within(hay: &Vec<char>, lo: usize, hi: usize, needle: &Vec<char>) -> (r: bool)
    requires
        lo <= hi <= hay@.len(),
    ensures
        r == has_substring(hay@.subrange(lo as int, hi as int), needle@),
{
    let ghost part = hay@.subrange(lo as int, hi as int);
    if needle.len() > hi - lo {
        return false;
    }
    let last = hi - needle.len();
    let mut i: usize = lo;
    loop
        invariant
            lo <= i <= last,
            last + needle@.len() == hi,
            hi <= hay@.len(),
            part == hay@.subrange(lo as int, hi as int),
            forall|j: int|
                0 <= j < i - lo ==> #[trigger] part.subrange(j, j + needle@.len()) != needle@,
        decreases last - i,
    {
        assert(part.subrange(i - lo, i - lo + needle@.len()) =~= hay@.subrange(
            i as int,
            i + needle@.len(),
        ));
        if occurs_at(hay, i, needle) {
            return true;
        }
        if i == last {
            return false;
        }
        i += 1;
    }
}

/// Whether `query` occurs in `line` as a contiguous run of characters.
pub fn contains(line: &str, query: &str) -> (r: bool)
    ensures
        r == has_substring(line@, query@),
{
    let hay = chars_of(line);
    let needle = chars_of(query);
    assert(hay@.subrange(0, hay@.len() as int) =~= hay@);
    occurs_within(&hay, 0, hay.len(), &needle)
}

/// The start and end positions of each line of `text`, in order.
fn line_spans(text: &Vec<char>) -> (r: Vec<(usize, usize)>)
    ensures
        r@.len() == lines(text@).len(),
        forall|k: int|
            #![trigger r@[k]]
            0 <= k < r@.len() ==> {
                &&& r@[k].0 <= r@[k].1 <= text@.len()
                &&& text@.subrange(r@[k].0 as int, r@[k].1 as int) == lines(text@)[k]
            },
{
    let mut spans: Vec<(usize, usize)> = Vec::new();
    let mut start: usize = 0;
    let mut i: usize = 0;
    while i < text.len()
        invariant
            start <= i <= text@.len(),
            spans@.len() == line_split(text@.take(i as int)).0.len(),
            text@.subrange(start as int, i as int) == line_split(text@.take(i as int)).1,
            forall|k: int|
                #![trigger spans@[k]]
                0 <= k < spans@.len() ==> {
                    &&& spans@[k].0 <= spans@[k].1 <= text@.len()
                    &&& text@.subrange(spans@[k].0 as int, spans@[k].1 as int)
                        == line_split(text@.take(i as int)).0[k]
                },
        decreases text@.len() - i,
    {
        let ghost before = text@.take(i as int);
        let ghost done = line_split(before).0;
        let ghost cur = line_split(before).1;
        let ghost prev = spans@;
        assert(text@.take(i + 1).drop_last() =~= before);
        assert(text@.take(i + 1).last() == text@[i as int]);
        if text[i] == '\n' {
            assert(line_split(text@.take(i + 1)).0 == done.push(cur));
            spans.push((start, i));
            i += 1;
            start = i;
            assert(text@.subrange(start as int, i as int) =~= Seq::<char>::empty());
            assert forall|k: int| #![trigger spans@[k]] 0 <= k < spans@.len() implies {
                &&& spans@[k].0 <= spans@[k].1 <= text@.len()
                &&& text@.subrange(spans@[k].0 as int, spans@[k].1 as int)
                    == line_split(text@.take(i as int)).0[k]
            } by {
                if k < prev.len() {
                    assert(spans@[k] == prev[k]);
                    assert(text@.subrange(prev[k].0 as int, prev[k].1 as int) == done[k]);
                }
            }
        } else {
            assert(line_split(text@.take(i + 1)).0 == done);
            i += 1;
            assert(text@.subrange(start as int, i as int) =~= text@.subrange(
                start as int,
                i - 1,
            ).push(text@[i - 1]));
            assert forall|k: int| #![trigger spans@[k]] 0 <= k < spans@.len() implies {
                &&& spans@[k].0 <= spans@[k].1 <= text@.len()
                &&& text@.subrange(spans@[k].0 as int, spans@[k].1 as int)
                    == line_split(text@.take(i as int)).0[k]
            } by {
                assert(text@.subrange(prev[k].0 as int, prev[k].1 as int) == done[k]);
            }
        }
    }
    assert(text@.take(i as int) =~= text@);
    let ghost done = line_split(text@).0;
    let ghost cur = line_split(text@).1;
    let ghost prev = spans@;
    if start < text.len() {
        assert(lines(text@) == done.push(cur));
        spans.push((start, text.len()));
        assert forall|k: int| #![trigger spans@[k]] 0 <= k < spans@.len() implies {
            &&& spans@[k].0 <= spans@[k].1 <= text@.len()
            &&& text@.subrange(spans@[k].0 as int, spans@[k].1 as int)
                == lines(text@)[k]
        } by {
            if k < prev.len() {
                assert(spans@[k] == prev[k]);
                assert(text@.subrange(prev[k].0 as int, prev[k].1 as int) == done[k]);
            }
        }
    } else {
        assert(lines(text@) == done);
    }
    spans
}


/// The lines of `contents` that contain `query` exactly, in the order they
/// stand in `contents`. Each result is a slice of `contents`.
pub fn search<'a>(query: &str, contents: &'a str) -> (r: Vec<&'a str>)
    ensures
        views(r@) == found(query@, contents@, true),
{
    let text = chars_of(contents);
    let needle = chars_of(query);
    let spans = line_spans(&text);
    let ghost all = lines(contents@);
    let ghost keep = matcher(query@, true);
    let mut out: Vec<&'a str> = Vec::new();
    let mut k: usize = 0;
    while k < spans.len()
        invariant
            k <= spans@.len(),
            text@ == contents@,
            needle@ == query@,
            all == lines(contents@),
            keep == matcher(query@, true),
            spans@.len() == all.len(),
            forall|j: int|
                #![trigger spans@[j]]
                0 <= j < spans@.len() ==> {
                    &&& spans@[j].0 <= spans@[j].1 <= text@.len()
                    &&& text@.subrange(spans@[j].0 as int, spans@[j].1 as int) == all[j]
                },
            views(out@) == all.take(k as int).filter(keep),
        decreases spans@.len() - k,
    {
        let (lo, hi) = spans[k];
        assert(all.take(k + 1).drop_last() =~= all.take(k as int));
        assert(all.take(k + 1).last() == all[k as int]);
        proof {
            reveal(Seq::filter);
        }
        assert(spans@[k as int] == (lo, hi));
        if occurs_within(&text, lo, hi, &needle) {
            let line = contents.substring_char(lo, hi);
            let ghost prev = out@;
            out.push(line);
            assert(views(out@) =~= views(prev).push(line@));
        }
        k += 1;
    }
    assert(all.take(k as int) =~= all);
    out
}

/// The lines of `contents` that contain `query` once both are lower-cased, in
/// the order they stand in `contents`. Each result is the line as it stands,
/// not its lower-cased copy: a slice of `contents`.
pub fn search_case_insensitive<'a>(query: &str, contents: &'a str) -> (r: Vec<&'a str>)
    ensures
        views(r@) == found(query@, contents@, false),
{
    let folded_query = lowercase(query);
    let text = chars_of(contents);
    let spans = line_spans(&text);
    let ghost all = lines(contents@);
    let ghost keep = matcher(query@, false);
    let mut out: Vec<&'a str> = Vec::new();
    let mut k: usize = 0;
    while k < spans.len()
        invariant
            k <= spans@.len(),
            text@ == contents@,
            folded_query@ == lower_of(query@),
            all == lines(contents@),
            keep == matcher(query@, false),
            spans@.len() == all.len(),
            forall|j: int|
                #![trigger spans@[j]]
                0 <= j < spans@.len() ==> {
                    &&& spans@[j].0 <= spans@[j].1 <= text@.len()
                    &&& text@.subrange(spans@[j].0 as int, spans@[j].1 as int) == all[j]
                },
            views(out@) == all.take(k as int).filter(keep),
        decreases spans@.len() - k,
    {
        let (lo, hi) = spans[k];
        assert(all.take(k + 1).drop_last() =~= all.take(k as int));
        assert(all.take(k + 1).last() == all[k as int]);
        proof {
            reveal(Seq::filter);
        }
        assert(spans@[k as int] == (lo, hi));
        let line = contents.substring_char(lo, hi);
        let folded_line = lowercase(line);
        if contains(folded_line.as_str(), folded_query.as_str()) {
            let ghost prev = out@;
            out.push(line);
            assert(views(out@) =~= views(prev).push(line@));
        }
        k += 1;
    }
    assert(all.take(k as int) =~= all);
    out
}

/// The lines of `contents` that match `query` under the given case policy.
pub fn search_lines<'a>(query: &str, contents: &'a str, case_sensitive: bool) -> (r: Vec<&'a str>)
    ensures
        views(r@) == found(query@, contents@, case_sensitive),
{
    if case_sensitive {
        search(query, contents)
    } else {
        search_case_insensitive(query, contents)
    }
}


/// Filtering with a test that holds of every item keeps the whole sequence.
proof fn filter_keeps_all(s: Seq<Seq<char>>, keep: spec_fn(Seq<char>) -> bool)
    requires
        forall|i: int| 0 <= i < s.len() ==> keep(#[trigger] s[i]),
    ensures
        s.filter(keep) == s,
    decreases s.len(),
{
    reveal(Seq::filter);
    if s.len() > 0 {
        assert forall|i: int| 0 <= i < s.drop_last().len() implies keep(#[trigger] s.drop_last()[i]) by {
            assert(s.drop_last()[i] == s[i]);
        }
        filter_keeps_all(s.drop_last(), keep);
        assert(s.drop_last().push(s.last()) =~= s);
    }
}

/// A test that holds wherever a narrower one does keeps at least as many items.
proof fn filter_len_grows(s: Seq<Seq<char>>, narrow: spec_fn(Seq<char>) -> bool, wide: spec_fn(Seq<char>) -> bool)
    requires
        forall|i: int| 0 <= i < s.len() && narrow(#[trigger] s[i]) ==> wide(s[i]),
    ensures
        s.filter(narrow).len() <= s.filter(wide).len(),
    decreases s.len(),
{
    reveal(Seq::filter);
    if s.len() > 0 {
        assert forall|i: int| 0 <= i < s.drop_last().len() && narrow(#[trigger] s.drop_last()[i]) implies wide(s.drop_last()[i]) by {
            assert(s.drop_last()[i] == s[i]);
        }
        filter_len_grows(s.drop_last(), narrow, wide);
    }
}

/// Where a wider test holds wherever a narrower one does, filtering by the
/// narrow test picks the same items, in the same order, as filtering first by
/// the wide test and then by the narrow one.
proof fn filter_within_wider(s: Seq<Seq<char>>, narrow: spec_fn(Seq<char>) -> bool, wide: spec_fn(Seq<char>) -> bool)
    requires
        forall|i: int| 0 <= i < s.len() && narrow(#[trigger] s[i]) ==> wide(s[i]),
    ensures
        s.filter(narrow) == s.filter(wide).filter(narrow),
    decreases s.len(),
{
    reveal(Seq::filter);
    if s.len() > 0 {
        assert forall|i: int| 0 <= i < s.drop_last().len() && narrow(#[trigger] s.drop_last()[i]) implies wide(s.drop_last()[i]) by {
            assert(s.drop_last()[i] == s[i]);
        }
        filter_within_wider(s.drop_last(), narrow, wide);
        let inner = s.drop_last().filter(wide);
        if wide(s.last()) {
            assert(inner.push(s.last()).drop_last() =~= inner);
        }
    }
}

/// A case-sensitive search finds exactly the lines of `body` that contain
/// `query`: each line found contains it, each line that contains it is found,
/// and the lines found keep the order of `body`.
pub proof fn exact_search_finds_exactly_the_containing_lines(query: Seq<char>, body: Seq<char>)
    ensures
        found(query, body, true) == lines(body).filter(|l: Seq<char>| has_substring(l, query)),
        forall|i: int|
            0 <= i < found(query, body, true).len() ==> has_substring(
                #[trigger] found(query, body, true)[i],
                query,
            ),
        forall|j: int|
            0 <= j < lines(body).len() && has_substring(#[trigger] lines(body)[j], query)
                ==> found(query, body, true).contains(lines(body)[j]),
{
    broadcast use Seq::lemma_filter_pred, Seq::lemma_filter_contains;

    let keep = matcher(query, true);
    assert(keep =~= (|l: Seq<char>| has_substring(l, query)));
    assert forall|i: int| 0 <= i < found(query, body, true).len() implies has_substring(
        #[trigger] found(query, body, true)[i],
        query,
    ) by {
        lines(body).lemma_filter_pred(keep, i);
    }
    assert forall|j: int|
        0 <= j < lines(body).len() && has_substring(#[trigger] lines(body)[j], query)
            implies found(query, body, true).contains(lines(body)[j]) by {
        lines(body).lemma_filter_contains(keep, j);
    }
}

/// Where every line of `body` that contains `query` still contains it once
/// both are lower-cased, a case-insensitive search finds every line that a
/// case-sensitive one finds, in the same order, and so at least as many lines.
pub proof fn folded_search_finds_at_least_as_many(query: Seq<char>, body: Seq<char>)
    requires
        forall|j: int|
            0 <= j < lines(body).len() && has_substring(#[trigger] lines(body)[j], query)
                ==> has_substring(lower_of(lines(body)[j]), lower_of(query)),
    ensures
        found(query, body, true) == found(query, body, false).filter(matcher(query, true)),
        found(query, body, true).len() <= found(query, body, false).len(),
{
    filter_within_wider(lines(body), matcher(query, true), matcher(query, false));
    filter_len_grows(lines(body), matcher(query, true), matcher(query, false));
}

/// Two searches with the same arguments find the same lines in the same order.
pub proof fn search_is_repeatable(
    query: Seq<char>,
    body: Seq<char>,
    case_sensitive: bool,
    first: Seq<&str>,
    second: Seq<&str>,
)
    requires
        views(first) == found(query, body, case_sensitive),
        views(second) == found(query, body, case_sensitive),
    ensures
        views(first) == views(second),
{
}

/// The empty query is found in every line, so searching for it gives back
/// every line of `body`, empty ones included.
pub proof fn empty_query_finds_every_line(body: Seq<char>)
    ensures
        found(Seq::empty(), body, true) == lines(body),
{
    let keep = matcher(Seq::empty(), true);
    assert forall|i: int| 0 <= i < lines(body).len() implies keep(#[trigger] lines(body)[i]) by {
        let l = lines(body)[i];
        let e = Seq::<char>::empty();
        assert(l.subrange(0, 0 + e.len() as int) =~= e);
        assert(has_substring(l, e));
    }
    filter_keeps_all(lines(body), keep);
}

/// An empty body has no lines, so a search in it finds nothing.
pub proof fn empty_body_finds_nothing(query: Seq<char>, case_sensitive: bool)
    ensures
        found(query, Seq::empty(), case_sensitive) == Seq::<Seq<char>>::empty(),
{
    reveal(Seq::filter);
    assert(lines(Seq::<char>::empty()) =~= Seq::<Seq<char>>::empty());
}

} // verus!
