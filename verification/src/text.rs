//! Character-level text utilities shared by the script builders and the
//! output readers: conversion between `&str`, `String` and character
//! sequences, whitespace trimming, splitting and line reading.
use vstd::prelude::*;
use vstd::string::*;

verus! {

broadcast use vstd::string::group_string_axioms;

/// Unicode `White_Space` (PropList.txt), the property that
/// `char::is_whitespace` and `str::trim` go by: tab, line feed, vertical
/// tab, form feed, carriage return, space, next line, no-break space, ogham
/// space mark, the spaces U+2000 to U+200A, line and paragraph separators,
/// narrow no-break space, medium mathematical space and ideographic space.
pub open spec fn white_space(c: char) -> bool {
    ||| '\u{9}' <= c <= '\u{d}'
    ||| c == ' '
    ||| c == '\u{85}'
    ||| c == '\u{a0}'
    ||| c == '\u{1680}'
    ||| '\u{2000}' <= c <= '\u{200a}'
    ||| c == '\u{2028}'
    ||| c == '\u{2029}'
    ||| c == '\u{202f}'
    ||| c == '\u{205f}'
    ||| c == '\u{3000}'
}

/// Whether `c` is white space.
pub fn is_whitespace(c: char) -> (b: bool)
    ensures
        b == white_space(c),
{
    ('\u{9}' <= c && c <= '\u{d}') || c == ' ' || c == '\u{85}' || c == '\u{a0}' || c == '\u{1680}'
        || ('\u{2000}' <= c && c <= '\u{200a}') || c == '\u{2028}' || c == '\u{2029}' || c
        == '\u{202f}' || c == '\u{205f}' || c == '\u{3000}'
}

/// `String::push`: appends one character. The contract claims that the
/// string's text grows by exactly `c` at the end.
#[verifier::external_body]
pub(crate) fn push_char(s: &mut String, c: char)
    ensures
        final(s)@ == old(s)@.push(c),
{
    s.push(c)
}

/// The abstract text of each string of a sequence.
pub open spec fn views(v: Seq<String>) -> Seq<Seq<char>> {
    v.map_values(|s: String| s@)
}

/// Every character of `s` is white space (so `s.trim()` is empty).
pub open spec fn is_blank(s: Seq<char>) -> bool {
    forall|i: int| 0 <= i < s.len() ==> white_space(#[trigger] s[i])
}

/// `s` does not contain `c`.
pub open spec fn lacks(s: Seq<char>, c: char) -> bool {
    forall|i: int| 0 <= i < s.len() ==> #[trigger] s[i] != c
}

/// Index of the first `c` in `s`, or `s.len()` where there is none.
pub open spec fn find_char(s: Seq<char>, c: char) -> nat
    decreases s.len(),
{
    if s.len() == 0 {
        0
    } else if s[0] == c {
        0
    } else {
        1 + find_char(s.drop_first(), c)
    }
}

/// `s` with leading white space removed (`str::trim_start`).
pub open spec fn trim_start(s: Seq<char>) -> Seq<char>
    decreases s.len(),
{
    if s.len() > 0 && white_space(s[0]) {
        trim_start(s.drop_first())
    } else {
        s
    }
}

/// `s` with trailing white space removed (`str::trim_end`).
pub open spec fn trim_end(s: Seq<char>) -> Seq<char>
    decreases s.len(),
{
    if s.len() > 0 && white_space(s.last()) {
        trim_end(s.drop_last())
    } else {
        s
    }
}

/// `s` with white space removed at both ends (`str::trim`).
pub open spec fn trim(s: Seq<char>) -> Seq<char> {
    trim_end(trim_start(s))
}

/// The pieces of `s` between occurrences of `sep` (`str::split` with a
/// character pattern): one more piece than there are separators.
pub open spec fn split_on(s: Seq<char>, sep: char) -> Seq<Seq<char>>
    decreases s.len(),
{
    let i = find_char(s, sep) as int;
    if i >= s.len() {
        seq![s]
    } else {
        seq![s.take(i)] + split_on(s.skip(i + 1), sep)
    }
}

/// `line` without one trailing carriage return.
pub open spec fn strip_cr(line: Seq<char>) -> Seq<char> {
    if line.len() > 0 && line.last() == '\r' {
        line.drop_last()
    } else {
        line
    }
}

/// The lines of `s` as `str::lines` yields them: split at each `'\n'`, a
/// `'\r'` before the `'\n'` dropped, and no empty last line after a final
/// `'\n'`.
pub open spec fn lines_of(s: Seq<char>) -> Seq<Seq<char>>
    decreases s.len(),
{
    if s.len() == 0 {
        seq![]
    } else {
        let i = find_char(s, '\n') as int;
        if i >= s.len() {
            seq![s]
        } else {
            seq![strip_cr(s.take(i))] + lines_of(s.skip(i + 1))
        }
    }
}

/// The lines of `s` that hold something other than white space.
pub open spec fn nonblank_lines(s: Seq<char>) -> Seq<Seq<char>> {
    lines_of(s).filter(not_blank())
}

/// The test that keeps a line in `nonblank_lines`.
pub open spec fn not_blank() -> spec_fn(Seq<char>) -> bool {
    |l: Seq<char>| !is_blank(l)
}

pub proof fn lemma_find_char_bound(s: Seq<char>, c: char)
    ensures
        find_char(s, c) <= s.len(),
        find_char(s, c) < s.len() ==> s[find_char(s, c) as int] == c,
        lacks(s.take(find_char(s, c) as int), c),
    decreases s.len(),
{
    if s.len() > 0 && s[0] != c {
        lemma_find_char_bound(s.drop_first(), c);
        let k: int = find_char(s.drop_first(), c) as int;
        assert forall|j: int| 0 <= j < k + 1 implies #[trigger] s.take(k + 1)[j] != c by {
            if j > 0 {
                assert(s.take(k + 1)[j] == s.drop_first().take(k)[j - 1]);
            }
        }
    }
}

/// The first `c` in `s` is at `k` when none comes before and `k` holds one
/// (or is the end).
pub proof fn lemma_find_char_at(s: Seq<char>, c: char, k: int)
    requires
        0 <= k <= s.len(),
        forall|j: int| 0 <= j < k ==> s[j] != c,
        k == s.len() || s[k] == c,
    ensures
        find_char(s, c) == k,
    decreases k,
{
    if k > 0 {
        lemma_find_char_at(s.drop_first(), c, k - 1);
    }
}

/// Leading white space of `s` ends at `a`.
pub proof fn lemma_trim_start_at(s: Seq<char>, a: int)
    requires
        0 <= a <= s.len(),
        forall|j: int| 0 <= j < a ==> white_space(s[j]),
        a == s.len() || !white_space(s[a]),
    ensures
        trim_start(s) == s.skip(a),
    decreases a,
{
    if a == 0 {
        assert(s.skip(0) =~= s);
    } else {
        lemma_trim_start_at(s.drop_first(), a - 1);
        assert(s.drop_first().skip(a - 1) =~= s.skip(a));
    }
}

/// Trailing white space of `s` begins at `b`.
pub proof fn lemma_trim_end_at(s: Seq<char>, b: int)
    requires
        0 <= b <= s.len(),
        forall|j: int| b <= j < s.len() ==> white_space(s[j]),
        b == 0 || !white_space(s[b - 1]),
    ensures
        trim_end(s) == s.take(b),
    decreases s.len() - b,
{
    if b == s.len() {
        assert(s.take(b) =~= s);
    } else {
        lemma_trim_end_at(s.drop_last(), b);
        assert(s.drop_last().take(b) =~= s.take(b));
    }
}

/// The characters of `s`, in order.
pub fn chars_of(s: &str) -> (out: Vec<char>)
    ensures
        out@ == s@,
{
    let mut out: Vec<char> = Vec::new();
    for c in it: s.chars()
        invariant
            it.seq() == s@,
            out@ == it.seq().take(it.index() as int),
    {
        out.push(c);
    }
    out
}

/// A `String` holding `cs[lo..hi]`.
pub fn string_of_range(cs: &Vec<char>, lo: usize, hi: usize) -> (out: String)
    requires
        lo <= hi <= cs.len(),
    ensures
        out@ == cs@.subrange(lo as int, hi as int),
{
    let mut out = String::new();
    let mut i: usize = lo;
    while i < hi
        invariant
            lo <= i <= hi <= cs.len(),
            out@ == cs@.subrange(lo as int, i as int),
        decreases hi - i,
    {
        push_char(&mut out, cs[i]);
        assert(cs@.subrange(lo as int, i + 1) =~= cs@.subrange(lo as int, i as int).push(cs@[i as int]));
        i = i + 1;
    }
    out
}

/// A `String` holding exactly the characters of `cs`.
pub fn string_of(cs: &Vec<char>) -> (out: String)
    ensures
        out@ == cs@,
{
    let out = string_of_range(cs, 0, cs.len());
    assert(cs@.subrange(0, cs@.len() as int) =~= cs@);
    out
}

/// A new `String` equal to `s`.
pub fn string_from(s: &str) -> (out: String)
    ensures
        out@ == s@,
{
    let mut out = String::new();
    out.append(s);
    out
}

/// `cs[lo..hi]` as a new vector.
pub fn slice_chars(cs: &Vec<char>, lo: usize, hi: usize) -> (out: Vec<char>)
    requires
        lo <= hi <= cs.len(),
    ensures
        out@ == cs@.subrange(lo as int, hi as int),
{
    let mut out: Vec<char> = Vec::new();
    let mut i: usize = lo;
    while i < hi
        invariant
            lo <= i <= hi <= cs.len(),
            out@ == cs@.subrange(lo as int, i as int),
        decreases hi - i,
    {
        out.push(cs[i]);
        assert(cs@.subrange(lo as int, i + 1) =~= cs@.subrange(lo as int, i as int).push(cs@[i as int]));
        i = i + 1;
    }
    out
}

/// Index of the first `c` in `cs[from..]`, or `cs.len()`.
pub fn find_from(cs: &Vec<char>, from: usize, c: char) -> (k: usize)
    requires
        from <= cs.len(),
    ensures
        from <= k <= cs.len(),
        k == from + find_char(cs@.skip(from as int), c),
        forall|j: int| from <= j < k ==> cs@[j] != c,
        k < cs.len() ==> cs@[k as int] == c,
{
    let mut k: usize = from;
    while k < cs.len() && cs[k] != c
        invariant
            from <= k <= cs.len(),
            forall|j: int| from <= j < k ==> cs@[j] != c,
        decreases cs.len() - k,
    {
        k = k + 1;
    }
    proof {
        lemma_find_char_at(cs@.skip(from as int), c, k - from);
    }
    k
}

/// Index of the first `c` in `cs[from..to]`, or `to`.
pub fn find_between(cs: &Vec<char>, from: usize, to: usize, c: char) -> (k: usize)
    requires
        from <= to <= cs.len(),
    ensures
        from <= k <= to,
        k == from + find_char(cs@.subrange(from as int, to as int), c),
        forall|j: int| from <= j < k ==> cs@[j] != c,
        k < to ==> cs@[k as int] == c,
{
    let mut k: usize = from;
    while k < to && cs[k] != c
        invariant
            from <= k <= to <= cs.len(),
            forall|j: int| from <= j < k ==> cs@[j] != c,
        decreases to - k,
    {
        k = k + 1;
    }
    proof {
        lemma_find_char_at(cs@.subrange(from as int, to as int), c, k - from);
    }
    k
}

/// The abstract text of each vector of characters of a sequence.
pub open spec fn char_views(v: Seq<Vec<char>>) -> Seq<Seq<char>> {
    v.map_values(|x: Vec<char>| x@)
}

/// The pieces of `cs[lo..hi]` between occurrences of `sep`.
pub fn split_chars(cs: &Vec<char>, lo: usize, hi: usize, sep: char) -> (pieces: Vec<Vec<char>>)
    requires
        lo <= hi <= cs.len(),
    ensures
        char_views(pieces@) == split_on(cs@.subrange(lo as int, hi as int), sep),
        pieces.len() >= 1,
{
    let mut out: Vec<Vec<char>> = Vec::new();
    let mut start: usize = lo;
    loop
        invariant
            lo <= start <= hi <= cs.len(),
            split_on(cs@.subrange(lo as int, hi as int), sep) == char_views(out@) + split_on(
                cs@.subrange(start as int, hi as int),
                sep,
            ),
        decreases hi - start,
    {
        let ghost t = cs@.subrange(start as int, hi as int);
        let k = find_between(cs, start, hi, sep);
        let piece = slice_chars(cs, start, k);
        let ghost old_out = char_views(out@);
        out.push(piece);
        assert(char_views(out@) =~= old_out.push(piece@));
        if k < hi {
            assert(t.take(k - start) =~= piece@);
            assert(t.skip(k - start + 1) =~= cs@.subrange(k + 1, hi as int));
            assert(old_out.push(piece@) + split_on(cs@.subrange(k + 1, hi as int), sep) =~= old_out + (
            seq![piece@] + split_on(cs@.subrange(k + 1, hi as int), sep)));
            start = k + 1;
        } else {
            assert(t =~= piece@);
            assert(old_out.push(piece@) =~= old_out + seq![piece@]);
            return out;
        }
    }
}

/// The pair `(a, b)` with `cs[a..b] == trim(cs[lo..hi])`.
pub fn trim_bounds(cs: &Vec<char>, lo: usize, hi: usize) -> (r: (usize, usize))
    requires
        lo <= hi <= cs.len(),
    ensures
        lo <= r.0 <= r.1 <= hi,
        cs@.subrange(r.0 as int, r.1 as int) == trim(cs@.subrange(lo as int, hi as int)),
        cs@.subrange(r.0 as int, hi as int) == trim_start(cs@.subrange(lo as int, hi as int)),
{
    let ghost s = cs@.subrange(lo as int, hi as int);
    let mut a: usize = lo;
    while a < hi && is_whitespace(cs[a])
        invariant
            lo <= a <= hi <= cs.len(),
            forall|j: int| lo <= j < a ==> white_space(cs@[j]),
        decreases hi - a,
    {
        a = a + 1;
    }
    proof {
        lemma_trim_start_at(s, a - lo);
        assert(s.skip(a - lo) =~= cs@.subrange(a as int, hi as int));
    }
    let mut b: usize = hi;
    while b > a && is_whitespace(cs[b - 1])
        invariant
            lo <= a <= b <= hi <= cs.len(),
            forall|j: int| b <= j < hi ==> white_space(cs@[j]),
        decreases b - a,
    {
        b = b - 1;
    }
    proof {
        let t = cs@.subrange(a as int, hi as int);
        lemma_trim_end_at(t, b - a);
        assert(t.take(b - a) =~= cs@.subrange(a as int, b as int));
    }
    (a, b)
}

/// Whether `cs[lo..hi]` is all white space.
pub fn blank_range(cs: &Vec<char>, lo: usize, hi: usize) -> (b: bool)
    requires
        lo <= hi <= cs.len(),
    ensures
        b == is_blank(cs@.subrange(lo as int, hi as int)),
{
    let mut i: usize = lo;
    while i < hi
        invariant
            lo <= i <= hi <= cs.len(),
            forall|j: int| lo <= j < i ==> white_space(cs@[j]),
        decreases hi - i,
    {
        if !is_whitespace(cs[i]) {
            assert(!white_space(cs@.subrange(lo as int, hi as int)[i - lo]));
            return false;
        }
        i = i + 1;
    }
    assert forall|j: int| 0 <= j < hi - lo implies white_space(
        #[trigger] cs@.subrange(lo as int, hi as int)[j],
    ) by {
        assert(cs@.subrange(lo as int, hi as int)[j] == cs@[lo + j]);
    }
    true
}

/// Whether `s` starts with `prefix`.
pub open spec fn starts_with(s: Seq<char>, prefix: Seq<char>) -> bool {
    prefix.len() <= s.len() && s.take(prefix.len() as int) == prefix
}

/// Whether `cs[at..]` starts with `prefix`.
pub fn starts_with_at(cs: &Vec<char>, at: usize, prefix: &str) -> (b: bool)
    requires
        at <= cs.len(),
    ensures
        b == starts_with(cs@.skip(at as int), prefix@),
{
    let p = chars_of(prefix);
    if p.len() > cs.len() - at {
        return false;
    }
    let mut i: usize = 0;
    while i < p.len()
        invariant
            at <= cs.len(),
            p@ == prefix@,
            p.len() <= cs.len() - at,
            0 <= i <= p.len(),
            forall|j: int| 0 <= j < i ==> cs@[at + j] == p@[j],
        decreases p.len() - i,
    {
        if cs[at + i] != p[i] {
            assert(cs@.skip(at as int).take(p.len() as int)[i as int] != p@[i as int]);
            return false;
        }
        i = i + 1;
    }
    assert(cs@.skip(at as int).take(p.len() as int) =~= p@);
    true
}

/// The lines of `s` (`str::lines`).
pub fn split_lines(s: &str) -> (lines: Vec<Vec<char>>)
    ensures
        char_views(lines@) == lines_of(s@),
{
    let cs = chars_of(s);
    let n: usize = cs.len();
    let mut out: Vec<Vec<char>> = Vec::new();
    let mut start: usize = 0;
    assert(cs@.skip(0) =~= cs@);
    while start < n
        invariant
            cs@ == s@,
            n == cs.len(),
            start <= n,
            lines_of(s@) == char_views(out@) + lines_of(cs@.skip(start as int)),
        decreases n - start,
    {
        let end: usize = find_from(&cs, start, '\n');
        let ghost t = cs@.skip(start as int);
        let ghost i: int = find_char(t, '\n') as int;
        let mut stop: usize = end;
        if end < n && stop > start && cs[stop - 1] == '\r' {
            stop = stop - 1;
        }
        let line = slice_chars(&cs, start, stop);
        let next: usize = if end < n { end + 1 } else { n };
        proof {
            assert(t.take(i) =~= cs@.subrange(start as int, end as int));
            if end < n {
                assert(t.skip(i + 1) =~= cs@.skip(end + 1));
                assert(line@ =~= strip_cr(cs@.subrange(start as int, end as int)));
                assert(lines_of(t) == seq![line@] + lines_of(cs@.skip(next as int)));
            } else {
                assert(t =~= line@);
                assert(cs@.skip(n as int) =~= Seq::<char>::empty());
                assert(lines_of(t) =~= seq![line@] + lines_of(cs@.skip(next as int)));
            }
        }
        let ghost old_out = char_views(out@);
        out.push(line);
        assert(char_views(out@) =~= old_out.push(line@));
        assert(old_out.push(line@) + lines_of(cs@.skip(next as int)) =~= old_out + (seq![line@]
            + lines_of(cs@.skip(next as int))));
        start = next;
    }
    assert(cs@.skip(n as int) =~= Seq::<char>::empty());
    assert(char_views(out@) + Seq::<Seq<char>>::empty() =~= char_views(out@));
    out
}

/// Index of the last `c` in `s`, or -1 where there is none.
pub open spec fn last_index(s: Seq<char>, c: char) -> int
    decreases s.len(),
{
    if s.len() == 0 {
        -1
    } else if s.last() == c {
        s.len() - 1
    } else {
        last_index(s.drop_last(), c)
    }
}

/// `last_index` by a scan from the end: `None` where there is no `c`.
pub fn find_last(cs: &Vec<char>, c: char) -> (k: Option<usize>)
    ensures
        match k {
            Some(i) => last_index(cs@, c) == i as int && i < cs.len() && cs@[i as int] == c,
            None => last_index(cs@, c) == -1,
        },
{
    let mut i: usize = cs.len();
    assert(cs@.take(i as int) =~= cs@);
    while i > 0
        invariant
            i <= cs.len(),
            last_index(cs@, c) == last_index(cs@.take(i as int), c),
        decreases i,
    {
        assert(cs@.take(i as int).drop_last() =~= cs@.take(i - 1));
        if cs[i - 1] == c {
            return Some(i - 1);
        }
        i = i - 1;
    }
    None
}

/// Whether two character vectors hold the same characters.
pub fn chars_equal(a: &Vec<char>, b: &Vec<char>) -> (same: bool)
    ensures
        same == (a@ == b@),
{
    if a.len() != b.len() {
        return false;
    }
    let mut i: usize = 0;
    while i < a.len()
        invariant
            a.len() == b.len(),
            0 <= i <= a.len(),
            forall|j: int| 0 <= j < i ==> a@[j] == b@[j],
        decreases a.len() - i,
    {
        if a[i] != b[i] {
            return false;
        }
        i = i + 1;
    }
    assert(a@ =~= b@);
    true
}

/// The text of an optional `&str`.
pub open spec fn opt_view(o: Option<&str>) -> Option<Seq<char>> {
    match o {
        Some(s) => Some(s@),
        None => None,
    }
}

/// The text of an optional `String`.
pub open spec fn opt_string_view(o: Option<String>) -> Option<Seq<char>> {
    match o {
        Some(s) => Some(s@),
        None => None,
    }
}

/// No line of `lines_of` holds a line feed.
pub proof fn lemma_lines_lack_newline(s: Seq<char>)
    ensures
        forall|k: int| 0 <= k < lines_of(s).len() ==> lacks(#[trigger] lines_of(s)[k], '\n'),
    decreases s.len(),
{
    if s.len() > 0 {
        lemma_find_char_bound(s, '\n');
        let i = find_char(s, '\n') as int;
        if i >= s.len() {
            assert(s.take(i) =~= s);
        } else {
            lemma_lines_lack_newline(s.skip(i + 1));
            let first = strip_cr(s.take(i));
            assert(lacks(first, '\n')) by {
                if s.take(i).len() > 0 && s.take(i).last() == '\r' {
                    assert forall|j: int| 0 <= j < first.len() implies #[trigger] first[j] != '\n' by {
                        assert(first[j] == s.take(i)[j]);
                    }
                }
            }
            let rest = lines_of(s.skip(i + 1));
            assert forall|k: int| 0 <= k < lines_of(s).len() implies lacks(#[trigger] lines_of(s)[k], '\n') by {
                if k > 0 {
                    assert(lines_of(s)[k] == rest[k - 1]);
                }
            }
        }
    }
}

/// Each line that `output_lines` returns is one line of the output: it
/// holds something other than white space, and no line feed.
pub proof fn lemma_output_lines_are_single_nonblank_lines(s: Seq<char>)
    ensures
        forall|k: int|
            0 <= k < nonblank_lines(s).len() ==> !is_blank(#[trigger] nonblank_lines(s)[k])
                && lacks(nonblank_lines(s)[k], '\n'),
{
    lemma_lines_lack_newline(s);
    let ls = lines_of(s);
    assert forall|k: int| 0 <= k < nonblank_lines(s).len() implies !is_blank(
        #[trigger] nonblank_lines(s)[k],
    ) && lacks(nonblank_lines(s)[k], '\n') by {
        ls.lemma_filter_pred(not_blank(), k);
        let l = nonblank_lines(s)[k];
        assert(ls.filter(not_blank()).contains(l));
        ls.lemma_filter_contains_rev(not_blank(), l);
        assert(ls.contains(l));
        let j = choose|j: int| 0 <= j < ls.len() && ls[j] == l;
        assert(lacks(ls[j], '\n'));
    }
}

/// The non-blank lines of an app's output, each as its own `String`
/// (`str::lines`, keeping the lines whose `trim` is not empty).
pub fn output_lines(stdout: &str) -> (lines: Vec<String>)
    ensures
        views(lines@) == nonblank_lines(stdout@),
{
    let cs = chars_of(stdout);
    let n: usize = cs.len();
    let mut out: Vec<String> = Vec::new();
    let mut start: usize = 0;
    assert(cs@.skip(0) =~= cs@);
    while start < n
        invariant
            cs@ == stdout@,
            n == cs.len(),
            start <= n,
            nonblank_lines(stdout@) == views(out@) + nonblank_lines(cs@.skip(start as int)),
        decreases n - start,
    {
        let end: usize = find_from(&cs, start, '\n');
        let ghost pred = not_blank();
        let ghost t = cs@.skip(start as int);
        let ghost i: int = find_char(t, '\n') as int;
        let mut stop: usize = end;
        if end < n && stop > start && cs[stop - 1] == '\r' {
            stop = stop - 1;
        }
        let ghost line = if end < n { strip_cr(cs@.subrange(start as int, end as int)) } else { t };
        proof {
            assert(t.take(i as int) =~= cs@.subrange(start as int, end as int));
            if end < n {
                assert(t.skip(i + 1) =~= cs@.skip(end + 1));
                assert(lines_of(t) == seq![line] + lines_of(cs@.skip(end + 1)));
                assert(line =~= cs@.subrange(start as int, stop as int));
            } else {
                assert(t =~= cs@.subrange(start as int, stop as int));
                assert(lines_of(t) == seq![line]);
                assert(cs@.skip(n as int) =~= Seq::<char>::empty());
            }
        }
        let ghost rest = if end < n { lines_of(cs@.skip(end + 1)) } else { seq![] };
        let ghost old_out = views(out@);
        proof {
            assert(lines_of(t) =~= seq![line] + rest);
            assert(nonblank_lines(t) == lines_of(t).filter(pred));
            rest.lemma_filter_prepend(line, pred);
            assert(nonblank_lines(t) == (if pred(line) { seq![line] } else { Seq::empty() }) + rest.filter(pred));
        }
        if !blank_range(&cs, start, stop) {
            let l = string_of_range(&cs, start, stop);
            out.push(l);
            proof {
                assert(views(out@) =~= old_out.push(line));
            }
        }
        let next: usize = if end < n { end + 1 } else { n };
        proof {
            if end >= n {
                assert(cs@.skip(next as int) =~= Seq::<char>::empty());
                assert(rest.filter(pred) =~= Seq::<Seq<char>>::empty());
            }
            assert(lines_of(cs@.skip(next as int)) == rest);
            assert(nonblank_lines(cs@.skip(next as int)) == lines_of(cs@.skip(next as int)).filter(pred));
            let kept: Seq<Seq<char>> = if pred(line) { seq![line] } else { Seq::empty() };
            assert(views(out@) == old_out + kept);
            assert(old_out + kept + rest.filter(pred) =~= old_out + (kept + rest.filter(pred)));
        }
        start = next;
    }
    proof {
        assert(cs@.skip(n as int) =~= Seq::<char>::empty());
        assert(nonblank_lines(cs@.skip(n as int)) =~= Seq::<Seq<char>>::empty());
    }
    out
}

/// `t` occurs in `s` as a contiguous piece.
pub open spec fn contains_piece(s: Seq<char>, t: Seq<char>) -> bool {
    exists|i: int| 0 <= i && i + t.len() <= s.len() && #[trigger] s.subrange(i, i + t.len()) == t
}

/// A piece placed between two others occurs in the whole.
pub proof fn lemma_piece_between(a: Seq<char>, t: Seq<char>, b: Seq<char>)
    ensures
        contains_piece(a + t + b, t),
{
    let s = a + t + b;
    assert(s.subrange(a.len() as int, (a.len() + t.len()) as int) =~= t);
}

/// A piece of `s` is still a piece once text is put before and after `s`.
pub proof fn lemma_piece_within(a: Seq<char>, s: Seq<char>, b: Seq<char>, t: Seq<char>)
    requires
        contains_piece(s, t),
    ensures
        contains_piece(a + s + b, t),
{
    let i = choose|i: int| 0 <= i && i + t.len() <= s.len() && #[trigger] s.subrange(i, i + t.len()) == t;
    let w = a + s + b;
    assert(w.subrange(a.len() + i, a.len() + i + t.len()) =~= s.subrange(i, i + t.len()));
}

/// Each item's text is a piece of the texts of the first `j` items, one
/// after the other, when the item is among them.
pub proof fn lemma_flat_map_take_has_each<A>(items: Seq<A>, f: spec_fn(A) -> Seq<char>, k: int, j: int)
    requires
        0 <= k < j <= items.len(),
    ensures
        contains_piece(items.take(j).flat_map(f), f(items[k])),
    decreases j,
{
    items.lemma_flat_map_take_append(f, j - 1);
    if j == k + 1 {
        lemma_piece_between(items.take(k).flat_map(f), f(items[k]), Seq::empty());
        assert(items.take(k).flat_map(f) + f(items[k]) + Seq::<char>::empty() =~= items.take(j).flat_map(f));
    } else {
        lemma_flat_map_take_has_each(items, f, k, j - 1);
        lemma_piece_within(Seq::empty(), items.take(j - 1).flat_map(f), f(items[j - 1]), f(items[k]));
        assert(Seq::<char>::empty() + items.take(j - 1).flat_map(f) + f(items[j - 1]) =~= items.take(j).flat_map(f));
    }
}

/// Each item's text is a piece of the texts of all the items, one after
/// the other.
pub proof fn lemma_flat_map_has_each<A>(items: Seq<A>, f: spec_fn(A) -> Seq<char>, k: int)
    requires
        0 <= k < items.len(),
    ensures
        contains_piece(items.flat_map(f), f(items[k])),
{
    lemma_flat_map_take_has_each(items, f, k, items.len() as int);
    assert(items.take(items.len() as int) =~= items);
}

} // verus!
