//! AppleScript string literals: escaping text so that it can stand between
//! double quotes in a script.
use vstd::prelude::*;
use vstd::string::*;
use crate::text::{chars_of, push_char};

verus! {

broadcast use vstd::string::group_string_axioms;

/// What one character becomes inside an AppleScript string literal:
/// `\` and `"` are preceded by a backslash, everything else stays.
pub open spec fn escape_char(c: char) -> Seq<char> {
    if c == '\\' {
        seq!['\\', '\\']
    } else if c == '"' {
        seq!['\\', '"']
    } else {
        seq![c]
    }
}

/// `escape_char` as a function value.
pub open spec fn escape_fn() -> spec_fn(char) -> Seq<char> {
    |c: char| escape_char(c)
}

/// `s` with every `\` and `"` escaped.
pub open spec fn escaped(s: Seq<char>) -> Seq<char> {
    s.flat_map(escape_fn())
}

/// The character that AppleScript reads for a backslash followed by `c`.
pub open spec fn escape_meaning(c: char) -> char {
    if c == 'n' {
        '\n'
    } else if c == 't' {
        '\t'
    } else if c == 'r' {
        '\r'
    } else {
        c
    }
}

/// How AppleScript reads the text that follows an opening `"`: the string
/// up to the closing `"`, and the script text after that quote; `None` when
/// the literal is never closed.
pub open spec fn read_literal(t: Seq<char>) -> Option<(Seq<char>, Seq<char>)>
    decreases t.len(),
{
    if t.len() == 0 {
        None
    } else if t[0] == '"' {
        Some((Seq::empty(), t.drop_first()))
    } else if t[0] == '\\' {
        if t.len() < 2 {
            None
        } else {
            match read_literal(t.skip(2)) {
                Some((v, rest)) => Some((seq![escape_meaning(t[1])] + v, rest)),
                None => None,
            }
        }
    } else {
        match read_literal(t.drop_first()) {
            Some((v, rest)) => Some((seq![t[0]] + v, rest)),
            None => None,
        }
    }
}

/// Escape a string for safe inclusion inside an AppleScript double-quoted
/// string literal: each `\` becomes `\\` and each `"` becomes `\"`.
pub fn escape_string(s: &str) -> (out: String)
    ensures
        out@ == escaped(s@),
{
    let cs = chars_of(s);
    let mut out = String::new();
    let mut i: usize = 0;
    assert(cs@.take(0).flat_map(escape_fn()) =~= Seq::<char>::empty());
    while i < cs.len()
        invariant
            0 <= i <= cs.len(),
            cs@ == s@,
            out@ == cs@.take(i as int).flat_map(escape_fn()),
        decreases cs.len() - i,
    {
        let c = cs[i];
        proof {
            cs@.lemma_flat_map_take_append(escape_fn(), i as int);
        }
        if c == '\\' {
            push_char(&mut out, '\\');
            push_char(&mut out, '\\');
        } else if c == '"' {
            push_char(&mut out, '\\');
            push_char(&mut out, '"');
        } else {
            push_char(&mut out, c);
        }
        assert(out@ =~= cs@.take(i + 1).flat_map(escape_fn()));
        i = i + 1;
    }
    assert(cs@.take(cs.len() as int) =~= cs@);
    out
}

/// Appends `s`, escaped for an AppleScript string literal, to `out`.
pub fn push_escaped(out: &mut String, s: &str)
    ensures
        final(out)@ == old(out)@ + escaped(s@),
{
    let e = escape_string(s);
    out.append(e.as_str());
}

/// Escaping unfolds one character at a time from the front.
proof fn lemma_escaped_cons(s: Seq<char>)
    requires
        s.len() > 0,
    ensures
        escaped(s) == escape_char(s[0]) + escaped(s.drop_first()),
{
    let f = escape_fn();
    let m = s.map_values(f);
    assert(m.drop_first() =~= s.drop_first().map_values(f));
    assert(m.flatten() == m.first() + m.drop_first().flatten());
}

/// Quote safety: a literal written as `"` + `escape_string(s)` + `"` reads
/// back as exactly `s` in AppleScript, and ends at that closing quote, so
/// the script text after it is untouched whatever `s` holds.
pub proof fn lemma_escaped_literal_reads_back(s: Seq<char>, rest: Seq<char>)
    ensures
        read_literal(escaped(s) + seq!['"'] + rest) == Some((s, rest)),
    decreases s.len(),
{
    let t = escaped(s) + seq!['"'] + rest;
    if s.len() == 0 {
        assert(escaped(s) =~= Seq::<char>::empty()) by {
            assert(s.map_values(escape_fn()) =~= Seq::<Seq<char>>::empty());
        }
        assert(t =~= seq!['"'] + rest);
        assert(t.drop_first() =~= rest);
    } else {
        lemma_escaped_cons(s);
        lemma_escaped_literal_reads_back(s.drop_first(), rest);
        let tail = escaped(s.drop_first()) + seq!['"'] + rest;
        let c = s[0];
        if c == '\\' || c == '"' {
            assert(t =~= seq!['\\', c] + tail);
            assert(t.skip(2) =~= tail);
        } else {
            assert(t =~= seq![c] + tail);
            assert(t.drop_first() =~= tail);
        }
        assert(seq![c] + s.drop_first() =~= s);
    }
}

} // verus!
