//! Message lines.
use vstd::prelude::*;
use vstd::string::*;
use super::chatdb::MessageRow;
use super::list::{or_dash, push_or_dash};
use crate::text::{chars_of, push_char};

verus! {

broadcast use vstd::string::group_string_axioms;

/// Line breaks become spaces; other characters stay.
pub open spec fn unbroken_char(c: char) -> char {
    if c == '\n' || c == '\r' {
        ' '
    } else {
        c
    }
}

/// `me` for a message sent from this account, `them` otherwise.
pub open spec fn direction(is_from_me: bool) -> Seq<char> {
    if is_from_me {
        seq!['m', 'e']
    } else {
        seq!['t', 'h', 'e', 'm']
    }
}

/// `<when>\t<me|them>\t<sender or ->\t<text on one line>`.
pub open spec fn message_line_spec(m: MessageRow, when: Seq<char>) -> Seq<char> {
    when + seq!['\t'] + direction(m.is_from_me) + seq!['\t'] + or_dash(m.sender@) + seq!['\t']
        + m.text@.map_values(|c: char| unbroken_char(c))
}

/// One line of a chat's messages.
pub fn message_line(m: &MessageRow, when: &str) -> (line: String)
    ensures
        line@ == message_line_spec(*m, when@),
{
    let mut out = String::new();
    out.append(when);
    push_char(&mut out, '\t');
    if m.is_from_me {
        push_char(&mut out, 'm');
        push_char(&mut out, 'e');
    } else {
        push_char(&mut out, 't');
        push_char(&mut out, 'h');
        push_char(&mut out, 'e');
        push_char(&mut out, 'm');
    }
    push_char(&mut out, '\t');
    push_or_dash(&mut out, m.sender.as_str());
    push_char(&mut out, '\t');
    let cs = chars_of(m.text.as_str());
    let ghost flat = m.text@.map_values(|c: char| unbroken_char(c));
    let ghost start = out@;
    let mut i: usize = 0;
    while i < cs.len()
        invariant
            cs@ == m.text@,
            0 <= i <= cs.len(),
            flat == m.text@.map_values(|c: char| unbroken_char(c)),
            out@ == start + flat.take(i as int),
        decreases cs.len() - i,
    {
        let c = cs[i];
        let d = if c == '\n' || c == '\r' { ' ' } else { c };
        push_char(&mut out, d);
        assert(flat.take(i + 1) =~= flat.take(i as int).push(d));
        i = i + 1;
    }
    assert(flat.take(cs.len() as int) =~= flat);
    out
}

/// Read recent messages from a chat: one line per message, in the order
/// given (oldest first), as `<iso_timestamp>\t<direction>\t<sender>\t<text>`
/// where direction is `me` or `them`. `when[i]` is the local time of
/// `messages[i]`.
pub fn read(messages: &Vec<MessageRow>, when: &Vec<String>) -> (lines: Vec<String>)
    requires
        messages.len() == when.len(),
    ensures
        lines.len() == messages.len(),
        forall|i: int| 0 <= i < messages.len() ==> #[trigger] lines@[i]@ == message_line_spec(messages@[i], when@[i]@),
{
    let mut out: Vec<String> = Vec::new();
    let mut i: usize = 0;
    while i < messages.len()
        invariant
            messages.len() == when.len(),
            0 <= i <= messages.len(),
            out.len() == i,
            forall|j: int| 0 <= j < i ==> #[trigger] out@[j]@ == message_line_spec(messages@[j], when@[j]@),
        decreases messages.len() - i,
    {
        let line = message_line(&messages[i], when[i].as_str());
        out.push(line);
        i = i + 1;
    }
    out
}

} // verus!
