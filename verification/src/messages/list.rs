//! Chat list lines.
use vstd::prelude::*;
use vstd::string::*;
use super::chatdb::ChatRow;
use crate::text::{chars_of, push_char};

verus! {

broadcast use vstd::string::group_string_axioms;

/// Tabs and line breaks become spaces; other characters stay.
pub open spec fn one_line_char(c: char) -> char {
    if c == '\n' || c == '\r' || c == '\t' {
        ' '
    } else {
        c
    }
}

/// The preview of a message text: on one line, at most 80 characters.
pub open spec fn preview(text: Seq<char>) -> Seq<char> {
    let flat = text.map_values(|c: char| one_line_char(c));
    if flat.len() <= 80 {
        flat
    } else {
        flat.take(80)
    }
}

/// A preview is one short line: at most 80 characters, with no tab, line
/// feed or carriage return, so it cannot break the tab-separated line.
pub proof fn lemma_preview_is_one_short_line(text: Seq<char>)
    ensures
        preview(text).len() <= 80,
        crate::text::lacks(preview(text), '\n'),
        crate::text::lacks(preview(text), '\r'),
        crate::text::lacks(preview(text), '\t'),
{
    let flat = text.map_values(|c: char| one_line_char(c));
    assert forall|j: int| 0 <= j < preview(text).len() implies #[trigger] preview(text)[j] == flat[j] by {}
}

/// `s`, or `-` when `s` is empty.
pub open spec fn or_dash(s: Seq<char>) -> Seq<char> {
    if s.len() == 0 {
        seq!['-']
    } else {
        s
    }
}

/// `<chat_identifier>\t<display_name or ->\t<when>\t<preview>`.
pub open spec fn chat_line_spec(chat: ChatRow, when: Seq<char>) -> Seq<char> {
    chat.chat_identifier@ + seq!['\t'] + or_dash(chat.display_name@) + seq!['\t'] + when + seq!['\t']
        + preview(chat.last_message_text@)
}

/// Appends `s`, or `-` when it is empty.
pub fn push_or_dash(out: &mut String, s: &str)
    ensures
        final(out)@ == old(out)@ + or_dash(s@),
{
    let cs = chars_of(s);
    if cs.len() == 0 {
        push_char(out, '-');
    } else {
        out.append(s);
    }
}

/// Appends the preview of `text`.
fn push_preview(out: &mut String, text: &str)
    ensures
        final(out)@ == old(out)@ + preview(text@),
{
    let cs = chars_of(text);
    let ghost flat = text@.map_values(|c: char| one_line_char(c));
    let ghost start = out@;
    let n: usize = if cs.len() <= 80 { cs.len() } else { 80 };
    let mut i: usize = 0;
    while i < n
        invariant
            cs@ == text@,
            n <= cs.len(),
            n == if cs.len() <= 80 { cs.len() } else { 80 },
            0 <= i <= n,
            flat == text@.map_values(|c: char| one_line_char(c)),
            out@ == start + flat.take(i as int),
        decreases n - i,
    {
        let c = cs[i];
        let d = if c == '\n' || c == '\r' || c == '\t' { ' ' } else { c };
        push_char(out, d);
        assert(flat.take(i + 1) =~= flat.take(i as int).push(d));
        i = i + 1;
    }
    assert(flat.len() <= 80 ==> flat.take(n as int) =~= flat);
}

/// One line of the chat list.
pub fn chat_line(chat: &ChatRow, when: &str) -> (line: String)
    ensures
        line@ == chat_line_spec(*chat, when@),
{
    let mut out = String::new();
    out.append(chat.chat_identifier.as_str());
    push_char(&mut out, '\t');
    push_or_dash(&mut out, chat.display_name.as_str());
    push_char(&mut out, '\t');
    out.append(when);
    push_char(&mut out, '\t');
    push_preview(&mut out, chat.last_message_text.as_str());
    out
}

/// List chats sorted by most-recent message (matches Messages.app UI order),
/// one line per chat: `<chat_identifier>\t<display_name>\t<last_message_iso>\t<last_message_preview>`.
/// `when[i]` is the local time of `chats[i]`'s last message.
pub fn list(chats: &Vec<ChatRow>, when: &Vec<String>) -> (lines: Vec<String>)
    requires
        chats.len() == when.len(),
    ensures
        lines.len() == chats.len(),
        forall|i: int| 0 <= i < chats.len() ==> #[trigger] lines@[i]@ == chat_line_spec(chats@[i], when@[i]@),
{
    let mut out: Vec<String> = Vec::new();
    let mut i: usize = 0;
    while i < chats.len()
        invariant
            chats.len() == when.len(),
            0 <= i <= chats.len(),
            out.len() == i,
            forall|j: int| 0 <= j < i ==> #[trigger] out@[j]@ == chat_line_spec(chats@[j], when@[j]@),
        decreases chats.len() - i,
    {
        let line = chat_line(&chats[i], when[i].as_str());
        out.push(line);
        i = i + 1;
    }
    out
}

} // verus!
