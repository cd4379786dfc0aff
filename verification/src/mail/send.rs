//! Sending an email.
use vstd::prelude::*;
use vstd::string::*;
use crate::applescript::{escaped, push_escaped};
use crate::text::{contains_piece, lemma_flat_map_has_each, lemma_piece_between, lemma_piece_within, views};

verus! {

broadcast use vstd::string::group_string_axioms;

pub struct SendOptions {
    pub to: Vec<String>,
    pub cc: Vec<String>,
    pub bcc: Vec<String>,
    pub subject: String,
    pub body: String,
    /// Account display name to send from. If None, uses Mail's default.
    pub from_account: Option<String>,
}

/// The script line that adds `address` as a recipient of the kind `kind`
/// (`to`, `cc` or `bcc`).
pub open spec fn recipient_line(kind: Seq<char>, address: Seq<char>) -> Seq<char> {
    "        make new "@ + kind + " recipient at end of "@ + kind
        + " recipients with properties {address:\""@ + escaped(address) + "\"}\n"@
}

/// `recipient_line(kind, _)` as a function value.
pub open spec fn recipient_line_fn(kind: Seq<char>) -> spec_fn(Seq<char>) -> Seq<char> {
    |a: Seq<char>| recipient_line(kind, a)
}

/// One recipient line per address, in order.
pub open spec fn recipient_lines(kind: Seq<char>, addresses: Seq<Seq<char>>) -> Seq<char> {
    addresses.flat_map(recipient_line_fn(kind))
}

/// The line that sets the sending account, when one is named.
pub open spec fn from_clause(account: Option<String>) -> Seq<char> {
    match account {
        Some(a) => "set sender of newMessage to (email addresses of (first account whose name is \""@
            + escaped(a@) + "\")) as string\n    "@,
        None => Seq::empty(),
    }
}

/// The script that sends the message described by `opts` from Mail.app.
pub open spec fn send_script(opts: SendOptions) -> Seq<char> {
    "\ntell application \"Mail\"\n    set newMessage to make new outgoing message with properties {subject:\""@
        + escaped(opts.subject@) + "\", content:\""@ + escaped(opts.body@)
        + "\", visible:false}\n    "@ + from_clause(opts.from_account) + "tell newMessage\n"@
        + recipient_lines("to"@, views(opts.to@)) + recipient_lines("cc"@, views(opts.cc@))
        + recipient_lines("bcc"@, views(opts.bcc@)) + "    end tell\n    send newMessage\nend tell\n"@
}

/// Appends one recipient line per address.
fn push_recipients(out: &mut String, kind: &str, addresses: &Vec<String>)
    ensures
        final(out)@ == old(out)@ + recipient_lines(kind@, views(addresses@)),
{
    let ghost f = recipient_line_fn(kind@);
    let ghost a = views(addresses@);
    let ghost start = out@;
    assert(a.take(0).flat_map(f) =~= Seq::<char>::empty());
    let mut i: usize = 0;
    while i < addresses.len()
        invariant
            0 <= i <= addresses.len(),
            f == recipient_line_fn(kind@),
            a == views(addresses@),
            out@ == start + a.take(i as int).flat_map(f),
        decreases addresses.len() - i,
    {
        proof {
            a.lemma_flat_map_take_append(f, i as int);
        }
        let ghost before = out@;
        out.append("        make new ");
        out.append(kind);
        out.append(" recipient at end of ");
        out.append(kind);
        out.append(" recipients with properties {address:\"");
        push_escaped(out, addresses[i].as_str());
        out.append("\"}\n");
        assert(out@ =~= before + recipient_line(kind@, a[i as int]));
        assert(out@ =~= start + a.take(i + 1).flat_map(f));
        i = i + 1;
    }
    assert(a.take(addresses.len() as int) =~= a);
}

/// Send an email via Mail.app: the script that sends it.
pub fn send(opts: &SendOptions) -> (script: String)
    ensures
        script@ == send_script(*opts),
{
    let mut out = String::new();
    out.append(
        "\ntell application \"Mail\"\n    set newMessage to make new outgoing message with properties {subject:\"",
    );
    push_escaped(&mut out, opts.subject.as_str());
    out.append("\", content:\"");
    push_escaped(&mut out, opts.body.as_str());
    out.append("\", visible:false}\n    ");
    match &opts.from_account {
        Some(account) => {
            out.append(
                "set sender of newMessage to (email addresses of (first account whose name is \"",
            );
            push_escaped(&mut out, account.as_str());
            out.append("\")) as string\n    ");
        },
        None => {},
    }
    out.append("tell newMessage\n");
    push_recipients(&mut out, "to", &opts.to);
    push_recipients(&mut out, "cc", &opts.cc);
    push_recipients(&mut out, "bcc", &opts.bcc);
    out.append("    end tell\n    send newMessage\nend tell\n");
    out
}

/// Every address keeps its field: each `to` address is added as a `to`
/// recipient, each `cc` address as a `cc` recipient and each `bcc` address
/// as a `bcc` recipient (never as a visible one), its text escaped inside
/// the address literal.
pub proof fn law_recipients_keep_their_field(opts: SendOptions, k: int)
    ensures
        0 <= k < opts.to.len() ==> contains_piece(
            send_script(opts),
            "        make new to recipient at end of to recipients with properties {address:\""@
                + escaped(opts.to@[k]@) + "\"}\n"@,
        ),
        0 <= k < opts.cc.len() ==> contains_piece(
            send_script(opts),
            "        make new cc recipient at end of cc recipients with properties {address:\""@
                + escaped(opts.cc@[k]@) + "\"}\n"@,
        ),
        0 <= k < opts.bcc.len() ==> contains_piece(
            send_script(opts),
            "        make new bcc recipient at end of bcc recipients with properties {address:\""@
                + escaped(opts.bcc@[k]@) + "\"}\n"@,
        ),
{
    let head = "\ntell application \"Mail\"\n    set newMessage to make new outgoing message with properties {subject:\""@
        + escaped(opts.subject@) + "\", content:\""@ + escaped(opts.body@)
        + "\", visible:false}\n    "@ + from_clause(opts.from_account) + "tell newMessage\n"@;
    let rto = recipient_lines("to"@, views(opts.to@));
    let rcc = recipient_lines("cc"@, views(opts.cc@));
    let rbcc = recipient_lines("bcc"@, views(opts.bcc@));
    let tail = "    end tell\n    send newMessage\nend tell\n"@;
    reveal_strlit("        make new ");
    reveal_strlit(" recipient at end of ");
    reveal_strlit(" recipients with properties {address:\"");
    if 0 <= k < opts.to.len() {
        let a = views(opts.to@);
        lemma_flat_map_has_each(a, recipient_line_fn("to"@), k);
        reveal_strlit("to");
        reveal_strlit("        make new to recipient at end of to recipients with properties {address:\"");
        assert(recipient_line("to"@, a[k]) =~= "        make new to recipient at end of to recipients with properties {address:\""@
            + escaped(opts.to@[k]@) + "\"}\n"@);
        lemma_piece_within(head, rto, rcc + rbcc + tail, recipient_line("to"@, a[k]));
        assert(send_script(opts) =~= head + rto + (rcc + rbcc + tail));
    }
    if 0 <= k < opts.cc.len() {
        let a = views(opts.cc@);
        lemma_flat_map_has_each(a, recipient_line_fn("cc"@), k);
        reveal_strlit("cc");
        reveal_strlit("        make new cc recipient at end of cc recipients with properties {address:\"");
        assert(recipient_line("cc"@, a[k]) =~= "        make new cc recipient at end of cc recipients with properties {address:\""@
            + escaped(opts.cc@[k]@) + "\"}\n"@);
        lemma_piece_within(head + rto, rcc, rbcc + tail, recipient_line("cc"@, a[k]));
        assert(send_script(opts) =~= head + rto + rcc + (rbcc + tail));
    }
    if 0 <= k < opts.bcc.len() {
        let a = views(opts.bcc@);
        lemma_flat_map_has_each(a, recipient_line_fn("bcc"@), k);
        reveal_strlit("bcc");
        reveal_strlit("        make new bcc recipient at end of bcc recipients with properties {address:\"");
        assert(recipient_line("bcc"@, a[k]) =~= "        make new bcc recipient at end of bcc recipients with properties {address:\""@
            + escaped(opts.bcc@[k]@) + "\"}\n"@);
        lemma_piece_within(head + rto + rcc, rbcc, tail, recipient_line("bcc"@, a[k]));
    }
}

/// The message has the subject and the content it is given, each escaped
/// inside its literal, one after the other.
pub proof fn law_message_keeps_subject_and_content(opts: SendOptions)
    ensures
        contains_piece(send_script(opts), escaped(opts.subject@) + "\", content:\""@ + escaped(opts.body@)),
{
    let head = "\ntell application \"Mail\"\n    set newMessage to make new outgoing message with properties {subject:\""@;
    let piece = escaped(opts.subject@) + "\", content:\""@ + escaped(opts.body@);
    let rest = "\", visible:false}\n    "@ + from_clause(opts.from_account) + "tell newMessage\n"@
        + recipient_lines("to"@, views(opts.to@)) + recipient_lines("cc"@, views(opts.cc@))
        + recipient_lines("bcc"@, views(opts.bcc@)) + "    end tell\n    send newMessage\nend tell\n"@;
    assert(send_script(opts) =~= head + piece + rest);
    lemma_piece_between(head, piece, rest);
}

} // verus!
