//! Creating a reminder.
use vstd::prelude::*;
use vstd::string::*;
use crate::applescript::{escaped, push_escaped};
use crate::calendar::datetime::{DateTimeParts, parse_stamp, parse_stamp_str};
use crate::error::{DateError, Error};
use crate::numbers::{decimal, push_decimal, push_signed_decimal, signed_decimal};
use crate::text::{contains_piece, lemma_piece_between, opt_string_view};

verus! {

broadcast use vstd::string::group_string_axioms;

pub struct CreateOptions {
    pub title: String,
    /// Due date/time in `YYYY-MM-DD HH:MM` format (24h, local time).
    pub due: Option<String>,
    pub notes: Option<String>,
    pub list: Option<String>,
}

/// The due date and time of a reminder.
#[derive(Debug, Clone, Copy, PartialEq, Eq, Structural)]
pub struct DueParts {
    pub year: i32,
    pub month: u32,
    pub day: u32,
    pub hour: u32,
    pub minute: u32,
}

/// The due parts with the fields of `p`.
pub open spec fn due_of(p: DateTimeParts) -> DueParts {
    DueParts { year: p.year, month: p.month, day: p.day, hour: p.hour, minute: p.minute }
}

/// What `parse_due` reads: the fields of `parse_stamp`, with 09:00 when no
/// time is given.
pub open spec fn parse_due_spec(s: Seq<char>) -> Result<DueParts, DateError> {
    match parse_stamp(s, 9) {
        Ok(p) => Ok(due_of(p)),
        Err(e) => Err(e),
    }
}

/// Accept `YYYY-MM-DD HH:MM` and also `YYYY-MM-DD` (default 09:00).
pub fn parse_due(s: &str) -> (r: Result<DueParts, DateError>)
    ensures
        r == parse_due_spec(s@),
{
    match parse_stamp_str(s, 9) {
        Ok(p) => Ok(DueParts { year: p.year, month: p.month, day: p.day, hour: p.hour, minute: p.minute }),
        Err(e) => Err(e),
    }
}

/// A reminder's due date and an event's date-time are read alike: the same
/// texts are accepted, with the same error for the others, and the same
/// fields come out, but for the hour when no time is given, which is 9 for
/// a reminder and 0 for an event.
pub proof fn lemma_due_reads_like_datetime(s: Seq<char>)
    ensures
        parse_due_spec(s) is Ok <==> parse_stamp(s, 0) is Ok,
        parse_stamp(s, 0) matches Err(e) ==> parse_due_spec(s) == Err::<DueParts, DateError>(e),
        parse_stamp(s, 0) matches Ok(p) ==> {
            let d = parse_due_spec(s)->Ok_0;
            &&& d.year == p.year
            &&& d.month == p.month
            &&& d.day == p.day
            &&& d.minute == p.minute
            &&& if crate::text::find_char(s, ' ') < s.len() {
                d.hour == p.hour
            } else {
                d.hour == 9 && p.hour == 0
            }
        },
{
}

/// The lines that set `theDate` to the due date. The day is first set to
/// 1, so that setting the year and the month never rolls over into the next
/// month (as setting June on the 31st would), and then to its own value.
pub open spec fn due_setup(d: DueParts) -> Seq<char> {
    "\n    set theDate to current date\n    set day of theDate to 1\n    set year of theDate to "@ + signed_decimal(d.year as int)
        + "\n    set month of theDate to "@ + decimal(d.month as nat)
        + "\n    set day of theDate to "@ + decimal(d.day as nat) + "\n    set time of theDate to ("@
        + decimal(d.hour as nat) + " * hours + "@ + decimal(d.minute as nat) + " * minutes)\n"@
}

/// The line that picks the list: the first list named `list`, or the
/// default list.
pub open spec fn target_clause(list: Option<Seq<char>>) -> Seq<char> {
    match list {
        Some(name) => "set targetList to first list whose name is \""@ + escaped(name) + "\""@,
        None => "set targetList to default list"@,
    }
}

/// The script that makes the reminder, with `due` as its due date when
/// there is one, and returns its id.
pub open spec fn create_reminder_script(opts: CreateOptions, due: Option<DueParts>) -> Seq<char> {
    "\ntell application \"Reminders\"\n    "@ + target_clause(opt_string_view(opts.list)) + "\n    "@
        + optional_due_setup(due) + "\n    tell targetList\n        set newRem to make new reminder with properties {name:\""@
        + escaped(opts.title@) + "\""@ + notes_clause(opts.notes) + due_clause(due) + "}\n    end tell\n    return id of newRem\nend tell\n"@
}

/// Appends the line that picks the list.
pub fn push_target_clause(out: &mut String, list: Option<&str>)
    ensures
        final(out)@ == old(out)@ + target_clause(crate::text::opt_view(list)),
{
    match list {
        Some(name) => {
            out.append("set targetList to first list whose name is \"");
            push_escaped(out, name);
            out.append("\"");
        },
        None => {
            out.append("set targetList to default list");
        },
    }
}

/// The due date setup, or nothing.
pub open spec fn optional_due_setup(due: Option<DueParts>) -> Seq<char> {
    match due {
        Some(d) => due_setup(d),
        None => Seq::empty(),
    }
}

/// The `body` property, or nothing.
pub open spec fn notes_clause(notes: Option<String>) -> Seq<char> {
    match notes {
        Some(n) => ", body:\""@ + escaped(n@) + "\""@,
        None => Seq::empty(),
    }
}

/// The `due date` property, or nothing.
pub open spec fn due_clause(due: Option<DueParts>) -> Seq<char> {
    match due {
        Some(_) => ", due date:theDate"@,
        None => Seq::empty(),
    }
}

fn push_due_setup(out: &mut String, due: Option<DueParts>)
    ensures
        final(out)@ == old(out)@ + optional_due_setup(due),
{
    match due {
        Some(d) => {
            out.append("\n    set theDate to current date\n    set day of theDate to 1\n    set year of theDate to ");
            push_signed_decimal(out, d.year as i64);
            out.append("\n    set month of theDate to ");
            push_decimal(out, d.month as u64);
            out.append("\n    set day of theDate to ");
            push_decimal(out, d.day as u64);
            out.append("\n    set time of theDate to (");
            push_decimal(out, d.hour as u64);
            out.append(" * hours + ");
            push_decimal(out, d.minute as u64);
            out.append(" * minutes)\n");
        },
        None => {
            assert(old(out)@ + Seq::<char>::empty() =~= old(out)@);
        },
    }
}

fn push_notes_clause(out: &mut String, notes: &Option<String>)
    ensures
        final(out)@ == old(out)@ + notes_clause(*notes),
{
    match notes {
        Some(n) => {
            out.append(", body:\"");
            push_escaped(out, n.as_str());
            out.append("\"");
        },
        None => {
            assert(old(out)@ + Seq::<char>::empty() =~= old(out)@);
        },
    }
}

/// The script for `opts` and an already read due date.
fn reminder_script(opts: &CreateOptions, due: Option<DueParts>) -> (script: String)
    ensures
        script@ == create_reminder_script(*opts, due),
{
    let mut out = String::new();
    out.append("\ntell application \"Reminders\"\n    ");
    match &opts.list {
        Some(l) => push_target_clause(&mut out, Some(l.as_str())),
        None => push_target_clause(&mut out, None),
    }
    out.append("\n    ");
    push_due_setup(&mut out, due);
    out.append("\n    tell targetList\n        set newRem to make new reminder with properties {name:\"");
    push_escaped(&mut out, opts.title.as_str());
    out.append("\"");
    push_notes_clause(&mut out, &opts.notes);
    if due.is_some() {
        out.append(", due date:theDate");
    } else {
        assert(out@ + Seq::<char>::empty() =~= out@);
    }
    out.append("}\n    end tell\n    return id of newRem\nend tell\n");
    out
}

/// Create a reminder: the script that makes it and returns its id. A due
/// date that does not parse is the error.
pub fn create_reminder(opts: &CreateOptions) -> (r: Result<String, Error>)
    ensures
        match opts.due {
            None => r matches Ok(script) && script@ == create_reminder_script(*opts, None),
            Some(s) => match parse_due_spec(s@) {
                Ok(d) => r matches Ok(script) && script@ == create_reminder_script(*opts, Some(d)),
                Err(e) => r == Err::<String, Error>(Error::Due(e)),
            },
        },
{
    let due: Option<DueParts> = match &opts.due {
        Some(s) => match parse_due(s.as_str()) {
            Ok(d) => Some(d),
            Err(e) => {
                return Err(Error::Due(e));
            },
        },
        None => None,
    };
    Ok(reminder_script(opts, due))
}

/// The title, then the notes, as they stand in the reminder's properties.
proof fn lemma_body_follows_name(e: Seq<char>, n: String)
    ensures
        e + "\""@ + notes_clause(Some(n)) == e + "\", body:\""@ + escaped(n@) + "\""@,
{
    reveal_strlit("\"");
    reveal_strlit(", body:\"");
    reveal_strlit("\", body:\"");
    assert(e + "\""@ + notes_clause(Some(n)) =~= e + "\", body:\""@ + escaped(n@) + "\""@);
}

/// The due date, then the brace that closes the properties.
proof fn lemma_due_closes()
    ensures
        "}\n    end tell\n    return id of newRem\nend tell\n"@ == "}"@ + "\n    end tell\n    return id of newRem\nend tell\n"@,
        ", due date:theDate"@ + "}"@ == ", due date:theDate}"@,
{
    reveal_strlit("}\n    end tell\n    return id of newRem\nend tell\n");
    reveal_strlit("\n    end tell\n    return id of newRem\nend tell\n");
    reveal_strlit("}");
    reveal_strlit(", due date:theDate");
    reveal_strlit(", due date:theDate}");
    assert("}\n    end tell\n    return id of newRem\nend tell\n"@ =~= "}"@ + "\n    end tell\n    return id of newRem\nend tell\n"@);
    assert(", due date:theDate"@ + "}"@ =~= ", due date:theDate}"@);
}

/// A reminder keeps what it is given: whenever notes are given, its
/// properties hold them as its body, right after its name, with or without
/// a due date; whenever a due date is given, it is the last property.
pub proof fn law_reminder_keeps_notes_and_due(opts: CreateOptions, due: Option<DueParts>)
    ensures
        opts.notes matches Some(n) ==> contains_piece(
            create_reminder_script(opts, due),
            escaped(opts.title@) + "\", body:\""@ + escaped(n@) + "\""@,
        ),
        due is Some ==> contains_piece(create_reminder_script(opts, due), ", due date:theDate}"@),
{
    let head = "\ntell application \"Reminders\"\n    "@ + target_clause(opt_string_view(opts.list)) + "\n    "@
        + optional_due_setup(due) + "\n    tell targetList\n        set newRem to make new reminder with properties {name:\""@;
    let title = escaped(opts.title@);
    let nc = notes_clause(opts.notes);
    let dc = due_clause(due);
    let rest = "\n    end tell\n    return id of newRem\nend tell\n"@;
    lemma_due_closes();
    let whole = create_reminder_script(opts, due);
    assert(whole == head + title + "\""@ + nc + dc + ("}"@ + rest));
    assert(whole =~= head + (title + "\""@ + nc) + (dc + "}"@ + rest));
    assert(whole =~= head + title + "\""@ + nc + (dc + "}"@) + rest);
    if let Some(n) = opts.notes {
        lemma_body_follows_name(title, n);
        lemma_piece_between(head, title + "\""@ + nc, dc + "}"@ + rest);
    }
    if due is Some {
        lemma_piece_between(head + title + "\""@ + nc, dc + "}"@, rest);
    }
}

} // verus!
