//! Creating a calendar event.
use vstd::prelude::*;
use vstd::string::*;
use super::datetime::{DateTimeParts, applescript_date, applescript_date_spec, parse_datetime, parse_stamp};
use crate::applescript::{escaped, push_escaped};
use crate::error::Error;
use crate::text::{contains_piece, lemma_piece_between};

verus! {

broadcast use vstd::string::group_string_axioms;

pub struct AddOptions {
    pub calendar: String,
    pub title: String,
    pub start: String,
    pub end: String,
    pub notes: Option<String>,
    pub location: Option<String>,
}

/// `label` + the escaped value + `"`, or nothing when there is no value.
pub open spec fn optional_property(label: Seq<char>, value: Option<String>) -> Seq<char> {
    match value {
        Some(v) => label + escaped(v@) + "\""@,
        None => Seq::empty(),
    }
}

/// The script that makes the event described by `opts` in its calendar,
/// from `start` to `end`, and returns the new event's uid.
pub open spec fn add_event_script(opts: AddOptions, start: DateTimeParts, end: DateTimeParts) -> Seq<char> {
    "\ntell application \"Calendar\"\n    "@ + applescript_date_spec("startDate"@, start) + "\n    "@
        + applescript_date_spec("endDate"@, end) + "\n    tell calendar \""@ + escaped(opts.calendar@)
        + "\"\n        set newEvent to make new event with properties {summary:\""@ + escaped(
        opts.title@,
    ) + "\", start date:startDate, end date:endDate"@ + optional_property(
        ", description:\""@,
        opts.notes,
    ) + optional_property(", location:\""@, opts.location)
        + "}\n        return uid of newEvent\n    end tell\nend tell\n"@
}

/// Appends `label` + escaped value + `"` when there is a value.
fn push_optional_property(out: &mut String, label: &str, value: &Option<String>)
    ensures
        final(out)@ == old(out)@ + optional_property(label@, *value),
{
    match value {
        Some(v) => {
            out.append(label);
            push_escaped(out, v.as_str());
            out.append("\"");
        },
        None => {
            assert(old(out)@ + Seq::<char>::empty() =~= old(out)@);
        },
    }
}

/// Create a calendar event: the script that makes it and returns its uid.
/// The start is read first, then the end; the first that does not parse is
/// the error.
pub fn add_event(opts: &AddOptions) -> (r: Result<String, Error>)
    ensures
        match (parse_stamp(opts.start@, 0), parse_stamp(opts.end@, 0)) {
            (Err(e), _) => r == Err::<String, Error>(Error::Start(e)),
            (Ok(_), Err(e)) => r == Err::<String, Error>(Error::End(e)),
            (Ok(s), Ok(e)) => r matches Ok(script) && script@ == add_event_script(*opts, s, e),
        },
{
    let start = match parse_datetime(opts.start.as_str()) {
        Ok(d) => d,
        Err(e) => {
            return Err(Error::Start(e));
        },
    };
    let end = match parse_datetime(opts.end.as_str()) {
        Ok(d) => d,
        Err(e) => {
            return Err(Error::End(e));
        },
    };
    let mut out = String::new();
    out.append("\ntell application \"Calendar\"\n    ");
    let start_setup = applescript_date("startDate", start);
    out.append(start_setup.as_str());
    out.append("\n    ");
    let end_setup = applescript_date("endDate", end);
    out.append(end_setup.as_str());
    out.append("\n    tell calendar \"");
    push_escaped(&mut out, opts.calendar.as_str());
    out.append("\"\n        set newEvent to make new event with properties {summary:\"");
    push_escaped(&mut out, opts.title.as_str());
    out.append("\", start date:startDate, end date:endDate");
    push_optional_property(&mut out, ", description:\"", &opts.notes);
    push_optional_property(&mut out, ", location:\"", &opts.location);
    out.append("}\n        return uid of newEvent\n    end tell\nend tell\n");
    Ok(out)
}

/// The summary, start and end, then the description, as they stand in the
/// event's properties.
proof fn lemma_description_follows_times(e: Seq<char>, n: String)
    ensures
        e + "\", start date:startDate, end date:endDate"@ + optional_property(", description:\""@, Some(n))
            == e + "\", start date:startDate, end date:endDate, description:\""@ + escaped(n@) + "\""@,
{
    reveal_strlit("\", start date:startDate, end date:endDate");
    reveal_strlit(", description:\"");
    reveal_strlit("\", start date:startDate, end date:endDate, description:\"");
    assert(e + "\", start date:startDate, end date:endDate"@ + optional_property(", description:\""@, Some(n))
        =~= e + "\", start date:startDate, end date:endDate, description:\""@ + escaped(n@) + "\""@);
}

/// The brace that closes the properties, then the rest of the script.
proof fn lemma_closing_brace()
    ensures
        "}\n        return uid of newEvent\n    end tell\nend tell\n"@ == "}"@
            + "\n        return uid of newEvent\n    end tell\nend tell\n"@,
{
    reveal_strlit("}\n        return uid of newEvent\n    end tell\nend tell\n");
    reveal_strlit("\n        return uid of newEvent\n    end tell\nend tell\n");
    reveal_strlit("}");
    assert("}\n        return uid of newEvent\n    end tell\nend tell\n"@ =~= "}"@
        + "\n        return uid of newEvent\n    end tell\nend tell\n"@);
}

/// The location, then the brace that closes the properties.
proof fn lemma_location_closes(l: String)
    ensures
        optional_property(", location:\""@, Some(l)) + "}"@ == ", location:\""@ + escaped(l@) + "\"}"@,
{
    reveal_strlit("}");
    reveal_strlit("\"");
    reveal_strlit("\"}");
    assert(optional_property(", location:\""@, Some(l)) + "}"@ =~= ", location:\""@ + escaped(l@) + "\"}"@);
}

/// Six pieces, regrouped.
proof fn lemma_regroup(a: Seq<char>, b: Seq<char>, c: Seq<char>, d: Seq<char>, e: Seq<char>, x: Seq<char>, r: Seq<char>)
    ensures
        a + b + c + d + e + (x + r) == a + (b + c + d) + (e + x + r),
        a + b + c + d + e + (x + r) == a + b + c + d + (e + x) + r,
{
    assert(a + b + c + d + e + (x + r) =~= a + (b + c + d) + (e + x + r));
    assert(a + b + c + d + e + (x + r) =~= a + b + c + d + (e + x) + r);
}

/// An event keeps what it is given: whenever notes are given, the new
/// event's properties hold them as its description, right after its
/// summary, start and end; whenever a location is given, it is the last
/// property. Each holds whatever the other is, with the text escaped inside
/// its literal.
pub proof fn law_event_keeps_notes_and_location(opts: AddOptions, start: DateTimeParts, end: DateTimeParts)
    ensures
        opts.notes matches Some(n) ==> contains_piece(
            add_event_script(opts, start, end),
            escaped(opts.title@) + "\", start date:startDate, end date:endDate, description:\""@
                + escaped(n@) + "\""@,
        ),
        opts.location matches Some(l) ==> contains_piece(
            add_event_script(opts, start, end),
            ", location:\""@ + escaped(l@) + "\"}"@,
        ),
{
    let head = "\ntell application \"Calendar\"\n    "@ + applescript_date_spec("startDate"@, start) + "\n    "@
        + applescript_date_spec("endDate"@, end) + "\n    tell calendar \""@ + escaped(opts.calendar@)
        + "\"\n        set newEvent to make new event with properties {summary:\""@;
    let title = escaped(opts.title@);
    let times = "\", start date:startDate, end date:endDate"@;
    let desc = optional_property(", description:\""@, opts.notes);
    let loc = optional_property(", location:\""@, opts.location);
    let rest = "\n        return uid of newEvent\n    end tell\nend tell\n"@;
    lemma_closing_brace();
    assert(add_event_script(opts, start, end) == head + title + times + desc + loc + ("}"@ + rest));
    lemma_regroup(head, title, times, desc, loc, "}"@, rest);
    if let Some(n) = opts.notes {
        lemma_description_follows_times(title, n);
        lemma_piece_between(head, title + times + desc, loc + "}"@ + rest);
    }
    if let Some(l) = opts.location {
        lemma_location_closes(l);
        lemma_piece_between(head + title + times + desc, loc + "}"@, rest);
    }
}

} // verus!
