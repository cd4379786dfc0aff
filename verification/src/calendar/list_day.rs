//! Listing the events of one day.
use vstd::prelude::*;
use vstd::string::*;
use super::datetime::{DateTimeParts, applescript_date, applescript_date_spec, parse_datetime, parse_stamp};
use crate::applescript::{escaped, push_escaped};
use crate::error::Error;
use crate::text::opt_view;

verus! {

broadcast use vstd::string::group_string_axioms;

/// The line that picks the calendars to list: the ones named `calendar`,
/// or all of them.
pub open spec fn calendar_filter(calendar: Option<Seq<char>>) -> Seq<char> {
    match calendar {
        Some(name) => "set calList to (every calendar whose name is \""@ + escaped(name) + "\")"@,
        None => "set calList to calendars"@,
    }
}

/// The script that lists, one per line, the events that start on `day`
/// (from its midnight to the next), as `<uid>\t<calendar>\t<start ISO>\t<end ISO>\t<summary>`.
pub open spec fn list_day_script(day: DateTimeParts, calendar: Option<Seq<char>>) -> Seq<char> {
    "\ntell application \"Calendar\"\n    "@ + applescript_date_spec("startDate"@, day)
        + "\n    set endDate to startDate + (1 * days)\n    "@ + calendar_filter(calendar)
        + "\n    set out to \"\"\n    repeat with c in calList\n        repeat with e in ((events of c) whose start date is greater than or equal to startDate and start date is less than endDate)\n            set s to start date of e\n            set f to end date of e\n            set out to out & (uid of e) & tab & (name of c) & tab & (s as \u{ab}class isot\u{bb} as string) & tab & (f as \u{ab}class isot\u{bb} as string) & tab & (summary of e) & linefeed\n        end repeat\n    end repeat\n    return out\nend tell\n"@
}

/// The start of the day of `d`: its time set to 00:00.
pub open spec fn midnight(d: DateTimeParts) -> DateTimeParts {
    DateTimeParts { hour: 0, minute: 0, ..d }
}

/// List events on a specific date, optionally filtered to a single calendar:
/// the script whose output holds one event per line, as
/// `<uid>\t<calendar>\t<start ISO>\t<end ISO>\t<summary>`.
pub fn list_day(date: &str, calendar: Option<&str>) -> (r: Result<String, Error>)
    ensures
        match parse_stamp(date@, 0) {
            Err(e) => r == Err::<String, Error>(Error::Date(e)),
            Ok(d) => r matches Ok(script) && script@ == list_day_script(midnight(d), opt_view(calendar)),
        },
{
    let d = match parse_datetime(date) {
        Ok(d) => DateTimeParts { hour: 0, minute: 0, ..d },
        Err(e) => {
            return Err(Error::Date(e));
        },
    };
    let mut out = String::new();
    out.append("\ntell application \"Calendar\"\n    ");
    let start_setup = applescript_date("startDate", d);
    out.append(start_setup.as_str());
    out.append("\n    set endDate to startDate + (1 * days)\n    ");
    match calendar {
        Some(name) => {
            out.append("set calList to (every calendar whose name is \"");
            push_escaped(&mut out, name);
            out.append("\")");
        },
        None => {
            out.append("set calList to calendars");
        },
    }
    out.append(
        "\n    set out to \"\"\n    repeat with c in calList\n        repeat with e in ((events of c) whose start date is greater than or equal to startDate and start date is less than endDate)\n            set s to start date of e\n            set f to end date of e\n            set out to out & (uid of e) & tab & (name of c) & tab & (s as \u{ab}class isot\u{bb} as string) & tab & (f as \u{ab}class isot\u{bb} as string) & tab & (summary of e) & linefeed\n        end repeat\n    end repeat\n    return out\nend tell\n",
    );
    Ok(out)
}

} // verus!
