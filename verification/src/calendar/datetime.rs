//! `YYYY-MM-DD[ HH:MM]` date-times and the AppleScript that builds a date
//! from them.
use vstd::prelude::*;
use vstd::string::*;
use crate::error::DateError;
use crate::numbers::{
    decimal, parse_i32_chars, parse_i32_spec, parse_u32_chars, parse_u32_spec, push_decimal,
    push_signed_decimal, signed_decimal,
};
use crate::text::{char_views, chars_of, find_between, find_char, split_chars, split_on};

verus! {

broadcast use vstd::string::group_string_axioms;

/// Parsed date/time components for AppleScript construction.
#[derive(Debug, Clone, Copy, PartialEq, Eq, Structural)]
pub struct DateTimeParts {
    pub year: i32,
    pub month: u32,
    pub day: u32,
    pub hour: u32,
    pub minute: u32,
}

/// The fields of a `YYYY-MM-DD HH:MM` or `YYYY-MM-DD` text.
///
/// The date is the text before the first space, split at `-`; its first
/// three pieces are the year (`str::parse::<i32>`), month and day
/// (`str::parse::<u32>`), and further pieces are ignored. The time is the
/// text after the first space, split at `:`; its first two pieces are the
/// hour and the minute. Without a space the hour is `default_hour` and the
/// minute 0. The first field that is missing or does not parse decides the
/// error.
pub open spec fn parse_stamp(s: Seq<char>, default_hour: u32) -> Result<DateTimeParts, DateError> {
    let sp = find_char(s, ' ') as int;
    let date = s.take(sp);
    let ds = split_on(date, '-');
    match parse_i32_spec(ds[0]) {
        None => Err(DateError::Year),
        Some(year) => if ds.len() < 2 {
            Err(DateError::MissingDatePart)
        } else {
            match parse_u32_spec(ds[1]) {
                None => Err(DateError::Month),
                Some(month) => if ds.len() < 3 {
                    Err(DateError::MissingDatePart)
                } else {
                    match parse_u32_spec(ds[2]) {
                        None => Err(DateError::Day),
                        Some(day) => if sp >= s.len() {
                            Ok(DateTimeParts { year, month, day, hour: default_hour, minute: 0 })
                        } else {
                            let ts = split_on(s.skip(sp + 1), ':');
                            match parse_u32_spec(ts[0]) {
                                None => Err(DateError::Hour),
                                Some(hour) => if ts.len() < 2 {
                                    Err(DateError::MissingTimePart)
                                } else {
                                    match parse_u32_spec(ts[1]) {
                                        None => Err(DateError::Minute),
                                        Some(minute) => Ok(
                                            DateTimeParts { year, month, day, hour, minute },
                                        ),
                                    }
                                },
                            }
                        },
                    }
                },
            }
        },
    }
}

/// Reads `s` as `parse_stamp(s, default_hour)` states.
pub fn parse_stamp_str(s: &str, default_hour: u32) -> (r: Result<DateTimeParts, DateError>)
    ensures
        r == parse_stamp(s@, default_hour),
{
    let cs = chars_of(s);
    let n = cs.len();
    let sp = find_between(&cs, 0, n, ' ');
    proof {
        assert(cs@.subrange(0, n as int) =~= cs@);
        assert(cs@.take(sp as int) =~= cs@.subrange(0, sp as int));
    }
    let ds = split_chars(&cs, 0, sp, '-');
    assert(char_views(ds@)[0] == ds@[0]@);
    let year = match parse_i32_chars(&ds[0]) {
        Some(y) => y,
        None => {
            return Err(DateError::Year);
        },
    };
    if ds.len() < 2 {
        return Err(DateError::MissingDatePart);
    }
    assert(char_views(ds@)[1] == ds@[1]@);
    let month = match parse_u32_chars(&ds[1]) {
        Some(m) => m,
        None => {
            return Err(DateError::Month);
        },
    };
    if ds.len() < 3 {
        return Err(DateError::MissingDatePart);
    }
    assert(char_views(ds@)[2] == ds@[2]@);
    let day = match parse_u32_chars(&ds[2]) {
        Some(d) => d,
        None => {
            return Err(DateError::Day);
        },
    };
    if sp >= n {
        return Ok(DateTimeParts { year, month, day, hour: default_hour, minute: 0 });
    }
    let ts = split_chars(&cs, sp + 1, n, ':');
    proof {
        assert(cs@.subrange(sp + 1, n as int) =~= cs@.skip(sp + 1));
    }
    assert(char_views(ts@)[0] == ts@[0]@);
    let hour = match parse_u32_chars(&ts[0]) {
        Some(h) => h,
        None => {
            return Err(DateError::Hour);
        },
    };
    if ts.len() < 2 {
        return Err(DateError::MissingTimePart);
    }
    assert(char_views(ts@)[1] == ts@[1]@);
    let minute = match parse_u32_chars(&ts[1]) {
        Some(m) => m,
        None => {
            return Err(DateError::Minute);
        },
    };
    Ok(DateTimeParts { year, month, day, hour, minute })
}

/// Parse `YYYY-MM-DD HH:MM` (24h, local) or `YYYY-MM-DD` (defaults to 00:00).
pub fn parse_datetime(s: &str) -> (r: Result<DateTimeParts, DateError>)
    ensures
        r == parse_stamp(s@, 0),
{
    parse_stamp_str(s, 0)
}

/// The AppleScript lines that set the variable `var` to the date `d`, at
/// zero seconds. The day is first set to 1, so that setting the year and
/// the month never rolls over into the next month (as setting June on the
/// 31st would), and then to its own value.
pub open spec fn applescript_date_spec(var: Seq<char>, d: DateTimeParts) -> Seq<char> {
    "set "@ + var + " to current date\n    set day of "@ + var + " to 1\n    set year of "@ + var + " to "@ + signed_decimal(
        d.year as int,
    ) + "\n    set month of "@ + var + " to "@ + decimal(d.month as nat) + "\n    set day of "@
        + var + " to "@ + decimal(d.day as nat) + "\n    set hours of "@ + var + " to "@ + decimal(
        d.hour as nat,
    ) + "\n    set minutes of "@ + var + " to "@ + decimal(d.minute as nat)
        + "\n    set seconds of "@ + var + " to 0\n"@
}

/// AppleScript date construction snippet writing to a variable name.
/// Caller decides the variable name (e.g. "startDate").
pub fn applescript_date(var: &str, d: DateTimeParts) -> (out: String)
    ensures
        out@ == applescript_date_spec(var@, d),
{
    let mut out = String::new();
    out.append("set ");
    out.append(var);
    out.append(" to current date\n    set day of ");
    out.append(var);
    out.append(" to 1\n    set year of ");
    out.append(var);
    out.append(" to ");
    push_signed_decimal(&mut out, d.year as i64);
    out.append("\n    set month of ");
    out.append(var);
    out.append(" to ");
    push_decimal(&mut out, d.month as u64);
    out.append("\n    set day of ");
    out.append(var);
    out.append(" to ");
    push_decimal(&mut out, d.day as u64);
    out.append("\n    set hours of ");
    out.append(var);
    out.append(" to ");
    push_decimal(&mut out, d.hour as u64);
    out.append("\n    set minutes of ");
    out.append(var);
    out.append(" to ");
    push_decimal(&mut out, d.minute as u64);
    out.append("\n    set seconds of ");
    out.append(var);
    out.append(" to 0\n");
    out
}

} // verus!
