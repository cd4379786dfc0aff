use appleappscli::calendar::{DateTimeParts, applescript_date, parse_datetime};
use appleappscli::error::DateError;
use appleappscli::reminders::create::parse_due;

#[test]
fn parses_with_time() {
    let d = parse_datetime("2026-05-20 14:30").unwrap();
    assert_eq!(
        (d.year, d.month, d.day, d.hour, d.minute),
        (2026, 5, 20, 14, 30)
    );
}

#[test]
fn parses_date_only_defaults_midnight() {
    let d = parse_datetime("2026-05-20").unwrap();
    assert_eq!((d.hour, d.minute), (0, 0));
}

#[test]
fn rejects_bad_input() {
    assert!(parse_datetime("not-a-date").is_err());
    assert!(parse_datetime("2026").is_err());
}

#[test]
fn parses_full_due() {
    let d = parse_due("2026-05-20 14:30").unwrap();
    assert_eq!(d.year, 2026);
    assert_eq!(d.month, 5);
    assert_eq!(d.day, 20);
    assert_eq!(d.hour, 14);
    assert_eq!(d.minute, 30);
}

#[test]
fn parses_date_only_defaults_to_9am() {
    let d = parse_due("2026-05-20").unwrap();
    assert_eq!(d.hour, 9);
    assert_eq!(d.minute, 0);
}

#[test]
fn rejects_invalid_due() {
    assert!(parse_due("not-a-date").is_err());
}

#[test]
fn datetime_errors_name_the_first_bad_field() {
    assert_eq!(parse_datetime("not-a-date").unwrap_err(), DateError::Year);
    assert_eq!(parse_datetime("2026").unwrap_err(), DateError::MissingDatePart);
    assert_eq!(parse_datetime("2026-05").unwrap_err(), DateError::MissingDatePart);
    assert_eq!(parse_datetime("2026-x-01").unwrap_err(), DateError::Month);
    assert_eq!(parse_datetime("2026-05-").unwrap_err(), DateError::Day);
    assert_eq!(parse_datetime("2026-05-20 14").unwrap_err(), DateError::MissingTimePart);
    assert_eq!(parse_datetime("2026-05-20 x:30").unwrap_err(), DateError::Hour);
    assert_eq!(parse_datetime("2026-05-20 14:").unwrap_err(), DateError::Minute);
    assert_eq!(parse_datetime("2026-05-20 -1:00").unwrap_err(), DateError::Hour);
    assert_eq!(parse_datetime("99999999999-05-20").unwrap_err(), DateError::Year);
    assert_eq!(parse_datetime("2026-4294967296-20").unwrap_err(), DateError::Month);
}

#[test]
fn datetime_accepts_what_str_parse_accepts() {
    let d = parse_datetime("+2026-+05-007 +9:05:59-extra").unwrap();
    assert_eq!((d.year, d.month, d.day, d.hour, d.minute), (2026, 5, 7, 9, 5));
    let d = parse_datetime("2026-05-20-31 23:59").unwrap();
    assert_eq!((d.year, d.month, d.day, d.hour, d.minute), (2026, 5, 20, 23, 59));
    let d = parse_datetime("2026-4294967295-0").unwrap();
    assert_eq!(d.month, 4294967295);
    let d = parse_datetime("2147483647-1-1").unwrap();
    assert_eq!(d.year, 2147483647);
    assert!(parse_datetime("2147483648-1-1").is_err());
}

#[test]
fn due_and_datetime_read_alike_but_for_the_default_hour() {
    for s in ["2026-05-20", "2026-05-20 14:30", "2026-05", "x", "2026-05-20 7:5"] {
        let a = parse_datetime(s);
        let b = parse_due(s);
        match (a, b) {
            (Ok(a), Ok(b)) => {
                assert_eq!((a.year, a.month, a.day, a.minute), (b.year, b.month, b.day, b.minute));
                if s.contains(' ') {
                    assert_eq!(a.hour, b.hour);
                } else {
                    assert_eq!((a.hour, b.hour), (0, 9));
                }
            }
            (Err(a), Err(b)) => assert_eq!(a, b),
            _ => panic!("parse_datetime and parse_due disagree on {s}"),
        }
    }
}

fn templated_applescript_date(var: &str, d: DateTimeParts) -> String {
    format!(
        r#"set {var} to current date
    set day of {var} to 1
    set year of {var} to {y}
    set month of {var} to {m}
    set day of {var} to {dd}
    set hours of {var} to {h}
    set minutes of {var} to {mm}
    set seconds of {var} to 0
"#,
        y = d.year,
        m = d.month,
        dd = d.day,
        h = d.hour,
        mm = d.minute
    )
}

#[test]
fn applescript_date_sets_each_field() {
    let d = DateTimeParts { year: 2026, month: 5, day: 20, hour: 14, minute: 30 };
    let s = applescript_date("startDate", d);
    assert_eq!(s, templated_applescript_date("startDate", d));
    assert!(s.contains("set year of startDate to 2026\n"));
    // The day is set to 1 before the year and the month, so that no month
    // rolls over, and only then to its own value.
    let first = s.find("set day of startDate to 1\n").unwrap();
    assert!(first < s.find("set year of").unwrap());
    assert!(s.find("set month of").unwrap() < s.find("set day of startDate to 20\n").unwrap());
    let d = DateTimeParts { year: -45, month: 0, day: 4294967295, hour: 10, minute: 9 };
    assert_eq!(applescript_date("x", d), templated_applescript_date("x", d));
}
