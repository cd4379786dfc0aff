//! The scripts the library builds, against the templates they follow.
use appleappscli::applescript::escape_string;
use appleappscli::calendar::{AddOptions, DateTimeParts, add_event, applescript_date, list_calendars, list_day};
use appleappscli::error::{DateError, Error};
use appleappscli::mail::{SendOptions, list_mailboxes, list_recent, send};
use appleappscli::reminders::create::{CreateOptions, parse_due};
use appleappscli::reminders::{complete_reminder, create_reminder, delete_reminder, list_reminders};
use appleappscli::terminal::{list_windows, new_tab, new_window, send_command};

fn add_opts(notes: Option<&str>, location: Option<&str>, start: &str) -> AddOptions {
    AddOptions {
        calendar: "Ho\"me".to_string(),
        title: "Doctor \\ appointment".to_string(),
        start: start.to_string(),
        end: "2026-05-20 15:00".to_string(),
        notes: notes.map(String::from),
        location: location.map(String::from),
    }
}

#[test]
fn add_event_script_matches_the_template() {
    let opts = add_opts(Some("Bring \"card\""), Some("123 Main St"), "2026-05-20 14:00");
    let start_setup = applescript_date("startDate", DateTimeParts { year: 2026, month: 5, day: 20, hour: 14, minute: 0 });
    let end_setup = applescript_date("endDate", DateTimeParts { year: 2026, month: 5, day: 20, hour: 15, minute: 0 });
    let cal_lit = escape_string(&opts.calendar);
    let title_lit = escape_string(&opts.title);
    let extra_props = format!(", description:\"{}\", location:\"{}\"", escape_string("Bring \"card\""), escape_string("123 Main St"));
    let expected = format!(
        r#"
tell application "Calendar"
    {start_setup}
    {end_setup}
    tell calendar "{cal_lit}"
        set newEvent to make new event with properties {{summary:"{title_lit}", start date:startDate, end date:endDate{extra_props}}}
        return uid of newEvent
    end tell
end tell
"#
    );
    assert_eq!(add_event(&opts).unwrap(), expected);
    let plain = add_event(&add_opts(None, None, "2026-05-20")).unwrap();
    assert!(plain.contains("end date:endDate}\n"));
    assert_eq!(add_event(&add_opts(None, None, "tomorrow")), Err(Error::Start(DateError::Year)));
    let mut bad_end = add_opts(None, None, "2026-05-20");
    bad_end.end = "2026-05".to_string();
    assert_eq!(add_event(&bad_end), Err(Error::End(DateError::MissingDatePart)));
}

#[test]
fn list_day_script_matches_the_template() {
    let start_setup = applescript_date("startDate", DateTimeParts { year: 2026, month: 5, day: 20, hour: 0, minute: 0 });
    for calendar in [Some("Wo\"rk"), None] {
        let cal_filter = match calendar {
            Some(name) => format!("set calList to (every calendar whose name is \"{}\")", escape_string(name)),
            None => "set calList to calendars".to_string(),
        };
        let expected = format!(
            r#"
tell application "Calendar"
    {start_setup}
    set endDate to startDate + (1 * days)
    {cal_filter}
    set out to ""
    repeat with c in calList
        repeat with e in ((events of c) whose start date is greater than or equal to startDate and start date is less than endDate)
            set s to start date of e
            set f to end date of e
            set out to out & (uid of e) & tab & (name of c) & tab & (s as «class isot» as string) & tab & (f as «class isot» as string) & tab & (summary of e) & linefeed
        end repeat
    end repeat
    return out
end tell
"#
        );
        assert_eq!(list_day("2026-05-20", calendar).unwrap(), expected);
    }
    assert_eq!(list_day("20-05", None), Err(Error::Date(DateError::MissingDatePart)));
}

#[test]
fn list_day_window_starts_at_midnight() {
    let with_time = list_day("2026-05-20 14:30", None).unwrap();
    assert_eq!(with_time, list_day("2026-05-20", None).unwrap());
    assert!(with_time.contains("set hours of startDate to 0\n"));
    assert!(with_time.contains("set minutes of startDate to 0\n"));
}

#[test]
fn due_date_sets_the_day_first() {
    let opts = CreateOptions {
        title: "Pay rent".to_string(),
        due: Some("2026-06-01".to_string()),
        notes: Some("Via Zelle".to_string()),
        list: None,
    };
    let s = create_reminder(&opts).unwrap();
    let first = s.find("set day of theDate to 1\n").unwrap();
    assert!(first < s.find("set year of theDate to 2026\n").unwrap());
    assert!(s.find("set month of theDate to 6\n").unwrap() < s.rfind("set day of theDate to 1\n").unwrap());
    assert!(s.contains("set time of theDate to (9 * hours + 0 * minutes)\n"));
}

#[test]
fn fixed_scripts_match_the_templates() {
    assert_eq!(
        list_calendars(),
        r#"
tell application "Calendar"
    set out to ""
    repeat with c in calendars
        set out to out & (name of c) & linefeed
    end repeat
    return out
end tell
"#
    );
    assert_eq!(
        list_mailboxes(),
        r#"
tell application "Mail"
    set out to ""
    repeat with a in accounts
        repeat with m in mailboxes of a
            set out to out & (name of a) & tab & (name of m) & linefeed
        end repeat
    end repeat
    return out
end tell
"#
    );
    assert_eq!(
        list_windows(),
        r#"
tell application "Terminal"
    set out to ""
    repeat with w in windows
        set wid to id of w as text
        set tabCount to (count of tabs of w) as text
        set ti to ""
        try
            set ti to custom title of selected tab of w
        end try
        if ti is missing value or ti is "" then set ti to "-"
        set tt to ""
        try
            set tt to tty of selected tab of w
        end try
        if tt is missing value then set tt to ""
        set out to out & wid & tab & tabCount & tab & ti & tab & tt & linefeed
    end repeat
    return out
end tell
"#
    );
}

#[test]
fn mail_scripts_match_the_templates() {
    let limit = 25u32;
    let expected = format!(
        r#"
with timeout of 300 seconds
    tell application "Mail"
        set out to ""
        repeat with a in accounts
            set acctName to name of a
            try
                set inboxMb to (mailbox "INBOX" of a)
            on error
                try
                    set inboxMb to (first mailbox of a whose name is "INBOX")
                on error
                    set inboxMb to missing value
                end try
            end try
            if inboxMb is not missing value then
                set msgs to messages of inboxMb
                set n to count of msgs
                if n > {limit} then set n to {limit}
                repeat with i from 1 to n
                    try
                        set m to item i of msgs
                        set mid to (id of m) as text
                        set mdate to ""
                        try
                            set mdate to (date received of m) as string
                        end try
                        set msender to ""
                        try
                            set msender to sender of m
                        end try
                        set msubject to ""
                        try
                            set msubject to subject of m
                        end try
                        set out to out & acctName & tab & mid & tab & mdate & tab & msender & tab & msubject & linefeed
                    end try
                end repeat
            end if
        end repeat
        return out
    end tell
end timeout
"#,
        limit = limit
    );
    assert_eq!(list_recent(limit), expected);

    let opts = SendOptions {
        to: vec!["alice@example.com".to_string(), "b\"ob@example.com".to_string()],
        cc: vec!["boss@example.com".to_string()],
        bcc: vec![],
        subject: "Status \"update\"".to_string(),
        body: "Hi \\ team".to_string(),
        from_account: Some("Work".to_string()),
    };
    let mut recipients_block = String::new();
    for addr in &opts.to {
        recipients_block.push_str(&format!(
            "        make new to recipient at end of to recipients with properties {{address:\"{}\"}}\n",
            escape_string(addr)
        ));
    }
    for addr in &opts.cc {
        recipients_block.push_str(&format!(
            "        make new cc recipient at end of cc recipients with properties {{address:\"{}\"}}\n",
            escape_string(addr)
        ));
    }
    let acc_lit = escape_string("Work");
    let from_clause = format!(
        "set sender of newMessage to (email addresses of (first account whose name is \"{acc_lit}\")) as string\n    "
    );
    let subject_lit = escape_string(&opts.subject);
    let body_lit = escape_string(&opts.body);
    let expected = format!(
        r#"
tell application "Mail"
    set newMessage to make new outgoing message with properties {{subject:"{subject_lit}", content:"{body_lit}", visible:false}}
    {from_clause}tell newMessage
{recipients_block}    end tell
    send newMessage
end tell
"#
    );
    assert_eq!(send(&opts), expected);
}

fn templated_reminder(title: &str, due: Option<&str>, notes: Option<&str>, list: Option<&str>) -> String {
    let title_lit = escape_string(title);
    let notes_clause = match notes {
        Some(n) => format!(", body:\"{}\"", escape_string(n)),
        None => String::new(),
    };
    let (date_setup, due_clause) = match due {
        Some(s) => {
            let d = parse_due(s).unwrap();
            let setup = format!(
                r#"
    set theDate to current date
    set day of theDate to 1
    set year of theDate to {y}
    set month of theDate to {m}
    set day of theDate to {dd}
    set time of theDate to ({h} * hours + {mm} * minutes)
"#,
                y = d.year,
                m = d.month,
                dd = d.day,
                h = d.hour,
                mm = d.minute
            );
            (setup, ", due date:theDate".to_string())
        }
        None => (String::new(), String::new()),
    };
    let target_clause = match list {
        Some(name) => format!("set targetList to first list whose name is \"{}\"", escape_string(name)),
        None => "set targetList to default list".to_string(),
    };
    format!(
        r#"
tell application "Reminders"
    {target_clause}
    {date_setup}
    tell targetList
        set newRem to make new reminder with properties {{name:"{title_lit}"{notes_clause}{due_clause}}}
    end tell
    return id of newRem
end tell
"#
    )
}

#[test]
fn reminder_scripts_match_the_templates() {
    for (title, due, notes, list) in [
        ("Buy \"milk\"", None, None, None),
        ("Submit report", Some("2026-05-20 14:30"), Some("Via \\ Zelle"), Some("Per\"sonal")),
        ("Call dentist", Some("2026-05-20"), None, Some("Personal")),
    ] {
        let opts = CreateOptions {
            title: title.to_string(),
            due: due.map(String::from),
            notes: notes.map(String::from),
            list: list.map(String::from),
        };
        assert_eq!(create_reminder(&opts).unwrap(), templated_reminder(title, due, notes, list));
    }
    let bad = CreateOptions { title: "x".to_string(), due: Some("soon".to_string()), notes: None, list: None };
    assert_eq!(create_reminder(&bad), Err(Error::Due(DateError::Year)));

    let id_lit = escape_string("x-apple-reminder://\"1\"");
    assert_eq!(
        complete_reminder("x-apple-reminder://\"1\""),
        format!(
            r#"
tell application "Reminders"
    set r to first reminder whose id is "{id_lit}"
    set completed of r to true
end tell
"#
        )
    );
    assert_eq!(
        delete_reminder("x-apple-reminder://\"1\""),
        format!(
            r#"
tell application "Reminders"
    set r to first reminder whose id is "{id_lit}"
    delete r
end tell
"#
        )
    );
    for (list, all) in [(Some("Wo\"rk"), true), (None, false)] {
        let target_clause = match list {
            Some(name) => format!("set targetList to first list whose name is \"{}\"", escape_string(name)),
            None => "set targetList to default list".to_string(),
        };
        let filter = if all {
            "reminders of targetList".to_string()
        } else {
            "(reminders of targetList whose completed is false)".to_string()
        };
        let expected = format!(
            r#"
tell application "Reminders"
    {target_clause}
    set out to ""
    repeat with r in {filter}
        set out to out & (id of r) & tab & (name of r) & tab & (completed of r as text) & linefeed
    end repeat
    return out
end tell
"#
        );
        assert_eq!(list_reminders(list, all), expected);
    }
}

#[test]
fn terminal_scripts_match_the_templates() {
    for command in [Some("ssh \"host\""), None] {
        let cmd_lit = escape_string(command.unwrap_or(""));
        assert_eq!(
            new_window(command),
            format!(
                r#"
tell application "Terminal"
    activate
    set w to do script "{cmd_lit}"
    return (id of (window 1) as text)
end tell
"#
            )
        );
        assert_eq!(
            new_tab(command),
            format!(
                r#"
tell application "Terminal"
    activate
    if (count windows) is 0 then
        do script "{cmd_lit}"
        return (id of front window) as text
    end if
end tell
tell application "System Events" to keystroke "t" using {{command down}}
delay 0.25
tell application "Terminal"
    do script "{cmd_lit}" in selected tab of front window
    return (id of front window) as text
end tell
"#
            )
        );
    }
    let cmd_lit = escape_string("git \"status\"");
    for (window, tab) in [(Some("12345"), Some(2u32)), (Some("12\"3"), None), (None, Some(3)), (None, None)] {
        let target = match (window, tab) {
            (Some(wid), Some(t)) => format!("tab {t} of (first window whose id is {})", escape_string(wid)),
            (Some(wid), None) => format!("selected tab of (first window whose id is {})", escape_string(wid)),
            (None, Some(t)) => format!("tab {t} of front window"),
            (None, None) => "selected tab of front window".to_string(),
        };
        let expected = format!(
            r#"
tell application "Terminal"
    do script "{cmd_lit}" in {target}
end tell
"#
        );
        assert_eq!(send_command(window, tab, "git \"status\""), expected);
    }
}
