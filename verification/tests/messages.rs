use appleappscli::applescript::escape_string;
use appleappscli::messages::chatdb::{ChatRow, MessageRow, cocoa_to_unix_seconds, oldest_first};
use appleappscli::messages::{list, read, send_message};

#[test]
fn cocoa_seconds_form() {
    // 2026-05-16 00:00:00 UTC ≈ Cocoa seconds 769305600
    let unix = cocoa_to_unix_seconds(769305600);
    assert_eq!(unix, 769305600 + 978_307_200);
}

#[test]
fn cocoa_nanoseconds_form() {
    // Same date in nanoseconds
    let unix = cocoa_to_unix_seconds(769_305_600_000_000_000);
    assert_eq!(unix, 769_305_600 + 978_307_200);
}

#[test]
fn cocoa_edge_values() {
    assert_eq!(cocoa_to_unix_seconds(0), 978_307_200);
    assert_eq!(cocoa_to_unix_seconds(1_000_000_000_000), 1_000_000_000_000 + 978_307_200);
    assert_eq!(cocoa_to_unix_seconds(1_000_000_000_001), 1000 + 978_307_200);
    assert_eq!(cocoa_to_unix_seconds(-1_500_000_000_000), -1500 + 978_307_200);
    assert_eq!(cocoa_to_unix_seconds(-1_999_999_999_999), -1999 + 978_307_200);
    assert_eq!(cocoa_to_unix_seconds(i64::MAX), i64::MAX / 1_000_000_000 + 978_307_200);
    assert_eq!(cocoa_to_unix_seconds(-5_000), cocoa_to_unix_seconds(-5_000_000_000_000));
}

fn chat(display: &str, text: &str) -> ChatRow {
    ChatRow {
        guid: "g".to_string(),
        chat_identifier: "+15551234567".to_string(),
        display_name: display.to_string(),
        last_message_cocoa: 0,
        last_message_text: text.to_string(),
    }
}

#[test]
fn chat_lines_are_single_short_lines() {
    let long: String = std::iter::repeat("é").take(100).collect();
    let chats = vec![chat("", "hi\nthere\tyou\r"), chat("Family", &long)];
    let when = vec!["2026-05-16 10:00:00".to_string(), "@0".to_string()];
    let lines = list(&chats, &when);
    assert_eq!(lines[0], "+15551234567\t-\t2026-05-16 10:00:00\thi there you ");
    let expected_preview: String = std::iter::repeat("é").take(80).collect();
    assert_eq!(lines[1], format!("+15551234567\tFamily\t@0\t{expected_preview}"));
}

fn msg(from_me: bool, sender: &str, text: &str, rowid: i64) -> MessageRow {
    MessageRow { rowid, date_cocoa: 0, is_from_me: from_me, sender: sender.to_string(), text: text.to_string() }
}

#[test]
fn message_lines_are_oldest_first_and_one_line() {
    let newest_first = vec![msg(true, "", "new\r\nline", 3), msg(false, "bob@x", "old\ttab", 1)];
    let rows = oldest_first(newest_first);
    assert_eq!(rows.iter().map(|r| r.rowid).collect::<Vec<_>>(), vec![1, 3]);
    let when = vec!["t1".to_string(), "t2".to_string()];
    let lines = read(&rows, &when);
    assert_eq!(lines, vec!["t1\tthem\tbob@x\told\ttab", "t2\tme\t-\tnew  line"]);
    assert!(oldest_first(Vec::new()).is_empty());
}

#[test]
fn send_message_script_matches_the_template() {
    let recip_lit = escape_string("+1 \"555\"");
    let text_lit = escape_string("Hi \\ there");
    let expected = format!(
        r#"
tell application "Messages"
    set targetService to missing value
    repeat with s in services
        if service type of s is iMessage then
            set targetService to s
            exit repeat
        end if
    end repeat
    if targetService is missing value then
        set targetService to first service
    end if
    set targetBuddy to buddy "{recip_lit}" of targetService
    send "{text_lit}" to targetBuddy
end tell
"#
    );
    assert_eq!(send_message("+1 \"555\"", "Hi \\ there"), expected);
}
