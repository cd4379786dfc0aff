use appleappscli::applescript::escape_string;
use appleappscli::numbers::{fmt_u64, parse_u32};
use appleappscli::text::output_lines;

#[test]
fn escape_string_escapes_quotes_and_backslashes() {
    assert_eq!(escape_string(r#"say "hi" \ bye"#), r#"say \"hi\" \\ bye"#);
    assert_eq!(escape_string(""), "");
    assert_eq!(escape_string("<a href=\"x\">é</a>"), "<a href=\\\"x\\\">é</a>");
    assert_eq!(escape_string("\\n"), "\\\\n");
}

/// Reads an AppleScript string literal body up to its closing quote.
fn read_literal(t: &str) -> Option<(String, &str)> {
    let mut out = String::new();
    let mut it = t.char_indices();
    while let Some((i, c)) = it.next() {
        match c {
            '"' => return Some((out, &t[i + 1..])),
            '\\' => {
                let (_, e) = it.next()?;
                out.push(match e {
                    'n' => '\n',
                    't' => '\t',
                    'r' => '\r',
                    other => other,
                });
            }
            other => out.push(other),
        }
    }
    None
}

#[test]
fn escaped_literal_reads_back() {
    for s in ["plain", "a \"quoted\" word", "back\\slash\\", "\\\"", "\"; do shell script \"rm\"", ""] {
        let script = format!("{}\" & rest", escape_string(s));
        assert_eq!(read_literal(&script), Some((s.to_string(), " & rest")));
    }
}

#[test]
fn output_lines_keeps_nonblank_lines() {
    assert_eq!(output_lines("a\tb\n\n  \nc\r\nd"), vec!["a\tb", "c", "d"]);
    assert_eq!(output_lines(""), Vec::<String>::new());
    assert_eq!(output_lines("\n\n"), Vec::<String>::new());
    assert_eq!(output_lines(" x \n"), vec![" x "]);
    assert_eq!(output_lines("one\u{a0}\n\u{3000}\nlast\r"), vec!["one\u{a0}", "last\r"]);
}

#[test]
fn output_lines_matches_lines_filter() {
    for s in ["a\nb", "a\r\n\r\nb\n", "\t\n x\n\u{2028}", "no newline", "x\n\r\ny\r\r\n"] {
        let expected: Vec<String> = s
            .lines()
            .filter(|l| !l.trim().is_empty())
            .map(|l| l.to_string())
            .collect();
        assert_eq!(output_lines(s), expected);
    }
}

#[test]
fn numbers_read_and_write_like_std() {
    for s in ["0", "+7", "-7", "", "+", "4294967295", "4294967296", "007", "1_0", "٣"] {
        assert_eq!(parse_u32(s), s.parse::<u32>().ok());
    }
    for n in [0u64, 7, 10, 99, 100, 1234567890, u64::MAX] {
        assert_eq!(fmt_u64(n), n.to_string());
    }
}
