use appleappscli::error::Error;
use appleappscli::markdown::to_html;
use appleappscli::notes::append::{AppendOptions, append_note};
use appleappscli::notes::create::{
    CreateOptions, MarkdownSource, build_create_script, markdown_source, create_note, ensure_title_in_body, extract_first_heading,
    html_escape, resolve_body, stem_title,
};
use appleappscli::notes::{attach_image, list_notes, move_note, read_note};
use appleappscli::applescript::escape_string;

#[test]
fn first_heading_extracted() {
    let md = "Random preamble\n\n# Real Title\n\nbody";
    assert_eq!(extract_first_heading(md).as_deref(), Some("Real Title"));
}

#[test]
fn second_heading_used_if_no_h1() {
    let md = "## Just H2\n\nbody";
    assert_eq!(extract_first_heading(md).as_deref(), Some("Just H2"));
}

#[test]
fn title_prepended_when_missing() {
    let body = "<p>hello</p>";
    let out = ensure_title_in_body(body, Some("My Title"));
    assert!(out.starts_with("<h1>My Title</h1>"));
}

#[test]
fn title_not_double_prepended() {
    let body = "<h1>Existing</h1><p>x</p>";
    let out = ensure_title_in_body(body, Some("My Title"));
    assert_eq!(out, body);
}

#[test]
fn html_escapes_unsafe_title_chars() {
    let body = "<p>x</p>";
    let out = ensure_title_in_body(body, Some("A & B <c>"));
    assert!(out.starts_with("<h1>A &amp; B &lt;c&gt;</h1>"));
}

#[test]
fn headings_edge_cases() {
    assert_eq!(extract_first_heading("no heading\n#nospace\n"), None);
    assert_eq!(extract_first_heading("   #   Spaced   \n# second"), Some("Spaced".to_string()));
    assert_eq!(extract_first_heading("### Deep\n## Two"), Some("Two".to_string()));
    assert_eq!(extract_first_heading("# \n## x"), Some("x".to_string()));
    assert_eq!(extract_first_heading(""), None);
    assert_eq!(extract_first_heading("## Sub\n\n# Main\n").as_deref(), Some("Main"));
    assert_eq!(extract_first_heading("## A\n## B\n").as_deref(), Some("A"));
}

#[test]
fn title_handling_edge_cases() {
    assert_eq!(ensure_title_in_body("<p>x</p>", None), "<p>x</p>");
    assert_eq!(ensure_title_in_body("  \n<h1 class=\"t\">T</h1>", Some("U")), "  \n<h1 class=\"t\">T</h1>");
    assert_eq!(ensure_title_in_body("", Some("T")), "<h1>T</h1>");
    let once = ensure_title_in_body("<p>x</p>", Some("T & <b>"));
    assert_eq!(ensure_title_in_body(&once, Some("T & <b>")), once);
    assert_eq!(html_escape("a<b>&c"), "a&lt;b&gt;&amp;c");
    assert!(!html_escape("<<>>").contains('<'));
}

#[test]
fn stems_of_markdown_files() {
    assert_eq!(stem_title("notes/today.md").as_deref(), Some("today"));
    assert_eq!(stem_title("archive.tar.gz").as_deref(), Some("archive.tar"));
    assert_eq!(stem_title("/x/.hidden").as_deref(), Some(".hidden"));
    assert_eq!(stem_title("plain").as_deref(), Some("plain"));
    assert_eq!(stem_title("dir/").as_deref(), Some("dir"));
    assert_eq!(stem_title("a/..").as_deref(), None);
    assert_eq!(stem_title("/").as_deref(), None);
    assert_eq!(stem_title("a/b.txt/.").as_deref(), Some("b"));
    assert_eq!(stem_title("../up.md").as_deref(), Some("up"));
    assert_eq!(stem_title(".").as_deref(), None);
}

fn create_opts(markdown_file: Option<&str>, html_body: Option<&str>, stdin: bool, folder: Option<&str>, title: Option<&str>) -> CreateOptions {
    CreateOptions {
        markdown_file: markdown_file.map(String::from),
        html_body: html_body.map(String::from),
        stdin,
        folder: folder.map(String::from),
        title: title.map(String::from),
    }
}

#[test]
fn body_and_title_sources() {
    let html = resolve_body(&create_opts(None, Some("<p>h</p>"), false, None, None), None).unwrap();
    assert_eq!(html, ("<p>h</p>".to_string(), None));
    let md = "# T\n\nbody";
    let (h, t) = resolve_body(&create_opts(None, None, true, None, None), Some(md)).unwrap();
    assert_eq!((h, t), (to_html(md), Some("T".to_string())));
    let (_, t) = resolve_body(&create_opts(Some("dir/file name.md"), None, false, None, None), Some("no heading")).unwrap();
    assert_eq!(t.as_deref(), Some("file name"));
    let (_, t) = resolve_body(&create_opts(None, None, true, None, None), Some("no heading")).unwrap();
    assert_eq!(t, None);
    assert_eq!(resolve_body(&create_opts(None, None, false, None, None), None), Err(Error::MissingBody));
    assert_eq!(resolve_body(&create_opts(None, None, true, None, None), None), Err(Error::MissingBody));
}

fn templated_create_script(html_body: &str, folder: Option<&str>) -> String {
    let body_lit = escape_string(html_body);
    match folder {
        Some(name) => {
            let folder_lit = escape_string(name);
            format!(
                r#"
tell application "Notes"
    set folderName to "{folder_lit}"
    set targetFolder to missing value
    repeat with f in folders
        if name of f is folderName then
            set targetFolder to f
            exit repeat
        end if
    end repeat
    if targetFolder is missing value then
        set targetFolder to make new folder with properties {{name:folderName}}
    end if
    tell targetFolder
        set newNote to make new note with properties {{body:"{body_lit}"}}
    end tell
    return id of newNote
end tell
"#
            )
        }
        None => format!(
            r#"
tell application "Notes"
    set newNote to make new note with properties {{body:"{body_lit}"}}
    return id of newNote
end tell
"#
        ),
    }
}

#[test]
fn create_scripts_match_the_template() {
    assert_eq!(build_create_script("<p class=\"a\">x</p>", Some("My \"F\"")), templated_create_script("<p class=\"a\">x</p>", Some("My \"F\"")));
    assert_eq!(build_create_script("b\\", None), templated_create_script("b\\", None));
    let opts = create_opts(None, None, true, Some("Inbox"), Some("Override"));
    let md = "# Derived\n\ntext";
    let script = create_note(&opts, Some(md)).unwrap();
    let body = ensure_title_in_body(&to_html(md), Some("Override"));
    assert_eq!(script, templated_create_script(&body, Some("Inbox")));
    assert_eq!(create_note(&create_opts(None, None, false, None, None), None), Err(Error::MissingBody));
}

#[test]
fn other_note_scripts_match_the_templates() {
    let id = "x-coredata://\"1\"";
    let id_lit = escape_string(id);
    let body_lit = escape_string("<p>more</p>");
    let expected = format!(
        r#"
tell application "Notes"
    set n to first note whose id is "{id_lit}"
    set body of n to ((body of n) & "{body_lit}")
end tell
"#
    );
    let opts = AppendOptions { id: id.to_string(), markdown_file: None, html_body: Some("<p>more</p>".to_string()), stdin: false };
    assert_eq!(append_note(&opts, None).unwrap(), expected);
    let none = AppendOptions { id: id.to_string(), markdown_file: None, html_body: None, stdin: false };
    assert_eq!(append_note(&none, Some("ignored")), Err(Error::MissingBody));
    let from_file = AppendOptions { id: id.to_string(), markdown_file: Some("x.md".to_string()), html_body: None, stdin: false };
    assert!(append_note(&from_file, Some("*hi*")).unwrap().contains(&escape_string(&to_html("*hi*"))));

    let path_lit = escape_string("/tmp/a \"b\".png");
    assert_eq!(
        attach_image(id, "/tmp/a \"b\".png"),
        format!(
            r#"
tell application "Notes"
    set n to first note whose id is "{id_lit}"
    make new attachment at end of attachments of n with data POSIX file "{path_lit}"
end tell
"#
        )
    );
    assert_eq!(
        read_note(id),
        format!(
            r#"
tell application "Notes"
    set n to first note whose id is "{id_lit}"
    return body of n
end tell
"#
        )
    );
    let folder_lit = escape_string("Arch\"ive");
    assert_eq!(
        move_note(id, "Arch\"ive"),
        format!(
            r#"
tell application "Notes"
    set targetFolder to missing value
    repeat with f in folders
        if name of f is "{folder_lit}" then
            set targetFolder to f
            exit repeat
        end if
    end repeat
    if targetFolder is missing value then
        set targetFolder to make new folder with properties {{name:"{folder_lit}"}}
    end if
    set n to first note whose id is "{id_lit}"
    move n to targetFolder
end tell
"#
        )
    );
    assert_eq!(
        list_notes(Some("Arch\"ive")),
        format!(
            r#"
tell application "Notes"
    set out to ""
    repeat with f in folders
        if name of f is "{folder_lit}" then
            repeat with n in notes of f
                set out to out & (id of n) & tab & (name of n) & linefeed
            end repeat
            exit repeat
        end if
    end repeat
    return out
end tell
"#
        )
    );
    assert_eq!(
        list_notes(None),
        r#"
tell application "Notes"
    set out to ""
    repeat with n in notes
        set out to out & (id of n) & tab & (name of n) & linefeed
    end repeat
    return out
end tell
"#
    );
}

#[test]
fn markdown_is_read_from_stdin_before_a_file() {
    let file = Some("a.md".to_string());
    assert!(markdown_source(&Some("<p/>".to_string()), true, &file).is_none());
    assert!(matches!(markdown_source(&None, true, &file), Some(MarkdownSource::Stdin)));
    assert!(matches!(markdown_source(&None, false, &file), Some(MarkdownSource::File(p)) if p == "a.md"));
    assert!(markdown_source(&None, false, &None).is_none());
}
