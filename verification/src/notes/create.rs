//! Creating a note: body, title and the script that makes it.
use vstd::prelude::*;
use vstd::string::*;
use crate::applescript::{escaped, push_escaped};
use crate::error::Error;
use crate::markdown::{MARKDOWN_OPTIONS, commonmark_html, to_html};
use crate::paths::{file_name, file_stem_of, path_file_name, stem_and_extension};
use crate::text::{
    char_views, chars_of, lines_of, opt_string_view, opt_view, slice_chars, split_lines, starts_with, starts_with_at, string_from, string_of_range, trim,
    trim_bounds, trim_start, white_space,
};

verus! {

broadcast use vstd::string::group_string_axioms;

pub struct CreateOptions {
    /// Path of a markdown file whose text becomes the body.
    pub markdown_file: Option<String>,
    pub html_body: Option<String>,
    /// The markdown text comes from stdin.
    pub stdin: bool,
    pub folder: Option<String>,
    pub title: Option<String>,
}

/// The heading text of a markdown line at `level` (1 or 2): after
/// trimming, a line that starts with `# ` (level 1) or `## ` (level 2) is
/// such a heading, and its text is the rest, trimmed.
pub open spec fn heading_of(line: Seq<char>, level: nat) -> Option<Seq<char>> {
    let t = trim(line);
    if level == 1 && t.len() >= 2 && t[0] == '#' && t[1] == ' ' {
        Some(trim(t.skip(2)))
    } else if level == 2 && t.len() >= 3 && t[0] == '#' && t[1] == '#' && t[2] == ' ' {
        Some(trim(t.skip(3)))
    } else {
        None
    }
}

/// The heading text of the first line that is a heading at `level`.
pub open spec fn first_heading_at(lines: Seq<Seq<char>>, level: nat) -> Option<Seq<char>>
    decreases lines.len(),
{
    if lines.len() == 0 {
        None
    } else {
        match heading_of(lines[0], level) {
            Some(h) => Some(h),
            None => first_heading_at(lines.drop_first(), level),
        }
    }
}

/// The title of a markdown text: its first `# ` heading, or, when it has
/// none, its first `## ` heading.
pub open spec fn first_heading(lines: Seq<Seq<char>>) -> Option<Seq<char>> {
    match first_heading_at(lines, 1) {
        Some(h) => Some(h),
        None => first_heading_at(lines, 2),
    }
}

/// The text of the first heading at `level` (1 or 2) among `lines`.
fn find_heading(lines: &Vec<Vec<char>>, level: usize) -> (heading: Option<String>)
    requires
        level == 1 || level == 2,
    ensures
        opt_string_view(heading) == first_heading_at(char_views(lines@), level as nat),
{
    let ghost all = char_views(lines@);
    let mut i: usize = 0;
    assert(all.skip(0) =~= all);
    while i < lines.len()
        invariant
            all == char_views(lines@),
            level == 1 || level == 2,
            0 <= i <= lines.len(),
            first_heading_at(all, level as nat) == first_heading_at(all.skip(i as int), level as nat),
        decreases lines.len() - i,
    {
        let line = &lines[i];
        assert(all.skip(i as int)[0] == line@);
        assert(all.skip(i as int).drop_first() =~= all.skip(i + 1));
        let (a, b) = trim_bounds(line, 0, line.len());
        assert(line@.subrange(0, line@.len() as int) =~= line@);
        let t = slice_chars(line, a, b);
        if level == 1 && t.len() >= 2 && t[0] == '#' && t[1] == ' ' {
            let (c, d) = trim_bounds(&t, 2, t.len());
            assert(t@.subrange(2, t@.len() as int) =~= t@.skip(2));
            return Some(string_of_range(&t, c, d));
        }
        if level == 2 && t.len() >= 3 && t[0] == '#' && t[1] == '#' && t[2] == ' ' {
            let (c, d) = trim_bounds(&t, 3, t.len());
            assert(t@.subrange(3, t@.len() as int) =~= t@.skip(3));
            return Some(string_of_range(&t, c, d));
        }
        i = i + 1;
    }
    assert(all.skip(lines.len() as int) =~= Seq::<Seq<char>>::empty());
    None
}

/// The title a markdown text gives: its first `# ` heading, else its first
/// `## ` heading.
pub fn extract_first_heading(md: &str) -> (heading: Option<String>)
    ensures
        opt_string_view(heading) == first_heading(lines_of(md@)),
{
    let lines = split_lines(md);
    match find_heading(&lines, 1) {
        Some(h) => Some(h),
        None => find_heading(&lines, 2),
    }
}

/// The title a markdown file's name gives: the stem of its file name.
pub open spec fn stem_title_spec(path: Seq<char>) -> Option<Seq<char>> {
    match path_file_name(path) {
        Some(name) => Some(file_stem_of(name)),
        None => None,
    }
}

/// The file stem of `path`, used as a title.
pub fn stem_title(path: &str) -> (title: Option<String>)
    ensures
        opt_string_view(title) == stem_title_spec(path@),
{
    match file_name(path) {
        Some(name) => {
            let (stem, _ext) = stem_and_extension(name.as_str());
            Some(stem)
        },
        None => None,
    }
}

/// What one character becomes in HTML text: `&`, `<` and `>` become
/// entities, everything else stays.
pub open spec fn html_escape_char(c: char) -> Seq<char> {
    if c == '&' {
        "&amp;"@
    } else if c == '<' {
        "&lt;"@
    } else if c == '>' {
        "&gt;"@
    } else {
        seq![c]
    }
}

/// `html_escape_char` as a function value.
pub open spec fn html_escape_fn() -> spec_fn(char) -> Seq<char> {
    |c: char| html_escape_char(c)
}

/// `s` with `&`, `<` and `>` replaced by their entities.
pub open spec fn html_escaped(s: Seq<char>) -> Seq<char> {
    s.flat_map(html_escape_fn())
}

/// HTML-escaped text holds no `<` and no `>`, so a title cannot open or
/// close an element of the note.
pub proof fn lemma_html_escaped_has_no_tags(s: Seq<char>)
    ensures
        crate::text::lacks(html_escaped(s), '<'),
        crate::text::lacks(html_escaped(s), '>'),
    decreases s.len(),
{
    if s.len() > 0 {
        let p = s.drop_last();
        lemma_html_escaped_has_no_tags(p);
        s.lemma_flat_map_take_append(html_escape_fn(), s.len() - 1);
        assert(s.take(s.len() - 1) =~= p);
        assert(s.take(s.len() as int) =~= s);
        let tail = html_escape_char(s.last());
        reveal_strlit("&amp;");
        reveal_strlit("&lt;");
        reveal_strlit("&gt;");
        assert(crate::text::lacks(tail, '<') && crate::text::lacks(tail, '>'));
        let whole = html_escaped(p) + tail;
        assert forall|j: int| 0 <= j < whole.len() implies #[trigger] whole[j] != '<' && whole[j] != '>' by {
            if j < html_escaped(p).len() {
                assert(whole[j] == html_escaped(p)[j]);
            } else {
                assert(whole[j] == tail[j - html_escaped(p).len()]);
            }
        }
    }
}

/// Escape `&`, `<` and `>` for HTML text.
pub fn html_escape(s: &str) -> (out: String)
    ensures
        out@ == html_escaped(s@),
{
    let cs = chars_of(s);
    let mut out = String::new();
    let mut i: usize = 0;
    assert(cs@.take(0).flat_map(html_escape_fn()) =~= Seq::<char>::empty());
    while i < cs.len()
        invariant
            0 <= i <= cs.len(),
            cs@ == s@,
            out@ == cs@.take(i as int).flat_map(html_escape_fn()),
        decreases cs.len() - i,
    {
        let c = cs[i];
        proof {
            cs@.lemma_flat_map_take_append(html_escape_fn(), i as int);
        }
        if c == '&' {
            out.append("&amp;");
        } else if c == '<' {
            out.append("&lt;");
        } else if c == '>' {
            out.append("&gt;");
        } else {
            crate::text::push_char(&mut out, c);
        }
        assert(out@ =~= cs@.take(i + 1).flat_map(html_escape_fn()));
        i = i + 1;
    }
    assert(cs@.take(cs.len() as int) =~= cs@);
    out
}

/// The body, once leading white space is skipped, already starts with an
/// `<h1>` element.
pub open spec fn has_leading_h1(html: Seq<char>) -> bool {
    let t = trim_start(html);
    starts_with(t, "<h1>"@) || starts_with(t, "<h1 "@)
}

/// The body with the title as a leading `<h1>`, unless there is no title or
/// the body already starts with an `<h1>`.
pub open spec fn titled_body(html: Seq<char>, title: Option<Seq<char>>) -> Seq<char> {
    match title {
        None => html,
        Some(t) => if has_leading_h1(html) {
            html
        } else {
            "<h1>"@ + html_escaped(t) + "</h1>"@ + html
        },
    }
}

/// Apple Notes takes the displayed title from the first line of the body,
/// so a title is put first as an `<h1>` (HTML-escaped) unless the body
/// already starts with one.
pub fn ensure_title_in_body(html: &str, title: Option<&str>) -> (body: String)
    ensures
        body@ == titled_body(html@, opt_view(title)),
{
    match title {
        None => string_from(html),
        Some(t) => {
            let cs = chars_of(html);
            let (a, _b) = trim_bounds(&cs, 0, cs.len());
            proof {
                assert(cs@.subrange(0, cs@.len() as int) =~= cs@);
                assert(cs@.subrange(a as int, cs@.len() as int) =~= cs@.skip(a as int));
            }
            if starts_with_at(&cs, a, "<h1>") || starts_with_at(&cs, a, "<h1 ") {
                string_from(html)
            } else {
                let mut out = String::new();
                out.append("<h1>");
                let e = html_escape(t);
                out.append(e.as_str());
                out.append("</h1>");
                out.append(html);
                out
            }
        },
    }
}

/// Prepending the title is idempotent: a body that `ensure_title_in_body`
/// returned is returned unchanged by a second call with the same title.
pub proof fn lemma_titled_body_idempotent(html: Seq<char>, title: Option<Seq<char>>)
    ensures
        titled_body(titled_body(html, title), title) == titled_body(html, title),
{
    match title {
        None => {},
        Some(t) => {
            if !has_leading_h1(html) {
                let r = "<h1>"@ + html_escaped(t) + "</h1>"@ + html;
                reveal_strlit("<h1>");
                assert(r[0] == '<');
                assert(!white_space(r[0]));
                assert(trim_start(r) == r);
                assert(r.take(4) =~= "<h1>"@);
            }
        },
    }
}

/// The script that makes a note with body `body`, in the folder `folder`
/// (made when missing) or the default one, and returns the note's id.
pub open spec fn create_script(body: Seq<char>, folder: Option<Seq<char>>) -> Seq<char> {
    match folder {
        Some(name) => "\ntell application \"Notes\"\n    set folderName to \""@ + escaped(name)
            + "\"\n    set targetFolder to missing value\n    repeat with f in folders\n        if name of f is folderName then\n            set targetFolder to f\n            exit repeat\n        end if\n    end repeat\n    if targetFolder is missing value then\n        set targetFolder to make new folder with properties {name:folderName}\n    end if\n    tell targetFolder\n        set newNote to make new note with properties {body:\""@
            + escaped(body) + "\"}\n    end tell\n    return id of newNote\nend tell\n"@,
        None => "\ntell application \"Notes\"\n    set newNote to make new note with properties {body:\""@
            + escaped(body) + "\"}\n    return id of newNote\nend tell\n"@,
    }
}

/// The script that makes the note; see `create_script`.
pub fn build_create_script(html_body: &str, folder: Option<&str>) -> (script: String)
    ensures
        script@ == create_script(html_body@, opt_view(folder)),
{
    let mut out = String::new();
    match folder {
        Some(name) => {
            out.append("\ntell application \"Notes\"\n    set folderName to \"");
            push_escaped(&mut out, name);
            out.append(
                "\"\n    set targetFolder to missing value\n    repeat with f in folders\n        if name of f is folderName then\n            set targetFolder to f\n            exit repeat\n        end if\n    end repeat\n    if targetFolder is missing value then\n        set targetFolder to make new folder with properties {name:folderName}\n    end if\n    tell targetFolder\n        set newNote to make new note with properties {body:\"",
            );
            push_escaped(&mut out, html_body);
            out.append("\"}\n    end tell\n    return id of newNote\nend tell\n");
        },
        None => {
            out.append("\ntell application \"Notes\"\n    set newNote to make new note with properties {body:\"");
            push_escaped(&mut out, html_body);
            out.append("\"}\n    return id of newNote\nend tell\n");
        },
    }
    out
}

/// Where the markdown text of a body is read from.
#[derive(Debug)]
pub enum MarkdownSource {
    Stdin,
    File(String),
}

/// Where to read markdown from: nothing when an HTML body is given, else
/// stdin when asked, else the markdown file when one is named.
pub fn markdown_source(html_body: &Option<String>, stdin: bool, markdown_file: &Option<String>) -> (source: Option<MarkdownSource>)
    ensures
        html_body is Some ==> source is None,
        html_body is None && stdin ==> source matches Some(MarkdownSource::Stdin),
        html_body is None && !stdin ==> match markdown_file {
            Some(p) => source matches Some(MarkdownSource::File(q)) && q@ == p@,
            None => source is None,
        },
{
    if html_body.is_some() {
        None
    } else if stdin {
        Some(MarkdownSource::Stdin)
    } else {
        match markdown_file {
            Some(p) => Some(MarkdownSource::File(string_from(p.as_str()))),
            None => None,
        }
    }
}

/// `a`, or `b` when `a` is `None`.
pub open spec fn or_else(a: Option<Seq<char>>, b: Option<Seq<char>>) -> Option<Seq<char>> {
    match a {
        Some(x) => Some(x),
        None => b,
    }
}

/// The HTML body and the title it gives, from the options and the markdown
/// text read from where `markdown_source` says: an HTML body is taken as it is, with no title; markdown
/// is rendered, and titled by its first `# ` heading, else its first `## `
/// heading, or for a file by the
/// file's stem. `None` when nothing supplies a body.
pub open spec fn resolved_body(opts: CreateOptions, markdown: Option<Seq<char>>) -> Option<
    (Seq<char>, Option<Seq<char>>),
> {
    match opts.html_body {
        Some(h) => Some((h@, None)),
        None => if opts.stdin {
            match markdown {
                Some(md) => Some(
                    (commonmark_html(md, MARKDOWN_OPTIONS), first_heading(lines_of(md))),
                ),
                None => None,
            }
        } else {
            match (opts.markdown_file, markdown) {
                (Some(path), Some(md)) => Some(
                    (
                        commonmark_html(md, MARKDOWN_OPTIONS),
                        or_else(first_heading(lines_of(md)), stem_title_spec(path@)),
                    ),
                ),
                _ => None,
            }
        },
    }
}

/// Where a note's body and title come from: an HTML body is taken as it is,
/// with no title; markdown, from stdin or a file, is rendered, and its title
/// is its first heading (a `# ` heading before any `## `), whatever the file
/// is named. The file's stem is the title only when the markdown has no
/// heading; markdown from stdin with no heading has no title. Nothing
/// supplies a body when there is no HTML body and no markdown was read, or
/// when neither stdin nor a markdown file is asked for.
pub proof fn law_heading_titles_before_file_stem(opts: CreateOptions, markdown: Option<Seq<char>>)
    ensures
        opts.html_body matches Some(h) ==> resolved_body(opts, markdown) == Some(
            (h@, None::<Seq<char>>),
        ),
        opts.html_body is None ==> (resolved_body(opts, markdown) is None <==> (markdown is None || (
        !opts.stdin && opts.markdown_file is None))),
        opts.html_body is None && markdown is Some && (opts.stdin || opts.markdown_file is Some) ==> {
            let md = markdown->Some_0;
            let r = resolved_body(opts, markdown)->Some_0;
            &&& resolved_body(opts, markdown) is Some
            &&& r.0 == commonmark_html(md, MARKDOWN_OPTIONS)
            &&& first_heading(lines_of(md)) is Some ==> r.1 == first_heading(lines_of(md))
            &&& first_heading(lines_of(md)) is None ==> r.1 == (if opts.stdin {
                None
            } else {
                stem_title_spec(opts.markdown_file->Some_0@)
            })
        },
{
}

/// The note's HTML body and derived title; see `resolved_body`.
pub fn resolve_body(opts: &CreateOptions, markdown: Option<&str>) -> (r: Result<(String, Option<String>), Error>)
    ensures
        match r {
            Ok((html, title)) => resolved_body(*opts, opt_view(markdown)) == Some(
                (html@, opt_string_view(title)),
            ),
            Err(e) => resolved_body(*opts, opt_view(markdown)) is None && e == Error::MissingBody,
        },
{
    if let Some(html) = &opts.html_body {
        return Ok((string_from(html.as_str()), None));
    }
    if opts.stdin {
        return match markdown {
            Some(md) => Ok((to_html(md), extract_first_heading(md))),
            None => Err(Error::MissingBody),
        };
    }
    match (&opts.markdown_file, markdown) {
        (Some(path), Some(md)) => {
            let html = to_html(md);
            let derived = match extract_first_heading(md) {
                Some(h) => Some(h),
                None => stem_title(path.as_str()),
            };
            Ok((html, derived))
        },
        _ => Err(Error::MissingBody),
    }
}

/// The script that creates the note the options describe: an explicit
/// title wins over the derived one, and is put first as an `<h1>` unless
/// the body starts with one. `None` when nothing supplies a body.
pub open spec fn create_note_script(opts: CreateOptions, markdown: Option<Seq<char>>) -> Option<Seq<char>> {
    match resolved_body(opts, markdown) {
        None => None,
        Some((html, derived)) => {
            let title = match opts.title {
                Some(t) => Some(t@),
                None => derived,
            };
            Some(create_script(titled_body(html, title), opt_string_view(opts.folder)))
        },
    }
}

/// Create a new Apple Note: the script that makes it and returns its id
/// (e.g. `x-coredata://...`). `markdown` is the text read from stdin when
/// `opts.stdin` is set, else from `opts.markdown_file`.
pub fn create_note(opts: &CreateOptions, markdown: Option<&str>) -> (r: Result<String, Error>)
    ensures
        match create_note_script(*opts, opt_view(markdown)) {
            Some(s) => r matches Ok(script) && script@ == s,
            None => r == Err::<String, Error>(Error::MissingBody),
        },
{
    let (html_body, derived_title) = match resolve_body(opts, markdown) {
        Ok(b) => b,
        Err(e) => {
            return Err(e);
        },
    };
    let title: Option<String> = match &opts.title {
        Some(t) => Some(string_from(t.as_str())),
        None => derived_title,
    };
    let final_body = match &title {
        Some(t) => ensure_title_in_body(html_body.as_str(), Some(t.as_str())),
        None => ensure_title_in_body(html_body.as_str(), None),
    };
    let script = match &opts.folder {
        Some(f) => build_create_script(final_body.as_str(), Some(f.as_str())),
        None => build_create_script(final_body.as_str(), None),
    };
    Ok(script)
}

} // verus!
