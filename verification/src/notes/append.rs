//! Appending to a note.
use vstd::prelude::*;
use vstd::string::*;
use crate::applescript::{escaped, push_escaped};
use crate::error::Error;
use crate::markdown::{MARKDOWN_OPTIONS, commonmark_html, to_html};
use crate::text::{opt_view, string_from};

verus! {

broadcast use vstd::string::group_string_axioms;

pub struct AppendOptions {
    pub id: String,
    /// Path of a markdown file whose text is appended.
    pub markdown_file: Option<String>,
    pub html_body: Option<String>,
    /// The markdown text comes from stdin.
    pub stdin: bool,
}

/// The HTML to append: the HTML body as it is, or the markdown read (from
/// stdin when `stdin` is set, else from `markdown_file`) rendered; `None`
/// when nothing supplies it.
pub open spec fn resolved_append_body(opts: AppendOptions, markdown: Option<Seq<char>>) -> Option<Seq<char>> {
    match opts.html_body {
        Some(h) => Some(h@),
        None => if opts.stdin || opts.markdown_file is Some {
            match markdown {
                Some(md) => Some(commonmark_html(md, MARKDOWN_OPTIONS)),
                None => None,
            }
        } else {
            None
        },
    }
}

/// Where the appended HTML comes from: an HTML body is taken as it is;
/// otherwise markdown read from stdin or from a markdown file is rendered.
/// Nothing is appended only when there is no HTML body and either no
/// markdown was read or neither stdin nor a markdown file is asked for.
pub proof fn law_append_body_sources(opts: AppendOptions, markdown: Option<Seq<char>>)
    ensures
        opts.html_body matches Some(h) ==> resolved_append_body(opts, markdown) == Some(h@),
        opts.html_body is None && (opts.stdin || opts.markdown_file is Some) && markdown is Some
            ==> resolved_append_body(opts, markdown) == Some(commonmark_html(markdown->Some_0, MARKDOWN_OPTIONS)),
        resolved_append_body(opts, markdown) is None <==> (opts.html_body is None && (markdown is None || (
        !opts.stdin && opts.markdown_file is None))),
{
}

/// The HTML to append; see `resolved_append_body`.
pub fn resolve_body(opts: &AppendOptions, markdown: Option<&str>) -> (r: Result<String, Error>)
    ensures
        match resolved_append_body(*opts, opt_view(markdown)) {
            Some(h) => r matches Ok(html) && html@ == h,
            None => r == Err::<String, Error>(Error::MissingBody),
        },
{
    if let Some(html) = &opts.html_body {
        return Ok(string_from(html.as_str()));
    }
    if opts.stdin || opts.markdown_file.is_some() {
        return match markdown {
            Some(md) => Ok(to_html(md)),
            None => Err(Error::MissingBody),
        };
    }
    Err(Error::MissingBody)
}

/// The script that appends the HTML `body` to the body of the note `id`.
pub open spec fn append_script(id: Seq<char>, body: Seq<char>) -> Seq<char> {
    "\ntell application \"Notes\"\n    set n to first note whose id is \""@ + escaped(id)
        + "\"\n    set body of n to ((body of n) & \""@ + escaped(body) + "\")\nend tell\n"@
}

/// Append HTML content to an existing note's body: the script that does it.
/// `markdown` is the text read from stdin when `opts.stdin` is set, else
/// from `opts.markdown_file`.
pub fn append_note(opts: &AppendOptions, markdown: Option<&str>) -> (r: Result<String, Error>)
    ensures
        match resolved_append_body(*opts, opt_view(markdown)) {
            Some(h) => r matches Ok(script) && script@ == append_script(opts.id@, h),
            None => r == Err::<String, Error>(Error::MissingBody),
        },
{
    let html = match resolve_body(opts, markdown) {
        Ok(h) => h,
        Err(e) => {
            return Err(e);
        },
    };
    let mut out = String::new();
    out.append("\ntell application \"Notes\"\n    set n to first note whose id is \"");
    push_escaped(&mut out, opts.id.as_str());
    out.append("\"\n    set body of n to ((body of n) & \"");
    push_escaped(&mut out, html.as_str());
    out.append("\")\nend tell\n");
    Ok(out)
}

} // verus!
