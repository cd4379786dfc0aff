//! Markdown to HTML, by pulldown-cmark.
use pulldown_cmark::{Options, Parser, html};
use vstd::prelude::*;

verus! {

/// The HTML that pulldown-cmark renders for the markdown `md` with the
/// extensions whose flag bits are set in `options`.
pub uninterp spec fn commonmark_html(md: Seq<char>, options: u32) -> Seq<char>;

/// pulldown-cmark's extension flags (`Options::bits`) that notes use:
/// tables (1 << 1), footnotes (1 << 2), strikethrough (1 << 3), task lists
/// (1 << 4) and smart punctuation (1 << 5).
pub const MARKDOWN_OPTIONS: u32 = 0b11_1110;

/// `pulldown_cmark::html::push_html` of `Parser::new_ext(md, options)` into
/// an empty string. The contract claims only that the HTML is a function of
/// the markdown and the option bits.
#[verifier::external_body]
fn render_html(md: &str, options: u32) -> (rendered: String)
    ensures
        rendered@ == commonmark_html(md@, options),
{
    let mut html_buf = String::new();
    html::push_html(&mut html_buf, Parser::new_ext(md, Options::from_bits_truncate(options)));
    html_buf
}

/// Convert a Markdown string to HTML. Enables GFM tables, footnotes,
/// strikethrough, task lists and smart punctuation.
pub fn to_html(md: &str) -> (rendered: String)
    ensures
        rendered@ == commonmark_html(md@, MARKDOWN_OPTIONS),
{
    render_html(md, MARKDOWN_OPTIONS)
}

} // verus!
