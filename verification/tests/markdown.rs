use appleappscli::markdown::{MARKDOWN_OPTIONS, to_html};
use pulldown_cmark::Options;

#[test]
fn headings_and_paragraphs() {
    let h = to_html("# Title\n\nHello *world*.");
    assert!(h.contains("<h1>"));
    assert!(h.contains("<em>world</em>"));
}

#[test]
fn tables_render() {
    let h = to_html("| a | b |\n|---|---|\n| 1 | 2 |");
    assert!(h.contains("<table>"));
    assert!(h.contains("<th>a</th>"));
}

#[test]
fn links_render() {
    let h = to_html("[hi](https://example.com)");
    assert!(h.contains("href=\"https://example.com\""));
}

#[test]
fn option_bits_are_the_five_extensions() {
    let expected = Options::ENABLE_TABLES
        | Options::ENABLE_FOOTNOTES
        | Options::ENABLE_STRIKETHROUGH
        | Options::ENABLE_TASKLISTS
        | Options::ENABLE_SMART_PUNCTUATION;
    assert_eq!(MARKDOWN_OPTIONS, expected.bits());
    assert!(to_html("~~gone~~").contains("<del>gone</del>"));
    assert!(to_html("- [x] done").contains("checkbox"));
    assert_eq!(to_html(""), "");
}
