use warp_terminal::markdown_parser::parser::MarkdownParser;

#[test]
fn test_to_html_basic() {
    let markdown = "# Hello\n\nThis is **bold** text.";
    let html = MarkdownParser::to_html(markdown);
    assert!(html.contains("<h1>Hello</h1>"));
    assert!(html.contains("<strong>bold</strong>"));
}

#[test]
fn test_to_html_tables() {
    let markdown = "| Header 1 | Header 2 |\n|---|---|\n| Cell 1 | Cell 2 |";
    let html = MarkdownParser::to_html(markdown);
    assert!(html.contains("<table>"));
    assert!(html.contains("<th>Header 1</th>"));
    assert!(html.contains("<td>Cell 1</td>"));
}

#[test]
fn test_to_plain_text_basic() {
    let markdown = "# Title\n\nSome *italic* and **bold** text.\n\n- List item 1\n- List item 2\n\n`inline code`";
    let plain_text = MarkdownParser::to_plain_text(markdown);
    let expected = "Title\n\nSome italic and bold text.\n\n- List item 1 \n- List item 2 \n\ninline code";
    assert_eq!(plain_text.trim(), expected.trim());
}

#[test]
fn test_to_plain_text_code_block() {
    let markdown = "```rust\nfn main() {}\n```";
    let plain_text = MarkdownParser::to_plain_text(markdown);
    assert_eq!(plain_text.trim(), "fn main() {}");
}

#[test]
fn plain_text_drops_emphasis_marks() {
    let plain = MarkdownParser::to_plain_text("a *b* c");
    assert_eq!(plain, "a b c");
}

#[test]
fn html_of_strikethrough_is_enabled() {
    let html = MarkdownParser::to_html("~~gone~~");
    assert!(html.contains("<del>gone</del>"));
}

#[test]
fn plain_text_keeps_inline_html_and_joins_breaks() {
    assert_eq!(MarkdownParser::to_plain_text("a <b>x</b> c"), "a <b>x</b> c");
    assert_eq!(MarkdownParser::to_plain_text("one  \ntwo\nthree"), "one two three");
    assert_eq!(MarkdownParser::to_plain_text("# Head\n\n---\n\nBody"), "Head\n\nBody");
}
