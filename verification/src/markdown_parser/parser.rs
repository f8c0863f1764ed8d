//! Markdown to HTML (through pulldown-cmark) and to plain text.
use vstd::prelude::*;
use pulldown_cmark::{Event, Options, Parser, Tag};
use crate::text::{push_char, trim, trimmed};

verus! {

/// The kind of a pulldown-cmark tag (`pulldown_cmark::Tag`), without its fields.
#[derive(Debug, Clone, Copy, PartialEq, Eq, Structural)]
pub enum MdTag {
    Paragraph,
    Heading,
    BlockQuote,
    CodeBlock,
    List,
    Item,
    FootnoteDefinition,
    Table,
    TableHead,
    TableRow,
    TableCell,
    Emphasis,
    Strong,
    Strikethrough,
    Link,
    Image,
}

/// A pulldown-cmark event (`pulldown_cmark::Event`): one variant per event, a tag by
/// its kind, a text by its content.
#[derive(Debug)]
pub enum MdEvent {
    Start(MdTag),
    End(MdTag),
    Text(String),
    Code(String),
    Html(String),
    FootnoteReference(String),
    SoftBreak,
    HardBreak,
    Rule,
    TaskListMarker(bool),
}

/// An event as a value.
pub enum MdEventView {
    Start(MdTag),
    End(MdTag),
    Text(Seq<char>),
    Code(Seq<char>),
    Html(Seq<char>),
    FootnoteReference(Seq<char>),
    SoftBreak,
    HardBreak,
    Rule,
    TaskListMarker(bool),
}

impl MdEvent {
    pub open spec fn view(self) -> MdEventView {
        match self {
            MdEvent::Start(t) => MdEventView::Start(t),
            MdEvent::End(t) => MdEventView::End(t),
            MdEvent::Text(s) => MdEventView::Text(s@),
            MdEvent::Code(s) => MdEventView::Code(s@),
            MdEvent::Html(s) => MdEventView::Html(s@),
            MdEvent::FootnoteReference(s) => MdEventView::FootnoteReference(s@),
            MdEvent::SoftBreak => MdEventView::SoftBreak,
            MdEvent::HardBreak => MdEventView::HardBreak,
            MdEvent::Rule => MdEventView::Rule,
            MdEvent::TaskListMarker(b) => MdEventView::TaskListMarker(b),
        }
    }
}

/// The events pulldown-cmark produces for a Markdown text (no extensions enabled).
pub uninterp spec fn markdown_events(input: Seq<char>) -> Seq<MdEventView>;

/// The HTML pulldown-cmark renders for a Markdown text under the given option bits.
pub uninterp spec fn markdown_html(input: Seq<char>, options: u32) -> Seq<char>;

/// pulldown-cmark's tag of a `Start` or `End` event, carried through opaquely.
#[verifier::external_type_specification]
#[verifier::external_body]
pub struct ExTag<'a>(Tag<'a>);

/// The kind of a `pulldown_cmark::Tag`: one arm per variant, its fields left behind.
/// Only `parse_events` calls it, for the tags of `Start` and `End` events.
#[verifier::external_body]
fn tag_kind(t: Tag) -> MdTag {
    match t {
        Tag::Paragraph => MdTag::Paragraph, Tag::Heading(..) => MdTag::Heading,
        Tag::BlockQuote => MdTag::BlockQuote, Tag::CodeBlock(_) => MdTag::CodeBlock,
        Tag::List(_) => MdTag::List, Tag::Item => MdTag::Item,
        Tag::FootnoteDefinition(_) => MdTag::FootnoteDefinition, Tag::Table(_) => MdTag::Table,
        Tag::TableHead => MdTag::TableHead, Tag::TableRow => MdTag::TableRow,
        Tag::TableCell => MdTag::TableCell, Tag::Emphasis => MdTag::Emphasis,
        Tag::Strong => MdTag::Strong, Tag::Strikethrough => MdTag::Strikethrough,
        Tag::Link(..) => MdTag::Link, Tag::Image(..) => MdTag::Image,
    }
}

/// `pulldown_cmark::Parser::new(input)`, every event converted one for one into an
/// `MdEvent`. The sequence of events is left to the name `markdown_events`, a function
/// of the text.
#[verifier::external_body]
fn parse_events(input: &str) -> (r: Vec<MdEvent>)
    ensures
        r@.map_values(|e: MdEvent| e.view()) == markdown_events(input@),
{
    Parser::new(input).map(|e| match e {
        Event::Start(t) => MdEvent::Start(tag_kind(t)), Event::End(t) => MdEvent::End(tag_kind(t)),
        Event::Text(s) => MdEvent::Text(s.to_string()), Event::Code(s) => MdEvent::Code(s.to_string()),
        Event::Html(s) => MdEvent::Html(s.to_string()),
        Event::FootnoteReference(s) => MdEvent::FootnoteReference(s.to_string()),
        Event::SoftBreak => MdEvent::SoftBreak, Event::HardBreak => MdEvent::HardBreak,
        Event::Rule => MdEvent::Rule, Event::TaskListMarker(b) => MdEvent::TaskListMarker(b),
    }).collect()
}

/// `pulldown_cmark::html::push_html` over `Parser::new_ext(input, options)` into an
/// empty string. The HTML is left to the name `markdown_html`.
#[verifier::external_body]
fn render_html(input: &str, options: u32) -> (r: String)
    ensures
        r@ == markdown_html(input@, options),
{
    let mut out = String::new();
    pulldown_cmark::html::push_html(&mut out, Parser::new_ext(input, Options::from_bits_truncate(options)));
    out
}

/// The option bits of tables, footnotes, strikethrough, task lists and smart
/// punctuation (pulldown-cmark's `ENABLE_*` flags `1 << 1` to `1 << 5`).
pub open spec fn html_options() -> u32 {
    62
}

/// What one event adds to the plain text: text, inline code and raw HTML verbatim, a
/// space for a soft or hard line break, a blank line after a heading or a paragraph,
/// `"- "` when a list item starts and `" \n"` when it ends, and a line break after a
/// list. Every other event (other tags, footnote references, rules, task markers)
/// adds nothing.
pub open spec fn plain_piece(e: MdEventView) -> Seq<char> {
    match e {
        MdEventView::Text(s) => s,
        MdEventView::Code(s) => s,
        MdEventView::Html(s) => s,
        MdEventView::SoftBreak => seq![' '],
        MdEventView::HardBreak => seq![' '],
        MdEventView::End(MdTag::Heading) => seq!['\n', '\n'],
        MdEventView::End(MdTag::Paragraph) => seq!['\n', '\n'],
        MdEventView::Start(MdTag::Item) => seq!['-', ' '],
        MdEventView::End(MdTag::Item) => seq![' ', '\n'],
        MdEventView::End(MdTag::List) => seq!['\n'],
        _ => Seq::empty(),
    }
}

/// The plain text of a list of events: the pieces of the events, in order.
pub open spec fn plain_of(events: Seq<MdEventView>) -> Seq<char>
    decreases events.len(),
{
    if events.len() == 0 {
        Seq::empty()
    } else {
        plain_of(events.drop_last()) + plain_piece(events.last())
    }
}

fn push_str(out: &mut String, s: &str)
    ensures
        final(out)@ == old(out)@ + s@,
{
    out.append(s);
}

/// The plain text of the given events, as `plain_of` describes it.
pub fn plain_text_of(events: &Vec<MdEvent>) -> (r: String)
    ensures
        r@ == plain_of(events@.map_values(|e: MdEvent| e.view())),
{
    let ghost evs = events@.map_values(|e: MdEvent| e.view());
    let mut out = String::new();
    let mut i: usize = 0;
    assert(evs.take(0) =~= Seq::<MdEventView>::empty());
    while i < events.len()
        invariant
            i <= events.len(),
            evs == events@.map_values(|e: MdEvent| e.view()),
            out@ == plain_of(evs.take(i as int)),
        decreases events.len() - i,
    {
        let ghost before = out@;
        match &events[i] {
            MdEvent::Text(s) => push_str(&mut out, s.as_str()),
            MdEvent::Code(s) => push_str(&mut out, s.as_str()),
            MdEvent::Html(s) => push_str(&mut out, s.as_str()),
            MdEvent::SoftBreak => push_char(&mut out, ' '),
            MdEvent::HardBreak => push_char(&mut out, ' '),
            MdEvent::End(MdTag::Heading) => push_str(&mut out, "\n\n"),
            MdEvent::End(MdTag::Paragraph) => push_str(&mut out, "\n\n"),
            MdEvent::Start(MdTag::Item) => push_str(&mut out, "- "),
            MdEvent::End(MdTag::Item) => push_str(&mut out, " \n"),
            MdEvent::End(MdTag::List) => push_char(&mut out, '\n'),
            _ => {},
        }
        proof {
            reveal_strlit("\n\n");
            reveal_strlit("- ");
            reveal_strlit(" \n");
            assert(evs.take(i + 1).drop_last() =~= evs.take(i as int));
            assert(evs.take(i + 1).last() == events@[i as int].view());
            assert(out@ =~= plain_of(evs.take(i + 1)));
        }
        i = i + 1;
    }
    assert(evs.take(events.len() as int) =~= evs);
    out
}

/// Converts Markdown to HTML or to plain text.
pub struct MarkdownParser;

impl MarkdownParser {
    /// The HTML for `markdown_input`, with tables, footnotes, strikethrough, task lists
    /// and smart punctuation enabled.
    pub fn to_html(markdown_input: &str) -> (r: String)
        ensures
            r@ == markdown_html(markdown_input@, html_options()),
    {
        let options: u32 = (1u32 << 1u32) | (1u32 << 2u32) | (1u32 << 3u32) | (1u32 << 4u32) | (1u32 << 5u32);
        assert(options == 62) by (bit_vector)
            requires
                options == (1u32 << 1u32) | (1u32 << 2u32) | (1u32 << 3u32) | (1u32 << 4u32) | (1u32 << 5u32),
        ;
        render_html(markdown_input, options)
    }

    /// The text of `markdown_input` without formatting: paragraphs and headings
    /// separated by blank lines, list items as `- ` lines, surrounding whitespace
    /// trimmed.
    pub fn to_plain_text(markdown_input: &str) -> (r: String)
        ensures
            r@ == trimmed(plain_of(markdown_events(markdown_input@))),
    {
        let events = parse_events(markdown_input);
        let text = plain_text_of(&events);
        trim(text.as_str())
    }
}

} // verus!
