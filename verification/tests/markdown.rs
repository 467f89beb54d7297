use octerm::markdown::{parse, EventShape, Markdown, MdBlock, MdEvent, MdTag};
use octerm::text::{Color, Span};

fn texts(line: &[Span]) -> Vec<String> {
    line.iter().map(|s| s.text.clone()).collect()
}

fn text_lines(block: &MdBlock) -> Vec<Vec<String>> {
    match block {
        MdBlock::Text(lines) => lines.iter().map(|l| texts(l)).collect(),
        _ => panic!("not text"),
    }
}

fn s(text: &str) -> String {
    String::from(text)
}

#[test]
fn markdown_paragraph_with_strong_text() {
    let md = Markdown::new("Hello **world**");
    assert_eq!(md.blocks.len(), 1);
    match &md.blocks[0] {
        MdBlock::Text(lines) => {
            assert_eq!(texts(&lines[0]), vec!["Hello ", "world"]);
            assert!(lines[0][1].style.bold);
            assert!(matches!(lines[0][1].style.fg, Some(Color::Purple)));
            assert!(!lines[0][0].style.bold);
            assert!(lines[1].is_empty());
        }
        _ => panic!("a paragraph is text"),
    }
}

#[test]
fn markdown_heading_is_marked_by_its_level() {
    let md = Markdown::new("## Title");
    assert_eq!(text_lines(&md.blocks[0]), vec![vec![s("## "), s("Title")], vec![]]);
    match &md.blocks[0] {
        MdBlock::Text(lines) => assert!(lines[0][1].style.underline && !lines[0][1].style.bold),
        _ => panic!("text"),
    }
}

#[test]
fn markdown_code_block_and_rule() {
    let md = Markdown::new("```\nlet x = 1;\n```\n\n---\n");
    assert!(matches!(&md.blocks[0], MdBlock::Text(lines) if lines.is_empty()));
    assert!(matches!(&md.blocks[1], MdBlock::Code(code) if code == "let x = 1;\n"));
    assert!(matches!(&md.blocks[2], MdBlock::Text(_)));
    assert!(matches!(md.blocks[3], MdBlock::Rule));
}

#[test]
fn markdown_list_items_get_bullets() {
    let md = Markdown::new("- one\n- two\n");
    assert_eq!(
        text_lines(&md.blocks[0]),
        vec![vec![s("\u{2022} "), s("one")], vec![s("\u{2022} "), s("two")], vec![]]
    );
}

#[test]
fn markdown_inline_code_and_strikethrough() {
    let md = Markdown::new("a `b` ~~c~~");
    match &md.blocks[0] {
        MdBlock::Text(lines) => {
            assert_eq!(texts(&lines[0]), vec!["a ", "\u{2590}", "b", "\u{258c}", " ", "c"]);
            assert!(lines[0][2].style.reverse);
            assert!(lines[0][5].style.strikethrough);
        }
        _ => panic!("text"),
    }
}

#[test]
fn markdown_quote_is_bracketed() {
    let md = Markdown::new("> quoted\n\nafter");
    assert!(matches!(&md.blocks[0], MdBlock::Text(lines) if lines.is_empty()));
    assert!(matches!(md.blocks[1], MdBlock::BeginQuote));
    assert_eq!(text_lines(&md.blocks[2]), vec![vec![s("quoted")], vec![]]);
    assert!(matches!(md.blocks[3], MdBlock::EndQuote));
    assert_eq!(text_lines(&md.blocks[4]), vec![vec![], vec![s("after")], vec![]]);
}

#[test]
fn markdown_html_lines_are_dimmed() {
    let events = vec![MdEvent::Html(s("<b>\r\n</b>\n"))];
    let blocks = parse(&events);
    assert_eq!(text_lines(&blocks[0]), vec![vec![s("<b>")], vec![s("</b>")]]);
    match &blocks[0] {
        MdBlock::Text(lines) => assert!(lines[0][0].style.dim),
        _ => panic!("text"),
    }
}

#[test]
fn markdown_soft_break_ends_a_line() {
    let events = vec![
        MdEvent::Start(MdTag::Paragraph),
        MdEvent::Text(s("one")),
        MdEvent::SoftBreak,
        MdEvent::Text(s("two")),
        MdEvent::End(MdTag::Paragraph),
    ];
    let blocks = parse(&events);
    assert_eq!(text_lines(&blocks[0]), vec![vec![s("one")], vec![s("two")], vec![]]);
}

#[test]
fn markdown_from_parse_pairs_shapes_with_tags() {
    let shapes = vec![EventShape::Start, EventShape::Text(s("x")), EventShape::End];
    let tags = vec![Some(MdTag::Emphasis), None, Some(MdTag::Emphasis)];
    let md = Markdown::from_parse(shapes, tags);
    match &md.blocks[..] {
        [] => {}
        _ => panic!("an unfinished line is not laid out"),
    }
    let md = Markdown::from_parse(vec![EventShape::Text(s("x")), EventShape::HardBreak], Vec::new());
    assert_eq!(text_lines(&md.blocks[0]), vec![vec![s("x")]]);
}

#[test]
fn markdown_empty_document() {
    assert!(Markdown::new("").blocks.is_empty());
    assert!(Markdown::default().blocks.is_empty());
}
