use rustmd::line::{classify_line, heading_content, LineKind};
use rustmd::machine::{convert_lines, is_suppressed, parse_markdown, process_line};
use rustmd::output::html_file_name;
use rustmd::state::{OpenTag, ParserState};

fn lines(v: &[&str]) -> Vec<String> {
    v.iter().map(|s| s.to_string()).collect()
}

#[test]
fn document_with_heading_prose_and_code() {
    let out = parse_markdown(&lines(&["# Hi", "Hello world", "", "`", "code line", "`"]));
    assert_eq!(
        out,
        vec![
            "\n\n<h1>Hi</h1>\n".to_string(),
            "<p>Hello world</p>\n".to_string(),
            "<code><pre>".to_string(),
            "code line\n".to_string(),
            "</pre></code>\n".to_string(),
        ]
    );
}

#[test]
fn heading_marker_inside_code_is_code() {
    let out = parse_markdown(&lines(&["`", "# inside code", "`"]));
    assert_eq!(
        out,
        vec![
            "<code><pre>".to_string(),
            "# inside code\n".to_string(),
            "</pre></code>\n".to_string(),
        ]
    );
}

#[test]
fn bare_heading_marker_gives_empty_heading() {
    let out = parse_markdown(&lines(&["#"]));
    assert_eq!(out, vec!["\n\n<h1></h1>\n".to_string()]);
}

#[test]
fn prose_line_becomes_paragraph() {
    let mut st = ParserState::new();
    assert_eq!(process_line("some text here", &mut st), "<p>some text here</p>\n");
    assert_eq!(st, ParserState::new());
    assert_eq!(process_line("  spaced  ", &mut st), "<p>  spaced  </p>\n");
}

#[test]
fn heading_line_becomes_h1() {
    let mut st = ParserState::new();
    assert_eq!(process_line("# Title", &mut st), "\n\n<h1>Title</h1>\n");
    assert!(!st.in_heading());
    assert_eq!(process_line("#x", &mut st), "\n\n<h1></h1>\n");
    assert_eq!(process_line("## Two", &mut st), "\n\n<h1> Two</h1>\n");
}

#[test]
fn heading_strips_two_characters_not_bytes() {
    let mut st = ParserState::new();
    assert_eq!(process_line("#éabc", &mut st), "\n\n<h1>abc</h1>\n");
}

#[test]
fn two_fences_make_empty_code_block() {
    let mut st = ParserState::new();
    let out = convert_lines(&lines(&["`", "```rust"]), &mut st);
    assert_eq!(out, vec!["<code><pre>".to_string(), "</pre></code>\n".to_string()]);
    assert!(!st.in_code_block());
    assert_eq!(out.concat(), "<code><pre></pre></code>\n");
}

#[test]
fn blank_line_outside_code_is_dropped() {
    assert_eq!(parse_markdown(&lines(&[""])), Vec::<String>::new());
    let mut st = ParserState::new();
    let frag = process_line("", &mut st);
    assert_eq!(frag, "<p></p>\n");
    assert!(is_suppressed(&frag));
}

#[test]
fn blank_line_inside_code_is_kept() {
    let out = parse_markdown(&lines(&["`", "", "`"]));
    assert_eq!(
        out,
        vec!["<code><pre>".to_string(), "\n".to_string(), "</pre></code>\n".to_string()]
    );
}

#[test]
fn closed_document_ends_in_initial_state() {
    let mut st = ParserState::new();
    convert_lines(&lines(&["# A", "text", "`", "x", "# y", "`", "", "more"]), &mut st);
    assert_eq!(st, ParserState::new());
    assert!(!st.in_paragraph() && !st.in_heading() && !st.in_code_block());
}

#[test]
fn unclosed_code_block_stays_open() {
    let mut st = ParserState::new();
    let out = convert_lines(&lines(&["`", "x"]), &mut st);
    assert_eq!(out, vec!["<code><pre>".to_string(), "x\n".to_string()]);
    assert!(st.in_code_block());
    assert_eq!(st.open, OpenTag::Idle);
}

#[test]
fn empty_document_gives_nothing() {
    assert_eq!(parse_markdown(&Vec::new()), Vec::<String>::new());
}

#[test]
fn empty_paragraph_text_in_code_is_dropped() {
    let out = parse_markdown(&lines(&["`", "<p></p>", "`"]));
    assert_eq!(out, vec!["<code><pre>".to_string(), "</pre></code>\n".to_string()]);
}

#[test]
fn open_paragraph_is_closed_before_heading() {
    let mut st = ParserState { open: OpenTag::Paragraph, in_code_block: false };
    assert_eq!(process_line("# T", &mut st), "</p>\n\n\n<h1>T</h1>\n");
    let mut st = ParserState { open: OpenTag::Heading, in_code_block: false };
    assert_eq!(process_line("`", &mut st), "</h1>\n<code><pre>");
    assert!(st.in_code_block());
    let mut st = ParserState { open: OpenTag::Paragraph, in_code_block: false };
    assert_eq!(process_line("more", &mut st), "more</p>\n");
    let mut st = ParserState { open: OpenTag::Heading, in_code_block: false };
    assert_eq!(process_line("more", &mut st), "<p>more</p>\n</h1>\n");
}

#[test]
fn lines_are_classified_by_first_character() {
    assert_eq!(classify_line("# a"), LineKind::Heading);
    assert_eq!(classify_line("`"), LineKind::Fence);
    assert_eq!(classify_line("a # b"), LineKind::Prose);
    assert_eq!(classify_line(""), LineKind::Prose);
    assert_eq!(heading_content("# Title"), "Title");
    assert_eq!(heading_content("#"), "");
}

#[test]
fn output_file_replaces_extension() {
    assert_eq!(html_file_name("notes.md"), "notes.html");
    assert_eq!(html_file_name("dir/a.md"), "dir/a.html");
    assert_eq!(html_file_name("ab"), "ab.html");
    assert_eq!(html_file_name("été.md"), "été.html");
}
