use vstd::prelude::*;

use crate::line::{classify_line, heading_content, heading_text, line_kind, LineKind};
use crate::state::{OpenTag, ParserState};

verus! {

/// The tags that close an open paragraph and an open heading, in that order.
pub open spec fn closing_tags(paragraph: bool, heading: bool) -> Seq<char> {
    (if paragraph { "</p>\n"@ } else { Seq::empty() }) + (if heading { "</h1>\n"@ } else { Seq::empty() })
}

/// The HTML produced for one line in a given state.
///
/// Inside a code block a heading line is kept as code: it is copied with a
/// line break and no heading is opened.
pub open spec fn fragment(line: Seq<char>, st: ParserState) -> Seq<char> {
    let p = st.open == OpenTag::Paragraph;
    let h = st.open == OpenTag::Heading;
    match line_kind(line) {
        LineKind::Heading => closing_tags(p, h) + if st.in_code_block {
            line + "\n"@
        } else {
            "\n\n<h1>"@ + heading_text(line) + "</h1>\n"@
        },
        LineKind::Fence => closing_tags(p, h) + if st.in_code_block {
            "</pre></code>\n"@
        } else {
            "<code><pre>"@
        },
        LineKind::Prose => if st.in_code_block {
            line + "\n"@ + closing_tags(p, h)
        } else if p {
            line + closing_tags(true, false)
        } else {
            "<p>"@ + line + closing_tags(true, h)
        },
    }
}

/// The state after one line: paragraphs and headings are closed, and a fence
/// line toggles the code block.
pub open spec fn next_state(line: Seq<char>, st: ParserState) -> ParserState {
    ParserState {
        open: OpenTag::Idle,
        in_code_block: if line_kind(line) == LineKind::Fence {
            !st.in_code_block
        } else {
            st.in_code_block
        },
    }
}

/// The fragment of an empty paragraph, which is never emitted.
pub open spec fn empty_paragraph() -> Seq<char> {
    "<p></p>\n"@
}

pub open spec fn is_emitted(frag: Seq<char>) -> bool {
    frag != empty_paragraph()
}

/// The state after the lines of `lines`, in order, starting from `st`.
pub open spec fn state_after(lines: Seq<Seq<char>>, st: ParserState) -> ParserState
    decreases lines.len(),
{
    if lines.len() == 0 {
        st
    } else {
        next_state(lines.last(), state_after(lines.drop_last(), st))
    }
}

/// The fragments emitted for the lines of `lines`, in order, starting from `st`.
pub open spec fn rendered(lines: Seq<Seq<char>>, st: ParserState) -> Seq<Seq<char>>
    decreases lines.len(),
{
    if lines.len() == 0 {
        Seq::empty()
    } else {
        let before = rendered(lines.drop_last(), st);
        let frag = fragment(lines.last(), state_after(lines.drop_last(), st));
        if is_emitted(frag) {
            before.push(frag)
        } else {
            before
        }
    }
}

/// The text of each string, in order.
pub open spec fn texts(v: Seq<String>) -> Seq<Seq<char>> {
    v.map_values(|s: String| s@)
}

fn close_open_tags(out: &mut String, state: &mut ParserState)
    ensures
        final(out)@ == old(out)@ + closing_tags(
            old(state).open == OpenTag::Paragraph,
            old(state).open == OpenTag::Heading,
        ),
        final(state).open == OpenTag::Idle,
        final(state).in_code_block == old(state).in_code_block,
{
    let ghost start = out@;
    if state.in_paragraph() {
        out.append("</p>\n");
    }
    let ghost mid = out@;
    if state.in_heading() {
        out.append("</h1>\n");
    }
    state.open = OpenTag::Idle;
    assert(out@ =~= start + closing_tags(
        old(state).open == OpenTag::Paragraph,
        old(state).open == OpenTag::Heading,
    ));
}

/// Converts one line to its HTML fragment and advances the state.
pub fn process_line(line: &str, state: &mut ParserState) -> (frag: String)
    ensures
        frag@ == fragment(line@, *old(state)),
        *final(state) == next_state(line@, *old(state)),
{
    let ghost st = *state;
    let mut out = String::new();
    match classify_line(line) {
        LineKind::Heading => {
            close_open_tags(&mut out, state);
            if state.in_code_block {
                out.append(line);
                out.append("\n");
            } else {
                out.append("\n\n<h1>");
                out.append(heading_content(line));
                out.append("</h1>\n");
            }
        },
        LineKind::Fence => {
            close_open_tags(&mut out, state);
            if state.in_code_block {
                out.append("</pre></code>\n");
                state.in_code_block = false;
            } else {
                out.append("<code><pre>");
                state.in_code_block = true;
            }
        },
        LineKind::Prose => {
            let was_heading = state.in_heading();
            if !state.in_paragraph() && !state.in_code_block {
                out.append("<p>");
                state.open = OpenTag::Paragraph;
            }
            out.append(line);
            if state.in_code_block {
                out.append("\n");
            }
            if state.in_paragraph() {
                out.append("</p>\n");
            }
            if was_heading {
                out.append("</h1>\n");
            }
            state.open = OpenTag::Idle;
            assert(out@ =~= fragment(line@, st));
        },
    }
    assert(out@ =~= fragment(line@, st));
    out
}

/// Whether a fragment is the empty paragraph, which the converter drops.
pub fn is_suppressed(frag: &String) -> (r: bool)
    ensures
        r == !is_emitted(frag@),
{
    let empty = String::from_str("<p></p>\n");
    *frag == empty
}

/// Converts the lines of a document, in order, to the HTML fragments it emits.
pub fn convert_lines(lines: &Vec<String>, state: &mut ParserState) -> (out: Vec<String>)
    ensures
        texts(out@) == rendered(texts(lines@), *old(state)),
        *final(state) == state_after(texts(lines@), *old(state)),
{
    let ghost st0 = *state;
    let ghost all = texts(lines@);
    let mut out: Vec<String> = Vec::new();
    let mut i: usize = 0;
    while i < lines.len()
        invariant
            i <= lines.len(),
            all == texts(lines@),
            *state == state_after(all.take(i as int), st0),
            texts(out@) == rendered(all.take(i as int), st0),
        decreases lines.len() - i,
    {
        let ghost before = out@;
        let frag = process_line(lines[i].as_str(), state);
        if !is_suppressed(&frag) {
            out.push(frag);
            assert(texts(out@) =~= texts(before).push(frag@));
        }
        assert(all.take(i + 1).drop_last() =~= all.take(i as int));
        i = i + 1;
    }
    assert(all.take(i as int) =~= all);
    out
}

/// Converts a whole document, given as its lines, to HTML fragments.
pub fn parse_markdown(lines: &Vec<String>) -> (out: Vec<String>)
    ensures
        texts(out@) == rendered(texts(lines@), ParserState::initial()),
{
    let mut state = ParserState::new();
    convert_lines(lines, &mut state)
}

} // verus!
