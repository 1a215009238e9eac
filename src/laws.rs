use vstd::prelude::*;

use crate::line::{heading_text, line_kind, LineKind};
use crate::machine::{empty_paragraph, fragment, is_emitted, next_state, rendered, state_after};
use crate::state::{OpenTag, ParserState};

verus! {

/// The number of code-fence lines in `lines`.
pub open spec fn fence_count(lines: Seq<Seq<char>>) -> nat
    decreases lines.len(),
{
    if lines.len() == 0 {
        0
    } else {
        fence_count(lines.drop_last()) + if line_kind(lines.last()) == LineKind::Fence {
            1nat
        } else {
            0nat
        }
    }
}

/// A prose line outside a code block becomes one paragraph holding the line
/// as it is, and it is emitted unless the line is empty.
pub proof fn prose_line_is_a_paragraph(line: Seq<char>, st: ParserState)
    requires
        line_kind(line) == LineKind::Prose,
        st.is_between_lines(),
        !st.in_code_block,
    ensures
        fragment(line, st) == "<p>"@ + line + "</p>\n"@,
        is_emitted(fragment(line, st)) <==> line.len() > 0,
{
    reveal_strlit("<p>");
    reveal_strlit("</p>\n");
    reveal_strlit("<p></p>\n");
    assert(fragment(line, st) =~= "<p>"@ + line + "</p>\n"@);
    if line.len() == 0 {
        assert(fragment(line, st) =~= empty_paragraph());
    } else {
        assert(fragment(line, st).len() != empty_paragraph().len());
    }
}

/// A heading line outside a code block becomes one level-one heading holding
/// the line without its first two characters, and it is always emitted.
pub proof fn heading_line_is_a_heading(line: Seq<char>, st: ParserState)
    requires
        line_kind(line) == LineKind::Heading,
        st.is_between_lines(),
        !st.in_code_block,
    ensures
        fragment(line, st) == "\n\n<h1>"@ + heading_text(line) + "</h1>\n"@,
        is_emitted(fragment(line, st)),
{
    reveal_strlit("\n\n<h1>");
    reveal_strlit("<p></p>\n");
    assert(fragment(line, st) =~= "\n\n<h1>"@ + heading_text(line) + "</h1>\n"@);
    assert(fragment(line, st)[0] != empty_paragraph()[0]);
}

/// Two fence lines in a row, outside a code block, emit an opening and a
/// closing code tag with nothing between them, and leave the code block closed.
pub proof fn empty_code_block(f1: Seq<char>, f2: Seq<char>, st: ParserState)
    requires
        line_kind(f1) == LineKind::Fence,
        line_kind(f2) == LineKind::Fence,
        st.is_between_lines(),
        !st.in_code_block,
    ensures
        rendered(seq![f1, f2], st) == seq!["<code><pre>"@, "</pre></code>\n"@],
        state_after(seq![f1, f2], st) == st,
{
    reveal_strlit("<code><pre>");
    reveal_strlit("</pre></code>\n");
    reveal_strlit("<p></p>\n");
    let lines = seq![f1, f2];
    assert(lines.drop_last() =~= seq![f1]);
    assert(seq![f1].drop_last() =~= Seq::<Seq<char>>::empty());
    assert(rendered(Seq::<Seq<char>>::empty(), st) == Seq::<Seq<char>>::empty());
    assert(state_after(Seq::<Seq<char>>::empty(), st) == st);
    assert(seq![f1].last() == f1 && lines.last() == f2);
    let s1 = next_state(f1, st);
    assert(fragment(f1, st) =~= "<code><pre>"@);
    assert(fragment(f2, s1) =~= "</pre></code>\n"@);
    assert(fragment(f1, st)[1] != empty_paragraph()[1]);
    assert(fragment(f2, s1)[1] != empty_paragraph()[1]);
    assert(rendered(seq![f1], st) =~= seq!["<code><pre>"@]);
    assert(rendered(lines, st) =~= seq!["<code><pre>"@, "</pre></code>\n"@]);
}

/// An empty line outside a code block emits nothing.
pub proof fn blank_line_is_dropped(line: Seq<char>, st: ParserState)
    requires
        line.len() == 0,
        st.is_between_lines(),
        !st.in_code_block,
    ensures
        !is_emitted(fragment(line, st)),
        rendered(seq![line], st) == Seq::<Seq<char>>::empty(),
{
    prose_line_is_a_paragraph(line, st);
    assert(seq![line].drop_last() =~= Seq::<Seq<char>>::empty());
    assert(rendered(Seq::<Seq<char>>::empty(), st) == Seq::<Seq<char>>::empty());
    assert(state_after(Seq::<Seq<char>>::empty(), st) == st);
    assert(seq![line].last() == line);
}

/// After any lines, no paragraph or heading is left open, and a code block is
/// open exactly when an odd number of fence lines has toggled it.
pub proof fn state_after_lines(lines: Seq<Seq<char>>, st: ParserState)
    requires
        st.is_between_lines(),
    ensures
        state_after(lines, st).is_between_lines(),
        state_after(lines, st).in_code_block == (st.in_code_block != (fence_count(lines) % 2 == 1)),
    decreases lines.len(),
{
    if lines.len() > 0 {
        state_after_lines(lines.drop_last(), st);
    }
}

/// A document in which every code block that opens also closes ends in the
/// state it started from: no paragraph, heading or code block is open.
pub proof fn closed_document_ends_idle(lines: Seq<Seq<char>>)
    requires
        fence_count(lines) % 2 == 0,
    ensures
        state_after(lines, ParserState::initial()) == ParserState::initial(),
{
    state_after_lines(lines, ParserState::initial());
}

} // verus!
