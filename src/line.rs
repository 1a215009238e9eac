use vstd::prelude::*;

verus! {

/// The character that starts a heading line.
pub const HEADING_MARKER: char = '#';

/// The character that starts a code-fence line.
pub const CODE_MARKER: char = '`';

/// How a line is treated, decided by its first character alone.
#[derive(Clone, Copy, Debug, PartialEq, Eq, Structural)]
pub enum LineKind {
    Heading,
    Fence,
    Prose,
}

pub open spec fn line_kind(line: Seq<char>) -> LineKind {
    if line.len() > 0 && line[0] == HEADING_MARKER {
        LineKind::Heading
    } else if line.len() > 0 && line[0] == CODE_MARKER {
        LineKind::Fence
    } else {
        LineKind::Prose
    }
}

/// The text of a heading: the line without the marker and the character
/// after it; empty when the line is shorter than that.
pub open spec fn heading_text(line: Seq<char>) -> Seq<char> {
    if line.len() >= 2 {
        line.subrange(2, line.len() as int)
    } else {
        Seq::empty()
    }
}

pub fn classify_line(line: &str) -> (k: LineKind)
    ensures
        k == line_kind(line@),
{
    if line.unicode_len() == 0 {
        return LineKind::Prose;
    }
    let first = line.get_char(0);
    if first == HEADING_MARKER {
        LineKind::Heading
    } else if first == CODE_MARKER {
        LineKind::Fence
    } else {
        LineKind::Prose
    }
}

pub fn heading_content(line: &str) -> (r: &str)
    ensures
        r@ == heading_text(line@),
{
    let n = line.unicode_len();
    if n >= 2 {
        line.substring_char(2, n)
    } else {
        line.substring_char(n, n)
    }
}

} // verus!
