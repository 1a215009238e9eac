use vstd::prelude::*;

verus! {

/// The block-level tag other than a code block that is open, if any.
#[derive(Clone, Copy, Debug, PartialEq, Eq, Structural)]
pub enum OpenTag {
    Idle,
    Paragraph,
    Heading,
}

/// What the converter remembers from one line to the next.
///
/// A paragraph or a heading is opened and closed within one line, so between
/// lines `open` is `Idle`; a code block spans lines and is tracked on its own.
#[derive(Clone, Copy, Debug, PartialEq, Eq, Structural)]
pub struct ParserState {
    pub open: OpenTag,
    pub in_code_block: bool,
}

impl ParserState {
    /// The state before the first line of a document.
    pub open spec fn initial() -> ParserState {
        ParserState { open: OpenTag::Idle, in_code_block: false }
    }

    /// No paragraph or heading is open: the state between two lines.
    pub open spec fn is_between_lines(self) -> bool {
        self.open == OpenTag::Idle
    }

    pub fn new() -> (s: ParserState)
        ensures
            s == ParserState::initial(),
    {
        ParserState { open: OpenTag::Idle, in_code_block: false }
    }

    pub fn in_paragraph(&self) -> (r: bool)
        ensures
            r == (self.open == OpenTag::Paragraph),
    {
        self.open == OpenTag::Paragraph
    }

    pub fn in_heading(&self) -> (r: bool)
        ensures
            r == (self.open == OpenTag::Heading),
    {
        self.open == OpenTag::Heading
    }

    pub fn in_code_block(&self) -> (r: bool)
        ensures
            r == self.in_code_block,
    {
        self.in_code_block
    }
}

} // verus!
