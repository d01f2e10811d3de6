//! The decisions of the two block parsers of definition lists: when a line
//! opens or continues a list or a definition, where its content starts, which
//! lines become terms, and which list a blank line makes loose.
use crate::ast::DefinitionList;
use crate::indent::{
    indent_position, indent_position_of, indent_width, indent_width_of, is_blank, is_blank_bytes,
    is_space_byte, lemma_indent_position_bounded, lemma_indent_position_columns, lemma_indent_position_exists,
    lemma_indent_scan_spaces, lemma_position_scan_spaces, lemma_trailing_space_count,
    trim_right_space, trimmed_line, SourceLine,
};
use vstd::prelude::*;
use vstd::string::StringSliceAdditionalSpecFns;

verus! {

/// The priority with which the definition list parser is registered.
pub const DEFINITION_LIST_PARSER_PRIORITY: u32 = 101;

/// The priority with which the term definition parser is registered.
pub const TERM_DEFINITION_PARSER_PRIORITY: u32 = 102;

/// The byte that opens a definition.
pub const DEFINITION_MARKER: u8 = 0x3au8;

/// The last child of the block in which a definition line appears.
#[derive(Debug, Clone, Copy, PartialEq, Eq)]
pub enum LastChild {
    /// A paragraph; `after_list` tells whether the sibling before it is a
    /// definition list.
    Paragraph { after_list: bool },
    /// A definition list.
    List,
    /// Any other block.
    Other,
}

/// What the definition list parser does with a line.
#[derive(Debug, Clone, Copy, PartialEq, Eq)]
pub enum ListOpening {
    /// The line does not open a definition list.
    Declined,
    /// A new list opens; the last paragraph holds its terms.
    NewList { offset: u8 },
    /// The list before the last paragraph opens again; that paragraph holds
    /// the terms of its new definition.
    ResumePrevious { offset: u8 },
    /// The last child, a list, opens again for one more definition of its
    /// terms.
    ResumeLast { offset: u8 },
}

/// What the definition list parser does with a line of an open list.
#[derive(Debug, Clone, Copy, PartialEq, Eq)]
pub enum ListContinuation {
    /// The list ends before this line.
    Close,
    /// A blank line: the list stays open and the reader stays where it is.
    Blank,
    /// The line continues the list: the reader advances by `pos` bytes and
    /// keeps `padding` columns of a tab.
    Advance { pos: usize, padding: usize },
}

/// What the term definition parser does with a line.
#[derive(Debug, Clone, Copy, PartialEq, Eq)]
pub enum TermOpening {
    /// The line does not open a definition.
    Declined,
    /// The line is a definition of the list: the lines of the list's paragraph
    /// become terms; with `advance`, the reader moves by that many bytes,
    /// keeps that padding, and a definition opens; without, none opens.
    Opened { advance: Option<(usize, usize)> },
}

/// The line has the definition marker at its first non-space byte (at
/// `block_offset`), and that byte is not indented (`block_indent` is zero).
pub open spec fn is_definition_line(line: Seq<u8>, block_offset: Option<usize>, block_indent: Option<usize>) -> bool {
    &&& block_offset is Some
    &&& line[block_offset.unwrap() as int] == DEFINITION_MARKER
    &&& block_indent == Some(0usize)
}

/// The column at which the content of a definition starts whose marker is at
/// `pos`: one column past the marker and past the spaces after it, counting
/// five spaces when more than eight follow (the content is then indented code);
/// `None` when no space follows the marker.
pub open spec fn definition_content_offset(line: Seq<u8>, pos: int) -> Option<int> {
    let w = indent_width_of(line.subrange(pos + 1, line.len() as int), pos + 1).0;
    if w < 1 {
        None
    } else if w > 8 {
        Some(pos + 1 + 5)
    } else {
        Some(pos + 1 + w)
    }
}

/// What a line does to definition lists, given whether the block it appears
/// in is one, the line, the position and indentation of its first non-space
/// byte, and the last child of that block. The offset is kept modulo 256.
pub open spec fn list_opening(
    parent_is_list: bool,
    line: Option<Seq<u8>>,
    block_offset: Option<usize>,
    block_indent: Option<usize>,
    last_child: Option<LastChild>,
) -> ListOpening {
    if parent_is_list || line is None {
        ListOpening::Declined
    } else if !is_definition_line(line.unwrap(), block_offset, block_indent) || last_child is None {
        ListOpening::Declined
    } else {
        match definition_content_offset(line.unwrap(), block_offset.unwrap() as int) {
            None => ListOpening::Declined,
            Some(w) => match last_child.unwrap() {
                LastChild::Paragraph { after_list } => if after_list {
                    ListOpening::ResumePrevious { offset: w as u8 }
                } else {
                    ListOpening::NewList { offset: w as u8 }
                },
                LastChild::List => ListOpening::ResumeLast { offset: w as u8 },
                LastChild::Other => ListOpening::Declined,
            },
        }
    }
}

/// What a line does to an open list whose definitions start at column
/// `offset`; the line starts at column `line_offset`.
pub open spec fn list_continuation(offset: u8, line: Option<Seq<u8>>, line_offset: int) -> ListContinuation {
    match line {
        None => ListContinuation::Close,
        Some(l) => if is_blank_bytes(l) {
            ListContinuation::Blank
        } else if indent_width_of(l, line_offset).0 < offset {
            ListContinuation::Close
        } else {
            match indent_position_of(l, line_offset, offset as int) {
                Some((p, pad)) => ListContinuation::Advance { pos: p as usize, padding: pad as usize },
                None => ListContinuation::Close,
            }
        },
    }
}

/// What a line does as a definition of the list it appears in; the list's
/// offset is given when the block it appears in is a definition list.
pub open spec fn term_opening(
    line: Option<Seq<u8>>,
    block_offset: Option<usize>,
    block_indent: Option<usize>,
    list_offset: Option<u8>,
) -> TermOpening {
    if line is None || !is_definition_line(line.unwrap(), block_offset, block_indent)
        || list_offset is None {
        TermOpening::Declined
    } else {
        let l = line.unwrap();
        let pos = block_offset.unwrap() as int;
        let width = list_offset.unwrap() - pos - 1;
        TermOpening::Opened {
            advance: match indent_position_of(l.subrange(pos + 1, l.len() as int), pos + 1, width) {
                Some((p, pad)) => Some(((p + 1) as usize, pad as usize)),
                None => None,
            },
        }
    }
}

/// The offset that a list takes from a line that opens it.
pub open spec fn opening_offset(o: ListOpening) -> Option<u8> {
    match o {
        ListOpening::Declined => None,
        ListOpening::NewList { offset } => Some(offset),
        ListOpening::ResumePrevious { offset } => Some(offset),
        ListOpening::ResumeLast { offset } => Some(offset),
    }
}

/// A definition needs at least one column of space after its marker, and its
/// content starts two to nine columns right of the marker; where more than
/// eight columns of space follow, the content starts six columns right of it.
pub proof fn law_definition_content_offset(line: Seq<u8>, pos: int)
    requires
        0 <= pos < line.len(),
    ensures
        definition_content_offset(line, pos) is None <==> indent_width_of(
            line.subrange(pos + 1, line.len() as int),
            pos + 1,
        ).0 < 1,
        definition_content_offset(line, pos) matches Some(o) ==> pos + 2 <= o <= pos + 9,
        indent_width_of(line.subrange(pos + 1, line.len() as int), pos + 1).0 > 8
            ==> definition_content_offset(line, pos) == Some(pos + 6),
{
}

/// A blank line never ends an open definition list; a line that is not blank
/// continues it exactly when it is indented at least to the list's offset,
/// and the reader then stops within the line and keeps less than a tab's
/// width of padding.
pub proof fn law_continuation_by_indentation(offset: u8, line: Seq<u8>, line_offset: int)
    ensures
        is_blank_bytes(line) ==> list_continuation(offset, Some(line), line_offset)
            == ListContinuation::Blank,
        !is_blank_bytes(line) ==> ((list_continuation(offset, Some(line), line_offset) is Advance)
            <==> indent_width_of(line, line_offset).0 >= offset),
        !is_blank_bytes(line) && indent_width_of(line, line_offset).0 < offset ==> list_continuation(
            offset,
            Some(line),
            line_offset,
        ) == ListContinuation::Close,
        list_continuation(offset, Some(line), line_offset) == ListContinuation::Blank ==> is_blank_bytes(line),
        list_continuation(offset, Some(line), line_offset) matches ListContinuation::Advance {
            pos,
            padding,
        } ==> pos <= line.len() && padding < 4,
{
    lemma_indent_position_bounded(line, line_offset, offset as int);
    if indent_width_of(line, line_offset).0 >= offset {
        lemma_indent_position_exists(line, line_offset, offset as int);
    }
}

/// A line that continues a list moves the reader to the list's offset and
/// no further: the bytes it skips are indentation exactly as wide as the
/// offset plus the overshoot of a tab that it keeps as padding, and without
/// their last byte they fall short of the offset.
pub proof fn law_continuation_stops_at_offset(offset: u8, line: Seq<u8>, line_offset: int)
    requires
        offset > 0,
        line.len() < usize::MAX,
    ensures
        list_continuation(offset, Some(line), line_offset) matches ListContinuation::Advance {
            pos,
            padding,
        } ==> pos > 0 && padding < 4 && indent_width_of(line.subrange(0, pos as int), line_offset) == (
            offset + padding,
            pos as int,
        ) && indent_width_of(line.subrange(0, pos - 1), line_offset).0 < offset,
{
    if indent_position_of(line, line_offset, offset as int) is Some {
        lemma_indent_position_columns(line, line_offset, offset as int);
    }
}

/// A line of text indented by spaces to at least the list's offset continues
/// the list, and the reader moves exactly `offset` bytes, without padding.
pub proof fn law_space_indented_continuation(offset: u8, line: Seq<u8>, line_offset: int)
    requires
        !is_blank_bytes(line),
        offset <= line.len(),
        forall|j: int| 0 <= j < offset ==> line[j] == 0x20u8,
    ensures
        list_continuation(offset, Some(line), line_offset) == (ListContinuation::Advance {
            pos: offset as usize,
            padding: 0,
        }),
{
    lemma_indent_scan_spaces(line, line_offset, 0, 0, offset as int);
    if offset > 0 {
        lemma_position_scan_spaces(line, line_offset, offset as int, 0, 0);
    }
}

/// The line that opens or reopens a definition list also opens the list's
/// definition: with the offset that the list took from it (short of 256
/// columns, where the offset would wrap), the term definition parser accepts
/// it and moves the reader to the content, keeping less than a tab's width of
/// padding.
pub proof fn law_opening_line_opens_definition(
    line: Seq<u8>,
    block_offset: Option<usize>,
    block_indent: Option<usize>,
    last_child: Option<LastChild>,
)
    requires
        block_offset matches Some(p) ==> p < line.len(),
        list_opening(false, Some(line), block_offset, block_indent, last_child)
            != ListOpening::Declined,
        definition_content_offset(line, block_offset.unwrap() as int).unwrap() < 256,
    ensures
        term_opening(
            Some(line),
            block_offset,
            block_indent,
            opening_offset(list_opening(false, Some(line), block_offset, block_indent, last_child)),
        ) matches TermOpening::Opened { advance: Some((_, pad)) } && pad < 4,
{
    let pos = block_offset.unwrap() as int;
    let rest = line.subrange(pos + 1, line.len() as int);
    let c = definition_content_offset(line, pos).unwrap();
    let o = opening_offset(list_opening(false, Some(line), block_offset, block_indent, last_child)).unwrap();
    assert(o == c);
    lemma_indent_position_exists(rest, pos + 1, c - pos - 1);
}

/// Which list a definition line opens depends on the last child alone, not on
/// where the content starts: an accepted line after a paragraph that follows
/// a list reopens that list, after any other paragraph starts a new list,
/// and after a list reopens that list; after any other block, or where the
/// block is itself a definition list, the line is declined. The list takes
/// the content offset, kept modulo 256.
pub proof fn law_opening_follows_last_child(
    parent_is_list: bool,
    line: Seq<u8>,
    block_offset: Option<usize>,
    block_indent: Option<usize>,
    last_child: Option<LastChild>,
)
    ensures
        ({
            let r = list_opening(parent_is_list, Some(line), block_offset, block_indent, last_child);
            let accepted = !parent_is_list && is_definition_line(line, block_offset, block_indent)
                && definition_content_offset(line, block_offset.unwrap() as int) is Some;
            let offset = definition_content_offset(line, block_offset.unwrap() as int).unwrap() as u8;
            &&& (accepted && last_child == Some(LastChild::Paragraph { after_list: true })) ==> r
                == (ListOpening::ResumePrevious { offset })
            &&& (accepted && last_child == Some(LastChild::Paragraph { after_list: false })) ==> r
                == (ListOpening::NewList { offset })
            &&& (accepted && last_child == Some(LastChild::List)) ==> r == (ListOpening::ResumeLast {
                offset,
            })
            &&& (!accepted || last_child is None || last_child == Some(LastChild::Other)) ==> r
                == ListOpening::Declined
        }),
{
}

/// Two definition lines that are both accepted after the same last child
/// open the same kind of list, whatever their content offsets.
pub proof fn law_opening_kind_ignores_offset(
    line1: Seq<u8>,
    block_offset1: Option<usize>,
    line2: Seq<u8>,
    block_offset2: Option<usize>,
    last_child: Option<LastChild>,
)
    requires
        list_opening(false, Some(line1), block_offset1, Some(0usize), last_child) != ListOpening::Declined,
        list_opening(false, Some(line2), block_offset2, Some(0usize), last_child) != ListOpening::Declined,
    ensures
        list_opening(false, Some(line1), block_offset1, Some(0usize), last_child) is ResumePrevious
            <==> list_opening(false, Some(line2), block_offset2, Some(0usize), last_child) is ResumePrevious,
        list_opening(false, Some(line1), block_offset1, Some(0usize), last_child) is NewList
            <==> list_opening(false, Some(line2), block_offset2, Some(0usize), last_child) is NewList,
        list_opening(false, Some(line1), block_offset1, Some(0usize), last_child) is ResumeLast
            <==> list_opening(false, Some(line2), block_offset2, Some(0usize), last_child) is ResumeLast,
{
}

/// A definition moves the reader to the list's offset and no further: the
/// bytes it skips after the marker are indentation exactly as wide as the
/// columns from the marker's next column to the offset, plus the overshoot of
/// a tab (less than four columns) that it keeps as padding, and without their
/// last byte they fall short of the offset. Where the line's indentation
/// after the marker is narrower, no definition opens.
pub proof fn law_definition_stops_at_offset(
    line: Seq<u8>,
    block_offset: Option<usize>,
    block_indent: Option<usize>,
    list_offset: u8,
)
    requires
        line.len() < usize::MAX,
        block_offset matches Some(p) ==> p < line.len(),
        is_definition_line(line, block_offset, block_indent),
        block_offset.unwrap() + 1 < list_offset,
    ensures
        ({
            let pos = block_offset.unwrap() as int;
            let rest = line.subrange(pos + 1, line.len() as int);
            let width = list_offset - pos - 1;
            match term_opening(Some(line), block_offset, block_indent, Some(list_offset)) {
                TermOpening::Opened { advance: Some((n, pad)) } => {
                    &&& 1 <= n - 1 <= rest.len()
                    &&& pad < 4
                    &&& indent_width_of(rest.subrange(0, n - 1), pos + 1) == (width + pad, n - 1)
                    &&& indent_width_of(rest.subrange(0, n - 2), pos + 1).0 < width
                },
                TermOpening::Opened { advance: None } => indent_width_of(rest, pos + 1).0 < width,
                TermOpening::Declined => false,
            }
        }),
{
    let pos = block_offset.unwrap() as int;
    let rest = line.subrange(pos + 1, line.len() as int);
    let width = list_offset - pos - 1;
    lemma_indent_position_bounded(rest, pos + 1, width);
    if indent_width_of(rest, pos + 1).0 >= width {
        lemma_indent_position_exists(rest, pos + 1, width);
    }
    if indent_position_of(rest, pos + 1, width) is Some {
        lemma_indent_position_columns(rest, pos + 1, width);
    }
}

/// Terms keep the start of their paragraph lines and lose exactly the
/// trailing space characters: what is cut off is spaces, and a non-empty term
/// ends in a byte that is not a space.
pub proof fn law_terms_without_trailing_spaces(line: SourceLine, source: Seq<u8>)
    requires
        line.start <= line.stop <= source.len(),
    ensures
        trimmed_line(line, source).start == line.start,
        trimmed_line(line, source).start <= trimmed_line(line, source).stop <= line.stop,
        trimmed_line(line, source).start < trimmed_line(line, source).stop ==> !is_space_byte(
            source[trimmed_line(line, source).stop - 1],
        ),
        forall|j: int|
            trimmed_line(line, source).stop <= j < line.stop ==> is_space_byte(#[trigger] source[j]),
{
    let v = source.subrange(line.start as int, line.stop as int);
    lemma_trailing_space_count(v);
    let t = trimmed_line(line, source);
    assert forall|j: int| t.stop <= j < line.stop implies is_space_byte(#[trigger] source[j]) by {
        assert(source[j] == v[j - line.start]);
    }
    if t.start < t.stop {
        assert(source[t.stop - 1] == v[t.stop - 1 - line.start]);
    }
}

/// Parses definition lists: decides when a definition line opens or reopens a
/// list and how far a list reaches.
#[derive(Debug, Default)]
pub struct DefinitionListParser {}

impl DefinitionListParser {
    pub fn new() -> (r: Self)
        ensures
            r == (DefinitionListParser {}),
    {
        Self {}
    }

    /// The byte that triggers this parser: the definition marker.
    pub fn trigger(&self) -> (r: u8)
        ensures
            r == DEFINITION_MARKER,
    {
        DEFINITION_MARKER
    }

    /// A definition list may interrupt a paragraph.
    pub fn can_interrupt_paragraph(&self) -> (r: bool)
        ensures
            r,
    {
        true
    }

    /// Decides what `line` does to definition lists. `parent_is_list` tells
    /// whether the block it appears in is a definition list, `block_offset`
    /// and `block_indent` are the position and indentation of its first
    /// non-space byte, and `last_child` is the last child of that block.
    pub fn open(
        &self,
        parent_is_list: bool,
        line: Option<&[u8]>,
        block_offset: Option<usize>,
        block_indent: Option<usize>,
        last_child: Option<LastChild>,
    ) -> (r: ListOpening)
        requires
            !parent_is_list ==> (line matches Some(l) ==> 4 * l@.len() <= usize::MAX),
            !parent_is_list ==> (line matches Some(l) && block_offset matches Some(p) ==> p < l@.len()),
        ensures
            r == list_opening(
                parent_is_list,
                match line {
                    Some(l) => Some(l@),
                    None => None,
                },
                block_offset,
                block_indent,
                last_child,
            ),
    {
        if parent_is_list {
            return ListOpening::Declined;
        }
        let line = match line {
            Some(l) => l,
            None => return ListOpening::Declined,
        };
        let pos = match block_offset {
            Some(p) => p,
            None => return ListOpening::Declined,
        };
        let indent = match block_indent {
            Some(i) => i,
            None => 1,
        };
        if line[pos] != DEFINITION_MARKER || indent != 0 {
            return ListOpening::Declined;
        }
        let last = match last_child {
            Some(c) => c,
            None => return ListOpening::Declined,
        };
        let rest = vstd::slice::slice_subrange(line, pos + 1, line.len());
        let (mut w, _) = indent_width(rest, pos + 1);
        // at least one space after the marker
        if w < 1 {
            return ListOpening::Declined;
        }
        if w > 8 {
            // the content is indented code
            w = 5;
        }
        w += pos + 1;
        let offset = w as u8;
        match last {
            LastChild::Paragraph { after_list } => {
                if after_list {
                    ListOpening::ResumePrevious { offset }
                } else {
                    ListOpening::NewList { offset }
                }
            },
            LastChild::List => ListOpening::ResumeLast { offset },
            LastChild::Other => ListOpening::Declined,
        }
    }

    /// Decides what `line` does to an open `list`; the line starts at column
    /// `line_offset`.
    pub fn cont(&self, list: &DefinitionList, line: Option<&[u8]>, line_offset: usize) -> (r: ListContinuation)
        requires
            line matches Some(l) ==> line_offset + 4 * l@.len() + 260 <= usize::MAX,
        ensures
            r == list_continuation(
                list@.offset,
                match line {
                    Some(l) => Some(l@),
                    None => None,
                },
                line_offset as int,
            ),
    {
        let line = match line {
            Some(l) => l,
            None => return ListContinuation::Close,
        };
        if is_blank(line) {
            return ListContinuation::Blank;
        }
        let offset = list.offset();
        let w = indent_width(line, line_offset).0;
        if w < offset as usize {
            ListContinuation::Close
        } else {
            match indent_position(line, line_offset, offset as usize) {
                Some((pos, padding)) => ListContinuation::Advance { pos, padding },
                None => ListContinuation::Close,
            }
        }
    }
}

/// Parses the definitions of a definition list: turns the lines of the
/// list's paragraph into terms and opens a definition at the marker.
#[derive(Debug, Default)]
pub struct TermDefinitionParser {}

impl TermDefinitionParser {
    pub fn new() -> (r: Self)
        ensures
            r == (TermDefinitionParser {}),
    {
        Self {}
    }

    /// The byte that triggers this parser: the definition marker.
    pub fn trigger(&self) -> (r: u8)
        ensures
            r == DEFINITION_MARKER,
    {
        DEFINITION_MARKER
    }

    /// A definition may interrupt a paragraph.
    pub fn can_interrupt_paragraph(&self) -> (r: bool)
        ensures
            r,
    {
        true
    }

    /// Decides what `line` does as a definition. `list_offset` is the offset
    /// of the definition list the line appears in, `None` when the block it
    /// appears in is not a definition list.
    pub fn open(
        &self,
        line: Option<&[u8]>,
        block_offset: Option<usize>,
        block_indent: Option<usize>,
        list_offset: Option<u8>,
    ) -> (r: TermOpening)
        requires
            line matches Some(l) && block_offset matches Some(p) ==> p < l@.len(),
            line matches Some(l) ==> (is_definition_line(l@, block_offset, block_indent) ==> (
            list_offset matches Some(o) ==> block_offset.unwrap() + 1 <= o)),
        ensures
            r == term_opening(
                match line {
                    Some(l) => Some(l@),
                    None => None,
                },
                block_offset,
                block_indent,
                list_offset,
            ),
    {
        let line = match line {
            Some(l) => l,
            None => return TermOpening::Declined,
        };
        let pos = match block_offset {
            Some(p) => p,
            None => return TermOpening::Declined,
        };
        let indent = match block_indent {
            Some(i) => i,
            None => 1,
        };
        if line[pos] != DEFINITION_MARKER || indent != 0 {
            return TermOpening::Declined;
        }
        let offset = match list_offset {
            Some(o) => o,
            None => return TermOpening::Declined,
        };
        let rest = vstd::slice::slice_subrange(line, pos + 1, line.len());
        proof {
            lemma_indent_position_bounded(rest@, (pos + 1) as int, (offset - pos - 1) as int);
        }
        let advance = match indent_position(rest, pos + 1, (offset as usize) - pos - 1) {
            Some((p, padding)) => Some((p + 1, padding)),
            None => None,
        };
        TermOpening::Opened { advance }
    }

    /// The terms that the lines of the list's paragraph become: each line
    /// without its trailing spaces.
    pub fn term_lines(&self, paragraph: &[SourceLine], source: &str) -> (r: Vec<SourceLine>)
        requires
            forall|i: int|
                0 <= i < paragraph@.len() ==> #[trigger] paragraph@[i].start <= paragraph@[i].stop
                    <= source.spec_bytes().len(),
        ensures
            r@.len() == paragraph@.len(),
            forall|i: int|
                0 <= i < r@.len() ==> #[trigger] r@[i] == trimmed_line(paragraph@[i], source.spec_bytes()),
    {
        let mut r: Vec<SourceLine> = Vec::new();
        let mut i: usize = 0;
        while i < paragraph.len()
            invariant
                i <= paragraph@.len(),
                r@.len() == i,
                forall|k: int|
                    0 <= k < paragraph@.len() ==> #[trigger] paragraph@[k].start <= paragraph@[k].stop
                        <= source.spec_bytes().len(),
                forall|k: int|
                    0 <= k < i ==> #[trigger] r@[k] == trimmed_line(paragraph@[k], source.spec_bytes()),
            decreases paragraph@.len() - i,
        {
            let t = trim_right_space(paragraph[i], source);
            r.push(t);
            i += 1;
        }
        r
    }

    /// Decides which definition list a closing definition makes loose:
    /// when a blank line came before it, the nearest of its ancestors (listed
    /// from its parent up, each telling whether it is a definition list) that
    /// is a definition list; otherwise none.
    pub fn close(&self, has_blank_previous_line: bool, ancestors_are_lists: &[bool]) -> (r: Option<usize>)
        ensures
            match r {
                Some(i) => has_blank_previous_line && i < ancestors_are_lists@.len()
                    && ancestors_are_lists@[i as int] && forall|j: int|
                    0 <= j < i ==> !ancestors_are_lists@[j],
                None => !has_blank_previous_line || forall|j: int|
                    0 <= j < ancestors_are_lists@.len() ==> !ancestors_are_lists@[j],
            },
    {
        if !has_blank_previous_line {
            return None;
        }
        let mut i: usize = 0;
        while i < ancestors_are_lists.len()
            invariant
                has_blank_previous_line,
                i <= ancestors_are_lists@.len(),
                forall|j: int| 0 <= j < i ==> !ancestors_are_lists@[j],
            decreases ancestors_are_lists@.len() - i,
        {
            if ancestors_are_lists[i] {
                return Some(i);
            }
            i += 1;
        }
        None
    }
}

} // verus!
