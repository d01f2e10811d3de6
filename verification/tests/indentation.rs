use rushdown::ast::NodeRef;
use rushdown_definition_list::indent::SourceLine;
use rushdown_definition_list::parser::{LastChild, ListContinuation, ListOpening, TermOpening};
use rushdown_definition_list::{DefinitionList, DefinitionListParser, TermDefinitionParser};

fn cont(offset: u8, line: &[u8], line_offset: usize) -> ListContinuation {
    let list = DefinitionList::with_offset_and_paragraph(offset, NodeRef::new(0, 0));
    DefinitionListParser::new().cont(&list, Some(line), line_offset)
}

fn content_offset(line: &[u8]) -> ListOpening {
    DefinitionListParser::new().open(
        false,
        Some(line),
        Some(0),
        Some(0),
        Some(LastChild::Paragraph { after_list: false }),
    )
}

#[test]
fn blank_lines_are_spaces_only() {
    assert_eq!(cont(4, b"", 0), ListContinuation::Blank);
    assert_eq!(cont(4, b" \t\r\n", 0), ListContinuation::Blank);
    assert_eq!(cont(4, b"  x\n", 0), ListContinuation::Close);
    // vertical tab and form feed are not spaces here
    assert_eq!(cont(4, &[0x0b], 0), ListContinuation::Close);
    assert_eq!(cont(4, &[0x0c], 0), ListContinuation::Close);
}

#[test]
fn indent_width_counts_spaces_and_tabs() {
    assert_eq!(content_offset(b":   x"), ListOpening::NewList { offset: 4 });
    // two spaces from column 1, then a tab from column 3 to column 4
    assert_eq!(content_offset(b":  \tx"), ListOpening::NewList { offset: 4 });
    // a tab at column 1 spans three columns
    assert_eq!(content_offset(b":\tx"), ListOpening::NewList { offset: 4 });
    // a space at column 1, a tab from column 2 to 4, a space
    assert_eq!(content_offset(b": \t x"), ListOpening::NewList { offset: 5 });
    assert_eq!(content_offset(b":\t\tx"), ListOpening::NewList { offset: 8 });
}

#[test]
fn indent_position_finds_the_column() {
    assert_eq!(cont(4, b"    x", 0), ListContinuation::Advance { pos: 4, padding: 0 });
    assert_eq!(cont(4, b"      x", 0), ListContinuation::Advance { pos: 4, padding: 0 });
    // the tab overshoots width 2 by two columns
    assert_eq!(cont(2, b"\tx", 0), ListContinuation::Advance { pos: 1, padding: 2 });
    // from column 3 a tab spans one column only
    assert_eq!(cont(2, b" \tx", 2), ListContinuation::Advance { pos: 2, padding: 0 });
    assert_eq!(cont(0, b"x", 0), ListContinuation::Advance { pos: 0, padding: 0 });
    assert_eq!(
        TermDefinitionParser::new().open(Some(b": \tx"), Some(0), Some(0), Some(3)),
        TermOpening::Opened { advance: Some((3, 1)) }
    );
}

#[test]
fn trim_right_space_drops_trailing_spaces() {
    let src = "ab \t\nc";
    let t = TermDefinitionParser::new().term_lines(
        &[
            SourceLine { start: 0, stop: 5, padding: 2 },
            SourceLine { start: 5, stop: 6, padding: 0 },
        ],
        src,
    );
    assert_eq!(
        t,
        vec![
            SourceLine { start: 0, stop: 2, padding: 2 },
            SourceLine { start: 5, stop: 6, padding: 0 },
        ]
    );
}

#[test]
fn trim_right_space_empties_a_space_only_line() {
    let src = "x  \n";
    let t = TermDefinitionParser::new().term_lines(&[SourceLine { start: 1, stop: 4, padding: 3 }], src);
    assert_eq!(t, vec![SourceLine { start: 1, stop: 1, padding: 0 }]);
}
