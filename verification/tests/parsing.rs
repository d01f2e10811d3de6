use rushdown::ast::NodeRef;
use rushdown_definition_list::indent::SourceLine;
use rushdown_definition_list::parser::{
    LastChild, ListContinuation, ListOpening, TermOpening, DEFINITION_LIST_PARSER_PRIORITY,
    DEFINITION_MARKER, TERM_DEFINITION_PARSER_PRIORITY,
};
use rushdown_definition_list::{DefinitionList, DefinitionListParser, TermDefinitionParser};

const PARA: Option<LastChild> = Some(LastChild::Paragraph { after_list: false });

fn open(line: &[u8], last: Option<LastChild>) -> ListOpening {
    DefinitionListParser::new().open(false, Some(line), Some(0), Some(0), last)
}

#[test]
fn parsers_are_triggered_by_the_colon() {
    assert_eq!(DEFINITION_MARKER, b':');
    assert_eq!(DefinitionListParser::new().trigger(), b':');
    assert_eq!(TermDefinitionParser::new().trigger(), b':');
    assert!(DefinitionListParser::new().can_interrupt_paragraph());
    assert!(TermDefinitionParser::new().can_interrupt_paragraph());
    assert_eq!(DEFINITION_LIST_PARSER_PRIORITY, 101);
    assert_eq!(TERM_DEFINITION_PARSER_PRIORITY, 102);
}

#[test]
fn definition_after_paragraph_starts_a_list() {
    assert_eq!(open(b":   Pomaceous fruit\n", PARA), ListOpening::NewList { offset: 4 });
    assert_eq!(open(b": x\n", PARA), ListOpening::NewList { offset: 2 });
}

#[test]
fn definition_after_list_and_paragraph_resumes_that_list() {
    assert_eq!(
        open(b":   The fruit\n", Some(LastChild::Paragraph { after_list: true })),
        ListOpening::ResumePrevious { offset: 4 }
    );
}

#[test]
fn definition_after_list_adds_a_definition() {
    assert_eq!(open(b":  more\n", Some(LastChild::List)), ListOpening::ResumeLast { offset: 3 });
}

#[test]
fn definition_needs_a_space_after_the_marker() {
    assert_eq!(open(b":foo\n", PARA), ListOpening::Declined);
    assert_eq!(open(b":", PARA), ListOpening::Declined);
}

#[test]
fn tab_after_the_marker_reaches_the_next_tab_stop() {
    // a tab at column 1 spans three columns
    assert_eq!(open(b":\tfoo\n", PARA), ListOpening::NewList { offset: 4 });
}

#[test]
fn more_than_eight_spaces_start_indented_code() {
    assert_eq!(open(b":        x\n", PARA), ListOpening::NewList { offset: 9 });
    assert_eq!(open(b":         x\n", PARA), ListOpening::NewList { offset: 6 });
}

#[test]
fn other_lines_and_places_are_declined() {
    let p = DefinitionListParser::new();
    assert_eq!(open(b"-   x\n", PARA), ListOpening::Declined);
    assert_eq!(open(b":   x\n", None), ListOpening::Declined);
    assert_eq!(open(b":   x\n", Some(LastChild::Other)), ListOpening::Declined);
    assert_eq!(p.open(true, Some(b":   x\n"), Some(0), Some(0), PARA), ListOpening::Declined);
    assert_eq!(p.open(false, None, Some(0), Some(0), PARA), ListOpening::Declined);
    assert_eq!(p.open(false, Some(b"   \n"), None, None, PARA), ListOpening::Declined);
    assert_eq!(p.open(false, Some(b" :   x\n"), Some(1), Some(1), PARA), ListOpening::Declined);
    assert_eq!(p.open(false, Some(b":   x\n"), Some(0), None, PARA), ListOpening::Declined);
}

#[test]
fn offset_is_kept_modulo_256() {
    let mut line = vec![b' '; 252];
    line.extend_from_slice(b":   x\n");
    let r = DefinitionListParser::new().open(false, Some(&line), Some(252), Some(0), PARA);
    assert_eq!(r, ListOpening::NewList { offset: 0 });
}

fn list(offset: u8) -> DefinitionList {
    DefinitionList::with_offset_and_paragraph(offset, NodeRef::new(0, 0))
}

#[test]
fn blank_line_keeps_the_list_open() {
    let p = DefinitionListParser::new();
    assert_eq!(p.cont(&list(4), Some(b"   \n"), 0), ListContinuation::Blank);
    assert_eq!(p.cont(&list(4), Some(b""), 0), ListContinuation::Blank);
}

#[test]
fn indented_line_continues_the_list() {
    let p = DefinitionListParser::new();
    assert_eq!(
        p.cont(&list(4), Some(b"    more\n"), 0),
        ListContinuation::Advance { pos: 4, padding: 0 }
    );
    assert_eq!(
        p.cont(&list(4), Some(b"      more\n"), 0),
        ListContinuation::Advance { pos: 4, padding: 0 }
    );
    assert_eq!(p.cont(&list(4), Some(b"\tmore\n"), 0), ListContinuation::Advance { pos: 1, padding: 0 });
    assert_eq!(p.cont(&list(2), Some(b"\tmore\n"), 0), ListContinuation::Advance { pos: 1, padding: 2 });
}

#[test]
fn shallow_line_closes_the_list() {
    let p = DefinitionListParser::new();
    assert_eq!(p.cont(&list(4), Some(b"  next\n"), 0), ListContinuation::Close);
    assert_eq!(p.cont(&list(4), Some(b"Orange\n"), 0), ListContinuation::Close);
    assert_eq!(p.cont(&list(4), None, 0), ListContinuation::Close);
}

#[test]
fn definition_opens_at_the_list_offset() {
    let t = TermDefinitionParser::new();
    assert_eq!(
        t.open(Some(b":   def\n"), Some(0), Some(0), Some(4)),
        TermOpening::Opened { advance: Some((4, 0)) }
    );
    assert_eq!(
        t.open(Some(b":\tdef\n"), Some(0), Some(0), Some(4)),
        TermOpening::Opened { advance: Some((2, 0)) }
    );
}

#[test]
fn definition_without_room_opens_nothing() {
    let t = TermDefinitionParser::new();
    assert_eq!(
        t.open(Some(b": def\n"), Some(0), Some(0), Some(4)),
        TermOpening::Opened { advance: None }
    );
}

#[test]
fn definition_outside_a_list_is_declined() {
    let t = TermDefinitionParser::new();
    assert_eq!(t.open(Some(b":   def\n"), Some(0), Some(0), None), TermOpening::Declined);
    assert_eq!(t.open(Some(b"x   def\n"), Some(0), Some(0), Some(4)), TermOpening::Declined);
    assert_eq!(t.open(Some(b":   def\n"), Some(0), Some(2), Some(4)), TermOpening::Declined);
    assert_eq!(t.open(None, Some(0), Some(0), Some(4)), TermOpening::Declined);
    assert_eq!(t.open(Some(b"\n"), None, None, Some(4)), TermOpening::Declined);
}

#[test]
fn opening_line_opens_its_first_definition() {
    let line: &[u8] = b":     Apple\n";
    let r = DefinitionListParser::new().open(false, Some(line), Some(0), Some(0), PARA);
    assert_eq!(r, ListOpening::NewList { offset: 6 });
    let t = TermDefinitionParser::new().open(Some(line), Some(0), Some(0), Some(6));
    assert_eq!(t, TermOpening::Opened { advance: Some((6, 0)) });
}

#[test]
fn paragraph_lines_become_trimmed_terms() {
    let source = "Apple  \nOrange\t\n   \n";
    let lines = [
        SourceLine { start: 0, stop: 8, padding: 0 },
        SourceLine { start: 8, stop: 16, padding: 1 },
        SourceLine { start: 16, stop: 20, padding: 2 },
    ];
    let terms = TermDefinitionParser::new().term_lines(&lines, source);
    assert_eq!(
        terms,
        vec![
            SourceLine { start: 0, stop: 5, padding: 0 },
            SourceLine { start: 8, stop: 14, padding: 1 },
            SourceLine { start: 16, stop: 16, padding: 0 },
        ]
    );
    assert!(TermDefinitionParser::new().term_lines(&[], source).is_empty());
}

#[test]
fn blank_line_before_definition_loosens_nearest_list() {
    let t = TermDefinitionParser::new();
    assert_eq!(t.close(true, &[true]), Some(0));
    assert_eq!(t.close(true, &[false, false, true, true]), Some(2));
    assert_eq!(t.close(true, &[false, false]), None);
    assert_eq!(t.close(true, &[]), None);
    assert_eq!(t.close(false, &[true]), None);
}
