use rushdown::ast::NodeRef;
use rushdown_definition_list::{DefinitionList, Term, TermDefinition};

#[test]
fn term_and_definition_are_created() {
    let _t: Term = Term::new();
    let _d: TermDefinition = TermDefinition::new();
}

#[test]
fn new_list_is_tight_without_terms() {
    let l = DefinitionList::new();
    assert!(l.is_tight());
    assert_eq!(l.offset(), 0);
    let mut l = l;
    assert!(l.take_temp_paragraph().is_none());
}

#[test]
fn default_list_equals_new_list() {
    let mut l = DefinitionList::default();
    assert!(l.is_tight());
    assert_eq!(l.offset(), 0);
    assert!(l.take_temp_paragraph().is_none());
}

#[test]
fn set_tight_is_read_back() {
    let mut l = DefinitionList::new();
    l.set_tight(false);
    assert!(!l.is_tight());
    l.set_tight(true);
    assert!(l.is_tight());
    l.set_tight(false);
    l.set_tight(false);
    assert!(!l.is_tight());
}

#[test]
fn list_with_offset_and_paragraph_holds_both() {
    let p = NodeRef::new(3, 9);
    let mut l = DefinitionList::with_offset_and_paragraph(7, p);
    assert_eq!(l.offset(), 7);
    assert!(l.is_tight());
    assert_eq!(l.take_temp_paragraph(), Some(p));
    assert_eq!(l.take_temp_paragraph(), None);
    assert_eq!(l.offset(), 7);
}

#[test]
fn reopen_keeps_tightness() {
    let mut l = DefinitionList::with_offset_and_paragraph(4, NodeRef::new(1, 1));
    l.set_tight(false);
    let q = NodeRef::new(2, 5);
    l.reopen(6, Some(q));
    assert_eq!(l.offset(), 6);
    assert!(!l.is_tight());
    assert_eq!(l.take_temp_paragraph(), Some(q));
    l.reopen(3, None);
    assert_eq!(l.offset(), 3);
    assert_eq!(l.take_temp_paragraph(), None);
}

#[test]
fn closing_after_blank_line_loosens_for_good() {
    let mut l = DefinitionList::with_offset_and_paragraph(4, NodeRef::new(1, 1));
    l.close_definition(false);
    assert!(l.is_tight());
    l.close_definition(true);
    assert!(!l.is_tight());
    l.close_definition(false);
    assert!(!l.is_tight());
    assert_eq!(l.offset(), 4);
    assert_eq!(l.take_temp_paragraph(), Some(NodeRef::new(1, 1)));
}
