use rushdown::ast::NodeRef;
use vstd::prelude::*;

verus! {

/// rushdown's reference to a node of the document tree, carried through
/// unread.
#[verifier::external_type_specification]
#[verifier::external_body]
pub struct ExNodeRef(rushdown::ast::NodeRef);

/// rushdown's document tree, read only by rushdown's own functions.
#[verifier::external_type_specification]
#[verifier::external_body]
pub struct ExArena(rushdown::ast::Arena);

/// What a definition list holds: the content offset of its current
/// definition, the paragraph whose lines become its terms, and whether it is
/// tight.
pub struct DefinitionListView {
    pub offset: u8,
    pub temp_paragraph: Option<NodeRef>,
    pub is_tight: bool,
}

/// Represents a definition list in the AST.
#[derive(Debug)]
pub struct DefinitionList {
    offset: u8,
    temp_paragraph: Option<NodeRef>,
    is_tight: bool,
}

impl View for DefinitionList {
    type V = DefinitionListView;

    closed spec fn view(&self) -> DefinitionListView {
        DefinitionListView {
            offset: self.offset,
            temp_paragraph: self.temp_paragraph,
            is_tight: self.is_tight,
        }
    }
}

impl Default for DefinitionList {
    fn default() -> (r: Self)
        ensures
            r@ == (DefinitionListView { offset: 0, temp_paragraph: None, is_tight: true }),
    {
        Self::new()
    }
}

impl DefinitionList {
    /// Creates a new `DefinitionList`.
    pub fn new() -> (r: Self)
        ensures
            r@ == (DefinitionListView { offset: 0, temp_paragraph: None, is_tight: true }),
    {
        Self { offset: 0, temp_paragraph: None, is_tight: true }
    }

    /// Creates a tight definition list whose definitions start at `offset` and
    /// whose terms are the lines of `temp_paragraph`.
    pub fn with_offset_and_paragraph(offset: u8, temp_paragraph: NodeRef) -> (r: Self)
        ensures
            r@ == (DefinitionListView {
                offset,
                temp_paragraph: Some(temp_paragraph),
                is_tight: true,
            }),
    {
        Self { offset, temp_paragraph: Some(temp_paragraph), is_tight: true }
    }

    /// Sets whether the definition list is tight or loose.
    pub fn set_tight(&mut self, tight: bool)
        ensures
            final(self)@ == (DefinitionListView { is_tight: tight, ..old(self)@ }),
    {
        self.is_tight = tight;
    }

    /// Returns whether the definition list is tight or loose.
    pub fn is_tight(&self) -> (r: bool)
        ensures
            r == self@.is_tight,
    {
        self.is_tight
    }

    /// The column at which the content of the current definition starts.
    pub fn offset(&self) -> (r: u8)
        ensures
            r == self@.offset,
    {
        self.offset
    }

    /// Starts another definition of this list at `offset`, with the terms of
    /// `temp_paragraph` (none when the definition adds to the same terms).
    pub fn reopen(&mut self, offset: u8, temp_paragraph: Option<NodeRef>)
        ensures
            final(self)@ == (DefinitionListView { offset, temp_paragraph, ..old(self)@ }),
    {
        self.offset = offset;
        self.temp_paragraph = temp_paragraph;
    }

    /// Records that one of the list's definitions closed: a definition that
    /// follows a blank line makes the list loose. A list never becomes tight
    /// again this way: its tightness only ever falls.
    pub fn close_definition(&mut self, has_blank_previous_line: bool)
        ensures
            final(self)@ == (DefinitionListView {
                is_tight: old(self)@.is_tight && !has_blank_previous_line,
                ..old(self)@
            }),
            final(self)@.is_tight ==> old(self)@.is_tight,
    {
        if has_blank_previous_line {
            self.set_tight(false);
        }
    }

    /// Hands out the paragraph that holds the terms, leaving none.
    pub fn take_temp_paragraph(&mut self) -> (r: Option<NodeRef>)
        ensures
            r == old(self)@.temp_paragraph,
            final(self)@ == (DefinitionListView { temp_paragraph: None, ..old(self)@ }),
    {
        self.temp_paragraph.take()
    }
}

/// Represents a term in the AST.
#[derive(Debug)]
pub struct Term {}

impl Default for Term {
    fn default() -> (r: Self)
        ensures
            r == (Term {}),
    {
        Self::new()
    }
}

impl Term {
    /// Creates a new `Term`.
    pub fn new() -> (r: Self)
        ensures
            r == (Term {}),
    {
        Term {}
    }
}

/// Represents a term definition in the AST.
#[derive(Debug)]
pub struct TermDefinition {}

impl Default for TermDefinition {
    fn default() -> (r: Self)
        ensures
            r == (TermDefinition {}),
    {
        Self::new()
    }
}

impl TermDefinition {
    /// Creates a new `TermDefinition`.
    pub fn new() -> (r: Self)
        ensures
            r == (TermDefinition {}),
    {
        TermDefinition {}
    }
}

} // verus!
