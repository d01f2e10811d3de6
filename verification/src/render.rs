//! The HTML that the renderers of definition lists write, and the rule that
//! decides whether a paragraph sits in a tight list.
use rushdown::ast::Arena;
use rushdown::ast::NodeRef;
use vstd::prelude::*;

verus! {

/// The markup of a definition list: `<dl>` and a newline on entering, `</dl>`
/// and a newline on leaving.
pub open spec fn list_markup(entering: bool) -> Seq<char> {
    if entering {
        seq!['<', 'd', 'l', '>', '\n']
    } else {
        seq!['<', '/', 'd', 'l', '>', '\n']
    }
}

/// The markup of a term: `<dt>` on entering, `</dt>` and a newline on leaving.
pub open spec fn term_markup(entering: bool) -> Seq<char> {
    if entering {
        seq!['<', 'd', 't', '>']
    } else {
        seq!['<', '/', 'd', 't', '>', '\n']
    }
}

/// The pieces of markup of a definition, in the order they are written:
/// `<dd>` on entering, followed by a newline when its parent is a loose
/// definition list (`parent_list_tight` is given when the parent is a
/// definition list); `</dd>` and a newline on leaving.
pub open spec fn definition_markup(entering: bool, parent_list_tight: Option<bool>) -> Seq<Seq<char>> {
    if entering {
        if parent_list_tight == Some(false) {
            seq![seq!['<', 'd', 'd', '>'], seq!['\n']]
        } else {
            seq![seq!['<', 'd', 'd', '>']]
        }
    } else {
        seq![seq!['<', '/', 'd', 'd', '>', '\n']]
    }
}

/// A definition always closes with `</dd>` and a newline, whatever list it
/// is in; it always opens with `<dd>`, followed by a newline exactly when its
/// parent is a loose definition list.
pub proof fn law_definition_markup(parent_list_tight: Option<bool>)
    ensures
        definition_markup(false, parent_list_tight) == seq![seq!['<', '/', 'd', 'd', '>', '\n']],
        definition_markup(true, parent_list_tight)[0] == seq!['<', 'd', 'd', '>'],
        definition_markup(true, parent_list_tight).len() == 2 <==> parent_list_tight == Some(false),
        1 <= definition_markup(true, parent_list_tight).len() <= 2,
        definition_markup(true, parent_list_tight).len() == 2 ==> definition_markup(
            true,
            parent_list_tight,
        )[1] == seq!['\n'],
{
}

/// The HTML to write for a definition list node.
pub fn definition_list_markup(entering: bool) -> (r: &'static str)
    ensures
        r@ == list_markup(entering),
{
    if entering {
        let s = "<dl>\n";
        proof {
            reveal_strlit("<dl>\n");
        }
        s
    } else {
        let s = "</dl>\n";
        proof {
            reveal_strlit("</dl>\n");
        }
        s
    }
}

/// The HTML to write for a term node.
pub fn term_markup_of(entering: bool) -> (r: &'static str)
    ensures
        r@ == term_markup(entering),
{
    if entering {
        let s = "<dt>";
        proof {
            reveal_strlit("<dt>");
        }
        s
    } else {
        let s = "</dt>\n";
        proof {
            reveal_strlit("</dt>\n");
        }
        s
    }
}

/// The pieces of HTML to write, in order, for a definition node.
/// `parent_list_tight` is the tightness of its parent when that is a
/// definition list, `None` otherwise.
pub fn definition_markup_of(entering: bool, parent_list_tight: Option<bool>) -> (r: Vec<&'static str>)
    ensures
        r@.len() == definition_markup(entering, parent_list_tight).len(),
        forall|i: int|
            0 <= i < r@.len() ==> #[trigger] r@[i]@ == definition_markup(entering, parent_list_tight)[i],
        !entering ==> r@.len() == 1 && r@[0]@ == seq!['<', '/', 'd', 'd', '>', '\n'],
{
    let mut r: Vec<&'static str> = Vec::new();
    if entering {
        let open = "<dd>";
        proof {
            reveal_strlit("<dd>");
        }
        r.push(open);
        match parent_list_tight {
            Some(tight) => {
                if !tight {
                    let nl = "\n";
                    proof {
                        reveal_strlit("\n");
                    }
                    r.push(nl);
                }
            },
            None => {},
        }
    } else {
        let close = "</dd>\n";
        proof {
            reveal_strlit("</dd>\n");
        }
        r.push(close);
    }
    r
}

/// Whether a paragraph belongs to a tight list, from the tightness of its
/// grandparent when that is a definition list (`None` otherwise) and from what
/// rushdown's HTML renderer says of rushdown's own lists (`in_tight_list`):
/// the definition list decides where there is one.
pub fn paragraph_is_tight(grandparent_list_tight: Option<bool>, in_tight_list: bool) -> (r: bool)
    ensures
        r == match grandparent_list_tight {
            Some(tight) => tight,
            None => in_tight_list,
        },
{
    match grandparent_list_tight {
        Some(tight) => tight,
        None => in_tight_list,
    }
}

/// Whether `node_ref` refers to a node that `arena` holds, as
/// `rushdown::ast::Arena::get` tells it.
pub uninterp spec fn node_is_live(arena: Arena, node_ref: NodeRef) -> bool;

/// The parent of the node `node_ref` of `arena`, as rushdown's `Node::parent`
/// gives it.
pub uninterp spec fn node_parent(arena: Arena, node_ref: NodeRef) -> Option<NodeRef>;

/// `arena` holds the node `node_ref`, its parent if it has one, and its
/// grandparent if that parent has one: the nodes that deciding its list's
/// tightness reads.
pub open spec fn ancestry_is_held(arena: Arena, node_ref: NodeRef) -> bool {
    &&& node_is_live(arena, node_ref)
    &&& match node_parent(arena, node_ref) {
        None => true,
        Some(p) => {
            &&& node_is_live(arena, p)
            &&& match node_parent(arena, p) {
                None => true,
                Some(g) => node_is_live(arena, g),
            }
        },
    }
}

/// The nodes that must be held are only those that exist: a held node
/// without a parent, or whose held parent has no parent, or whose parent and
/// grandparent are held, has its ancestry held; a node that is not held, or
/// whose existing parent or grandparent is not held, has not.
pub proof fn law_ancestry_held(arena: Arena, node_ref: NodeRef)
    ensures
        node_is_live(arena, node_ref) && node_parent(arena, node_ref) is None ==> ancestry_is_held(
            arena,
            node_ref,
        ),
        forall|p: NodeRef|
            node_is_live(arena, node_ref) && node_parent(arena, node_ref) == Some(p) && node_is_live(arena, p)
                && #[trigger] node_parent(arena, p) is None ==> ancestry_is_held(arena, node_ref),
        forall|p: NodeRef, g: NodeRef|
            node_is_live(arena, node_ref) && node_parent(arena, node_ref) == Some(p) && node_is_live(arena, p)
                && #[trigger] node_parent(arena, p) == Some(g) && #[trigger] node_is_live(arena, g)
                ==> ancestry_is_held(arena, node_ref),
        !node_is_live(arena, node_ref) ==> !ancestry_is_held(arena, node_ref),
        forall|p: NodeRef|
            node_parent(arena, node_ref) == Some(p) && !#[trigger] node_is_live(arena, p) ==> !ancestry_is_held(
                arena,
                node_ref,
            ),
        forall|p: NodeRef, g: NodeRef|
            node_parent(arena, node_ref) == Some(p) && #[trigger] node_parent(arena, p) == Some(g)
                && !#[trigger] node_is_live(arena, g) ==> !ancestry_is_held(arena, node_ref),
{
}

/// What `rushdown::renderer::html::is_in_tight_list` says of `node_ref` in
/// `arena`: whether its grandparent is a tight list of rushdown's own.
pub uninterp spec fn html_in_tight_list(arena: Arena, node_ref: NodeRef) -> bool;

/// Calls `rushdown::ast::Arena::get`, which finds the node that `node_ref`
/// refers to when `arena` holds it; the result tells whether it found one.
#[verifier::external_body]
fn arena_holds(arena: &Arena, node_ref: NodeRef) -> (r: bool)
    ensures
        r == node_is_live(*arena, node_ref),
{
    arena.get(node_ref).is_some()
}

/// Indexes `arena` at `node_ref` (which panics on a node the arena does not
/// hold, so `requires` rules that out) and calls `rushdown::ast::Node::parent`,
/// which gives the node's parent, if it has one.
#[verifier::external_body]
fn arena_parent(arena: &Arena, node_ref: NodeRef) -> (r: Option<NodeRef>)
    requires
        node_is_live(*arena, node_ref),
    ensures
        r == node_parent(*arena, node_ref),
{
    arena[node_ref].parent()
}

/// Whether `arena` holds `node_ref`, its parent and its grandparent, tested
/// one after the other.
fn holds_ancestry(arena: &Arena, node_ref: NodeRef) -> (r: bool)
    ensures
        r == ancestry_is_held(*arena, node_ref),
{
    if !arena_holds(arena, node_ref) {
        return false;
    }
    match arena_parent(arena, node_ref) {
        None => true,
        Some(p) => {
            if !arena_holds(arena, p) {
                return false;
            }
            match arena_parent(arena, p) {
                None => true,
                Some(g) => arena_holds(arena, g),
            }
        },
    }
}

/// Calls `rushdown::renderer::html::is_in_tight_list`, which reads the node,
/// its parent and its grandparent (indexing `arena`, which panics on a node
/// that the arena does not hold, so `requires` asks that it holds all three)
/// and is true when the grandparent is a tight
/// list of rushdown's own. Its result is a function of the arena and the node,
/// named `html_in_tight_list`; what it is on given values is not stated.
#[verifier::external_body]
fn rushdown_is_in_tight_list(arena: &Arena, node_ref: NodeRef) -> (r: bool)
    requires
        ancestry_is_held(*arena, node_ref),
    ensures
        r == html_in_tight_list(*arena, node_ref),
{
    rushdown::renderer::html::is_in_tight_list(arena, node_ref)
}

/// Returns true if the paragraph `node_ref` is a child of a tight list,
/// otherwise false. `grandparent_list_tight` is the tightness of its
/// grandparent when that is a definition list, `None` otherwise; then
/// rushdown's HTML renderer decides, by its own lists.
pub fn is_in_tight_list(arena: &Arena, node_ref: NodeRef, grandparent_list_tight: Option<bool>) -> (r: bool)
    requires
        ancestry_is_held(*arena, node_ref),
    ensures
        r == match grandparent_list_tight {
            Some(tight) => tight,
            None => html_in_tight_list(*arena, node_ref),
        },
{
    match grandparent_list_tight {
        Some(tight) => tight,
        None => {
            let in_tight_list = rushdown_is_in_tight_list(arena, node_ref);
            paragraph_is_tight(grandparent_list_tight, in_tight_list)
        },
    }
}

/// As `is_in_tight_list`, for any node: `None` when `arena` does not hold
/// `node_ref`, its parent or its grandparent, otherwise whether the paragraph
/// is a child of a tight list.
pub fn try_is_in_tight_list(arena: &Arena, node_ref: NodeRef, grandparent_list_tight: Option<bool>) -> (r: Option<bool>)
    ensures
        r is None <==> !ancestry_is_held(*arena, node_ref),
        r matches Some(t) ==> t == match grandparent_list_tight {
            Some(tight) => tight,
            None => html_in_tight_list(*arena, node_ref),
        },
{
    if holds_ancestry(arena, node_ref) {
        Some(is_in_tight_list(arena, node_ref, grandparent_list_tight))
    } else {
        None
    }
}

} // verus!
