//! What the rewrite does to a tree, as a function on mathematical trees.
//!
//! Every statement list, at any depth, is rewritten entry by entry: a variable
//! declaration that qualifies becomes an import declaration, and every other
//! entry stays where it is, with the statement lists nested in it rewritten in
//! turn.

use vstd::prelude::*;
use crate::ast::{ExprView, ItemView, OpaqueView, PatView, VarDeclView, VarDeclaratorView};
use crate::decision::import_for;

verus! {

/// The rewrite of one statement list.
pub open spec fn rewrite_items(items: Seq<ItemView>) -> Seq<ItemView>
    decreases items,
{
    Seq::new(
        items.len(),
        |i: int|
            if 0 <= i < items.len() {
                rewrite_item(items[i])
            } else {
                arbitrary()
            },
    )
}

/// The rewrite of one entry of a statement list.
pub open spec fn rewrite_item(item: ItemView) -> ItemView
    decreases item,
{
    match item {
        ItemView::Var(decl) => match import_for(decl) {
            Some(import) => ItemView::Import(import),
            None => ItemView::Var(rewrite_nested_in_decl(decl)),
        },
        ItemView::Import(_) => item,
        ItemView::Other(o) => ItemView::Other(rewrite_nested(o)),
    }
}

/// An uninterpreted node with each statement list inside it rewritten.
pub open spec fn rewrite_nested(o: OpaqueView) -> OpaqueView
    decreases o,
{
    OpaqueView {
        kind: o.kind,
        bodies: Seq::new(
            o.bodies.len(),
            |i: int|
                if 0 <= i < o.bodies.len() {
                    rewrite_items(o.bodies[i])
                } else {
                    arbitrary()
                },
        ),
    }
}

/// A variable declaration that stays one, with the statement lists inside its
/// patterns and initializers rewritten.
pub open spec fn rewrite_nested_in_decl(decl: VarDeclView) -> VarDeclView
    decreases decl,
{
    VarDeclView {
        kind: decl.kind,
        decls: Seq::new(
            decl.decls.len(),
            |i: int|
                if 0 <= i < decl.decls.len() {
                    rewrite_nested_in_declarator(decl.decls[i])
                } else {
                    arbitrary()
                },
        ),
    }
}

/// A declarator with the statement lists inside its pattern and its
/// initializer rewritten.
pub open spec fn rewrite_nested_in_declarator(d: VarDeclaratorView) -> VarDeclaratorView
    decreases d,
{
    VarDeclaratorView {
        name: rewrite_nested_in_pat(d.name),
        init: match d.init {
            Some(e) => Some(rewrite_nested_in_expr(e)),
            None => None,
        },
    }
}

/// A pattern with the statement lists inside it rewritten. A simple
/// identifier holds none.
pub open spec fn rewrite_nested_in_pat(p: PatView) -> PatView
    decreases p,
{
    match p {
        PatView::Ident(_) => p,
        PatView::Other(o) => PatView::Other(rewrite_nested(o)),
    }
}

/// An initializer with the statement lists inside it rewritten. A string
/// literal holds none.
pub open spec fn rewrite_nested_in_expr(e: ExprView) -> ExprView
    decreases e,
{
    match e {
        ExprView::Str(_) => e,
        ExprView::Other(o) => ExprView::Other(rewrite_nested(o)),
    }
}

/// An entry with the statement lists nested in it rewritten; the entry itself
/// stays what it is.
pub open spec fn with_nested_rewritten(item: ItemView) -> ItemView {
    match item {
        ItemView::Var(decl) => ItemView::Var(rewrite_nested_in_decl(decl)),
        ItemView::Import(_) => item,
        ItemView::Other(o) => ItemView::Other(rewrite_nested(o)),
    }
}

/// Rewriting the statement lists nested in a declaration does not change
/// whether the declaration qualifies, nor the import that replaces it.
pub proof fn lemma_decision_ignores_nested(decl: VarDeclView)
    ensures
        import_for(rewrite_nested_in_decl(decl)) == import_for(decl),
{
}

} // verus!
